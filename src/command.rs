use crate::criteria::Criteria;
use vstd::prelude::*;

verus! {

/// Criteria in front of a command.
#[derive(Debug)]
pub struct CriteriaCommand {
    pub criteria: Vec<Criteria>,
    pub command: Box<Command>,
}

/// A command in the compositor's command grammar.
#[derive(Debug)]
pub enum Command {
    WithCriteria(CriteriaCommand),
    Exec(String),
    Raw(String),
}

/// The parts in order, with `sep` between neighbours.
pub open spec fn joined(parts: Seq<Seq<char>>, sep: Seq<char>) -> Seq<char>
    decreases parts.len(),
{
    if parts.len() == 0 {
        Seq::empty()
    } else if parts.len() == 1 {
        parts[0]
    } else {
        joined(parts.drop_last(), sep) + sep + parts.last()
    }
}

/// Relies on `itertools::join`: the items in order, with `sep` between neighbours.
#[verifier::external_body]
fn join_strings(parts: &Vec<String>, sep: &str) -> (r: String)
    ensures
        r@ == joined(parts@.map_values(|s: String| s@), sep@),
{
    itertools::join(parts, sep)
}

pub open spec fn criteria_texts(cs: Seq<Criteria>) -> Seq<Seq<char>> {
    cs.map_values(|c: Criteria| c.spec_text())
}

/// `[c1 c2 ...] inner`, or `inner` alone when there are no criteria.
pub open spec fn with_prefix(cs: Seq<Criteria>, inner: Seq<char>) -> Seq<char> {
    if cs.len() == 0 {
        inner
    } else {
        "["@ + joined(criteria_texts(cs), " "@) + "] "@ + inner
    }
}

/// The criteria that a command already carries.
pub open spec fn base_criteria(c: Command) -> Seq<Criteria> {
    match c {
        Command::WithCriteria(cc) => cc.criteria@,
        _ => Seq::empty(),
    }
}

/// The command under its criteria.
pub open spec fn base_inner(c: Command) -> Command {
    match c {
        Command::WithCriteria(cc) => *cc.command,
        _ => c,
    }
}

/// `r` is `c` with `extra` added after the criteria that `c` carries, in one
/// criteria node.
pub open spec fn appended(c: Command, extra: Seq<Criteria>, r: Command) -> bool {
    &&& r is WithCriteria
    &&& r->WithCriteria_0.criteria@ == base_criteria(c) + extra
    &&& *r->WithCriteria_0.command == base_inner(c)
}

impl Command {
    /// The text that the command renders to.
    pub open spec fn spec_text(self) -> Seq<char>
        decreases self,
    {
        match self {
            Command::Raw(s) => s@,
            Command::Exec(s) => "exec "@ + s@,
            Command::WithCriteria(cc) => with_prefix(cc.criteria@, (*cc.command).spec_text()),
        }
    }

    /// Renders the command as the compositor's grammar expects it.
    pub fn to_string(&self) -> (r: String)
        ensures
            r@ == self.spec_text(),
        decreases self,
    {
        match self {
            Command::Raw(s) => s.clone(),
            Command::Exec(s) => {
                let mut r = String::from_str("exec ");
                r.append(s.as_str());
                r
            },
            Command::WithCriteria(cc) => {
                let inner = cc.command.to_string();
                if cc.criteria.len() == 0 {
                    return inner;
                }
                let mut parts: Vec<String> = Vec::new();
                let mut i: usize = 0;
                while i < cc.criteria.len()
                    invariant
                        0 <= i <= cc.criteria@.len(),
                        parts@.len() == i,
                        forall|j: int|
                            0 <= j < i ==> (#[trigger] parts@[j])@ == cc.criteria@[j].spec_text(),
                    decreases cc.criteria@.len() - i,
                {
                    parts.push(cc.criteria[i].to_string());
                    i = i + 1;
                }
                proof {
                    assert(parts@.map_values(|s: String| s@) =~= criteria_texts(cc.criteria@));
                }
                let mut r = String::from_str("[");
                r.append(join_strings(&parts, " ").as_str());
                r.append("] ");
                r.append(inner.as_str());
                r
            },
        }
    }

    /// Adds criteria after those the command already carries. A command that
    /// carries criteria keeps its one criteria node; another is wrapped in a
    /// new one.
    pub fn with_criteria(self, criteria: Vec<Criteria>) -> (r: Self)
        ensures
            appended(self, criteria@, r),
            r.spec_text() == with_prefix(
                base_criteria(self) + criteria@,
                base_inner(self).spec_text(),
            ),
    {
        match self {
            Command::WithCriteria(mut cmd) => {
                let mut extra = criteria;
                cmd.criteria.append(&mut extra);
                Command::WithCriteria(cmd)
            },
            other => Command::WithCriteria(CriteriaCommand { criteria, command: Box::new(other) }),
        }
    }
}

/// Adding criteria twice gives the command that adding both lists at once
/// gives: the same criteria in the same order over the same inner command, and
/// so the same text.
pub proof fn lemma_with_criteria_concat(
    c: Command,
    a: Seq<Criteria>,
    b: Seq<Criteria>,
    w: Command,
    r: Command,
    r2: Command,
)
    requires
        appended(c, a, w),
        appended(w, b, r),
        appended(c, a + b, r2),
    ensures
        appended(c, a + b, r),
        r.spec_text() == r2.spec_text(),
{
    assert(base_criteria(c) + a + b =~= base_criteria(c) + (a + b));
}

/// A command given as is.
pub fn raw(t: &str) -> (r: Command)
    ensures
        r matches Command::Raw(s) && s@ == t@,
{
    Command::Raw(String::from_str(t))
}

/// A command that runs `t` as a program: `exec t`.
pub fn exec(t: &str) -> (r: Command)
    ensures
        r matches Command::Exec(s) && s@ == t@,
{
    Command::Exec(String::from_str(t))
}

} // verus!
