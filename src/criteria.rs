use vstd::prelude::*;

verus! {

/// A criteria value: a concrete value, or the one of the focused window.
#[derive(Debug)]
pub enum OrFocused<T> {
    Focused,
    Value(T),
}

impl<T> From<T> for OrFocused<T> {
    fn from(t: T) -> (r: Self) {
        OrFocused::Value(t)
    }
}

impl<T> vstd::std_specs::convert::FromSpecImpl<T> for OrFocused<T> {
    open spec fn obeys_from_spec() -> bool {
        true
    }

    open spec fn from_spec(t: T) -> Self {
        OrFocused::Value(t)
    }
}

impl<T> From<Option<T>> for OrFocused<T> {
    fn from(t: Option<T>) -> (r: Self) {
        match t {
            Some(t) => OrFocused::Value(t),
            None => OrFocused::Focused,
        }
    }
}

impl<T> vstd::std_specs::convert::FromSpecImpl<Option<T>> for OrFocused<T> {
    open spec fn obeys_from_spec() -> bool {
        true
    }

    open spec fn from_spec(t: Option<T>) -> Self {
        match t {
            Some(t) => OrFocused::Value(t),
            None => OrFocused::Focused,
        }
    }
}

impl<T> OrFocused<T> {
    /// Applies `f` to a concrete value and keeps the focused sentinel.
    pub fn map<U, F: FnOnce(T) -> U>(self, f: F) -> (r: OrFocused<U>)
        requires
            self matches OrFocused::Value(t) ==> f.requires((t,)),
        ensures
            self is Focused ==> r is Focused,
            self matches OrFocused::Value(t) ==> (r matches OrFocused::Value(u) && f.ensures(
                (t,),
                u,
            )),
    {
        match self {
            OrFocused::Focused => OrFocused::Focused,
            OrFocused::Value(t) => OrFocused::Value(f(t)),
        }
    }
}

/// The focused sentinel.
pub fn focused<T>() -> (r: OrFocused<T>)
    ensures
        r is Focused,
{
    OrFocused::Focused
}

/// The text that stands for the focused window in a criteria value.
pub open spec fn focused_token() -> Seq<char> {
    "__focused__"@
}

pub open spec fn digit_char(d: nat) -> char {
    if d == 0 {
        '0'
    } else if d == 1 {
        '1'
    } else if d == 2 {
        '2'
    } else if d == 3 {
        '3'
    } else if d == 4 {
        '4'
    } else if d == 5 {
        '5'
    } else if d == 6 {
        '6'
    } else if d == 7 {
        '7'
    } else if d == 8 {
        '8'
    } else {
        '9'
    }
}

/// Decimal digits of `n`, most significant first, without leading zeros.
pub open spec fn decimal(n: nat) -> Seq<char>
    decreases n,
{
    if n < 10 {
        seq![digit_char(n)]
    } else {
        decimal(n / 10).push(digit_char(n % 10))
    }
}

/// Relies on `u64::to_string` (its `Display`): the decimal digits of `n`.
#[verifier::external_body]
fn decimal_text(n: u64) -> (r: String)
    ensures
        r@ == decimal(n as nat),
{
    n.to_string()
}

pub open spec fn text_value(v: OrFocused<String>) -> Seq<char> {
    match v {
        OrFocused::Focused => focused_token(),
        OrFocused::Value(s) => s@,
    }
}

pub open spec fn number_value(v: OrFocused<u64>) -> Seq<char> {
    match v {
        OrFocused::Focused => focused_token(),
        OrFocused::Value(n) => decimal(n as nat),
    }
}

/// `key="value"`.
pub open spec fn keyed(key: Seq<char>, value: Seq<char>) -> Seq<char> {
    key + "=\""@ + value + "\""@
}

fn keyed_text(key: &str, value: &str) -> (r: String)
    ensures
        r@ == keyed(key@, value@),
{
    let mut s = String::from_str(key);
    s.append("=\"");
    s.append(value);
    s.append("\"");
    s
}

fn text_value_of(v: &OrFocused<String>) -> (r: String)
    ensures
        r@ == text_value(*v),
{
    match v {
        OrFocused::Focused => String::from_str("__focused__"),
        OrFocused::Value(s) => s.clone(),
    }
}

fn number_value_of(v: &OrFocused<u64>) -> (r: String)
    ensures
        r@ == number_value(*v),
{
    match v {
        OrFocused::Focused => String::from_str("__focused__"),
        OrFocused::Value(n) => decimal_text(*n),
    }
}

/// A predicate that selects the windows a command applies to.
#[derive(Debug)]
pub enum Criteria {
    /// The app id (Wayland applications); a regular expression.
    AppId(OrFocused<String>),
    /// The window class (X11 applications); a regular expression.
    Class(OrFocused<String>),
    /// The internal container id.
    ConId(OrFocused<u64>),
    /// The window marks; a regular expression.
    ConMark(String),
    /// Floating windows.
    Floating,
    /// The X11 window id.
    Id(u64),
    /// The window instance; a regular expression.
    Instance(OrFocused<String>),
    /// The window shell, such as `xdg_shell` or `xwayland`; a regular expression.
    Shell(OrFocused<String>),
    /// Tiling windows.
    Tiling,
    /// The window title; a regular expression.
    Title(OrFocused<String>),
    /// The urgent state: first, last, latest, newest, oldest or recent.
    Urgent(String),
    /// The window role (WM_WINDOW_ROLE); a regular expression.
    WindowRole(OrFocused<String>),
    /// The window type (_NET_WM_WINDOW_TYPE).
    WindowType(String),
    /// The workspace of the view; a regular expression.
    Workspace(OrFocused<String>),
}

impl Criteria {
    /// The text of the criterion in the compositor's command grammar.
    pub open spec fn spec_text(self) -> Seq<char> {
        match self {
            Criteria::AppId(v) => keyed("app_id"@, text_value(v)),
            Criteria::Class(v) => keyed("class"@, text_value(v)),
            Criteria::ConId(v) => keyed("con_id"@, number_value(v)),
            Criteria::ConMark(s) => keyed("con_mark"@, s@),
            Criteria::Floating => "floating"@,
            Criteria::Id(n) => keyed("id"@, decimal(n as nat)),
            Criteria::Instance(v) => keyed("instance"@, text_value(v)),
            Criteria::Shell(v) => keyed("shell"@, text_value(v)),
            Criteria::Tiling => "tiling"@,
            Criteria::Title(v) => keyed("title"@, text_value(v)),
            Criteria::Urgent(s) => keyed("urgent"@, s@),
            Criteria::WindowRole(v) => keyed("window_role"@, text_value(v)),
            Criteria::WindowType(s) => keyed("window_type"@, s@),
            Criteria::Workspace(v) => keyed("workspace"@, text_value(v)),
        }
    }

    /// Renders the criterion: `key="value"`, or the bare keyword for
    /// `floating` and `tiling`.
    pub fn to_string(&self) -> (r: String)
        ensures
            r@ == self.spec_text(),
    {
        match self {
            Criteria::AppId(v) => keyed_text("app_id", text_value_of(v).as_str()),
            Criteria::Class(v) => keyed_text("class", text_value_of(v).as_str()),
            Criteria::ConId(v) => keyed_text("con_id", number_value_of(v).as_str()),
            Criteria::ConMark(s) => keyed_text("con_mark", s.as_str()),
            Criteria::Floating => String::from_str("floating"),
            Criteria::Id(n) => keyed_text("id", decimal_text(*n).as_str()),
            Criteria::Instance(v) => keyed_text("instance", text_value_of(v).as_str()),
            Criteria::Shell(v) => keyed_text("shell", text_value_of(v).as_str()),
            Criteria::Tiling => String::from_str("tiling"),
            Criteria::Title(v) => keyed_text("title", text_value_of(v).as_str()),
            Criteria::Urgent(s) => keyed_text("urgent", s.as_str()),
            Criteria::WindowRole(v) => keyed_text("window_role", text_value_of(v).as_str()),
            Criteria::WindowType(s) => keyed_text("window_type", s.as_str()),
            Criteria::Workspace(v) => keyed_text("workspace", text_value_of(v).as_str()),
        }
    }
}

/// Compare against the app id.
pub fn app_id(t: OrFocused<String>) -> (r: Criteria)
    ensures
        r == Criteria::AppId(t),
{
    Criteria::AppId(t)
}

/// Compare against the window class.
pub fn class(t: OrFocused<String>) -> (r: Criteria)
    ensures
        r == Criteria::Class(t),
{
    Criteria::Class(t)
}

/// Compare against the internal container id.
pub fn con_id(t: OrFocused<u64>) -> (r: Criteria)
    ensures
        r == Criteria::ConId(t),
{
    Criteria::ConId(t)
}

/// Compare against the window marks.
pub fn con_mark(t: String) -> (r: Criteria)
    ensures
        r == Criteria::ConMark(t),
{
    Criteria::ConMark(t)
}

/// Match floating windows.
pub fn floating() -> (r: Criteria)
    ensures
        r == Criteria::Floating,
{
    Criteria::Floating
}

/// Compare against the X11 window id.
pub fn id(t: u64) -> (r: Criteria)
    ensures
        r == Criteria::Id(t),
{
    Criteria::Id(t)
}

/// Compare against the window instance.
pub fn instance(t: OrFocused<String>) -> (r: Criteria)
    ensures
        r == Criteria::Instance(t),
{
    Criteria::Instance(t)
}

/// Compare against the window shell.
pub fn shell(t: OrFocused<String>) -> (r: Criteria)
    ensures
        r == Criteria::Shell(t),
{
    Criteria::Shell(t)
}

/// Match tiling windows.
pub fn tiling() -> (r: Criteria)
    ensures
        r == Criteria::Tiling,
{
    Criteria::Tiling
}

/// Compare against the window title.
pub fn title(t: OrFocused<String>) -> (r: Criteria)
    ensures
        r == Criteria::Title(t),
{
    Criteria::Title(t)
}

/// Compare against the urgent state.
pub fn urgent(t: String) -> (r: Criteria)
    ensures
        r == Criteria::Urgent(t),
{
    Criteria::Urgent(t)
}

/// Compare against the window role.
pub fn window_role(t: OrFocused<String>) -> (r: Criteria)
    ensures
        r == Criteria::WindowRole(t),
{
    Criteria::WindowRole(t)
}

/// Compare against the window type.
pub fn window_type(t: String) -> (r: Criteria)
    ensures
        r == Criteria::WindowType(t),
{
    Criteria::WindowType(t)
}

/// Compare against the workspace of the view.
pub fn workspace(t: OrFocused<String>) -> (r: Criteria)
    ensures
        r == Criteria::Workspace(t),
{
    Criteria::Workspace(t)
}

} // verus!
