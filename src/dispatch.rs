use crate::codec::{is_event, is_event_code, IpcEvent};
use crate::error::{protocol_violation, Error};
use crossbeam_channel::{Receiver, Sender};
use vstd::prelude::*;

verus! {

#[verifier::external_type_specification]
#[verifier::external_body]
#[verifier::reject_recursive_types(T)]
pub struct ExSender<T>(Sender<T>);

#[verifier::external_type_specification]
#[verifier::external_body]
#[verifier::reject_recursive_types(T)]
pub struct ExReceiver<T>(Receiver<T>);

/// Relies on `crossbeam_channel::unbounded`: a new queue without bound, as its
/// sending and its receiving handle.
#[verifier::external_body]
fn new_queue<T>() -> (r: (Sender<T>, Receiver<T>)) {
    crossbeam_channel::unbounded()
}

/// Relies on `crossbeam_channel::Sender::send`: puts `msg` on the queue, or
/// reports `false` when no receiver is left.
#[verifier::external_body]
fn send_to<T>(tx: &Sender<T>, msg: T) -> (r: bool) {
    tx.send(msg).is_ok()
}

/// The errno that a read on a socket with a timeout reports when no data came.
pub const EAGAIN: i32 = 11;

/// Whether a failed read only found no data before the timeout, which polling
/// does not count as a failure.
pub fn is_no_data(os_code: Option<i32>) -> (r: bool)
    ensures
        r == (os_code == Some(EAGAIN)),
{
    match os_code {
        Some(c) => c == EAGAIN,
        None => false,
    }
}

/// What the routing of frames has done so far on one connection.
pub struct DispatchView {
    /// The sending handle of the subscription, once there is one.
    pub queue: Option<Sender<(IpcEvent, Vec<u8>)>>,
    /// Every event put on the subscription queue, as type code and payload, in
    /// the order they were put there.
    pub delivered: Seq<(u32, Seq<u8>)>,
}

/// Sorts the frames of one connection into replies and events, and puts the
/// events on the connection's one subscription queue.
pub struct Dispatcher {
    subscription: Option<Sender<(IpcEvent, Vec<u8>)>>,
    delivered: Ghost<Seq<(u32, Seq<u8>)>>,
}

pub open spec fn opt_view(o: Option<Vec<u8>>) -> Option<Seq<u8>> {
    match o {
        Some(v) => Some(v@),
        None => None,
    }
}

/// One frame read while a reply is awaited: an event goes to the queue, and any
/// other frame is the reply and leaves the queue as it was.
pub open spec fn wait_step(
    before: Seq<(u32, Seq<u8>)>,
    code: u32,
    payload: Seq<u8>,
    after: Seq<(u32, Seq<u8>)>,
    reply: Option<Seq<u8>>,
) -> bool {
    if is_event_code(code) {
        after == before.push((code, payload)) && reply is None
    } else {
        after == before && reply == Some(payload)
    }
}

/// What `Dispatcher::subscribe` does, from the state before to the state after.
pub open spec fn subscribe_step(
    before: DispatchView,
    after: DispatchView,
    r: Result<Receiver<(IpcEvent, Vec<u8>)>, Error>,
) -> bool {
    if before.queue is Some {
        r matches Err(Error::AlreadySubscribed) && after == before
    } else {
        r is Ok && after.queue is Some && after.delivered == before.delivered
    }
}

impl View for Dispatcher {
    type V = DispatchView;

    closed spec fn view(&self) -> DispatchView {
        DispatchView { queue: self.subscription, delivered: self.delivered@ }
    }
}

impl Dispatcher {
    /// A connection with no subscription.
    pub fn new() -> (r: Dispatcher)
        ensures
            r@.queue is None,
            r@.delivered == Seq::<(u32, Seq<u8>)>::empty(),
    {
        Dispatcher { subscription: None, delivered: Ghost(Seq::empty()) }
    }

    pub fn is_subscribed(&self) -> (r: bool)
        ensures
            r == self@.queue is Some,
    {
        self.subscription.is_some()
    }

    /// Opens the subscription queue and returns its receiving end. Fails with
    /// `AlreadySubscribed`, changing nothing, when the connection has one.
    pub fn subscribe(&mut self) -> (r: Result<Receiver<(IpcEvent, Vec<u8>)>, Error>)
        ensures
            subscribe_step(old(self)@, final(self)@, r),
    {
        if self.subscription.is_some() {
            return Err(Error::AlreadySubscribed);
        }
        let (tx, rx) = new_queue();
        self.subscription = Some(tx);
        Ok(rx)
    }

    /// Puts an event frame on the subscription queue. Fails with
    /// `SubscriptionError`, changing nothing, when there is no subscription, the
    /// code names no event, or the receiver is gone.
    fn deliver(&mut self, code: u32, payload: Vec<u8>) -> (r: Result<(), Error>)
        requires
            is_event_code(code),
        ensures
            final(self)@.queue == old(self)@.queue,
            r is Ok ==> final(self)@.delivered == old(self)@.delivered.push((code, payload@)),
            r matches Err(e) ==> e is SubscriptionError && final(self)@ == old(self)@,
            old(self)@.queue is None ==> r is Err,
            (forall|e: IpcEvent| e.spec_code() != code) ==> r is Err,
    {
        let ghost p = payload@;
        match &self.subscription {
            None => Err(Error::SubscriptionError),
            Some(tx) => match IpcEvent::from_code(code) {
                None => Err(Error::SubscriptionError),
                Some(event) => {
                    if send_to(tx, (event, payload)) {
                        proof {
                            self.delivered@ = self.delivered@.push((code, p));
                        }
                        Ok(())
                    } else {
                        Err(Error::SubscriptionError)
                    }
                },
            },
        }
    }

    /// Routes one frame read while the reply to a request is awaited. An event
    /// goes to the subscription queue and `Ok(None)` says to read on; any other
    /// frame is the reply, whose payload comes back in `Ok(Some(..))`.
    pub fn accept_awaited(&mut self, code: u32, payload: Vec<u8>) -> (r: Result<
        Option<Vec<u8>>,
        Error,
    >)
        ensures
            final(self)@.queue == old(self)@.queue,
            r matches Ok(reply) ==> wait_step(
                old(self)@.delivered,
                code,
                payload@,
                final(self)@.delivered,
                opt_view(reply),
            ),
            r matches Err(e) ==> is_event_code(code) && e is SubscriptionError && final(self)@
                == old(self)@,
            !is_event_code(code) ==> r is Ok,
            is_event_code(code) && (old(self)@.queue is None || forall|e: IpcEvent|
                e.spec_code() != code) ==> r is Err,
    {
        if is_event(code) {
            self.deliver(code, payload)?;
            Ok(None)
        } else {
            Ok(Some(payload))
        }
    }

    /// Routes one frame read while no request is outstanding. Only events come
    /// unasked; any other frame is a protocol violation, reported as `Io`.
    pub fn accept_polled(&mut self, code: u32, payload: Vec<u8>) -> (r: Result<(), Error>)
        ensures
            final(self)@.queue == old(self)@.queue,
            r is Ok ==> is_event_code(code) && final(self)@.delivered == old(
                self,
            )@.delivered.push((code, payload@)),
            r matches Err(e) ==> final(self)@ == old(self)@ && if is_event_code(code) {
                e is SubscriptionError
            } else {
                e is Io
            },
            is_event_code(code) && (old(self)@.queue is None || forall|e: IpcEvent|
                e.spec_code() != code) ==> r is Err,
    {
        if is_event(code) {
            self.deliver(code, payload)
        } else {
            Err(Error::Io(protocol_violation()))
        }
    }
}

/// A second subscription on one connection is refused and leaves the first
/// one's queue, and all that was put on it, as they were.
pub proof fn lemma_subscribe_once(
    d0: DispatchView,
    d1: DispatchView,
    d2: DispatchView,
    r1: Result<Receiver<(IpcEvent, Vec<u8>)>, Error>,
    r2: Result<Receiver<(IpcEvent, Vec<u8>)>, Error>,
)
    requires
        subscribe_step(d0, d1, r1),
        r1 is Ok,
        subscribe_step(d1, d2, r2),
    ensures
        r2 matches Err(Error::AlreadySubscribed),
        d2 == d1,
{
}

proof fn lemma_wait_prefix(
    logs: Seq<Seq<(u32, Seq<u8>)>>,
    frames: Seq<(u32, Seq<u8>)>,
    replies: Seq<Option<Seq<u8>>>,
    k: int,
)
    requires
        logs.len() == frames.len() + 1,
        replies.len() == frames.len(),
        forall|i: int|
            0 <= i < frames.len() ==> wait_step(
                #[trigger] logs[i],
                frames[i].0,
                frames[i].1,
                logs[i + 1],
                replies[i],
            ),
        forall|i: int| 0 <= i < frames.len() - 1 ==> (#[trigger] replies[i]) is None,
        0 <= k < frames.len(),
    ensures
        logs[k] == logs[0] + frames.take(k),
        forall|i: int| 0 <= i < k ==> is_event_code(#[trigger] frames[i].0),
    decreases k,
{
    if k > 0 {
        lemma_wait_prefix(logs, frames, replies, k - 1);
        assert(wait_step(logs[k - 1], frames[k - 1].0, frames[k - 1].1, logs[k], replies[k - 1]));
        assert(replies[k - 1] is None);
        assert(frames.take(k) =~= frames.take(k - 1).push(frames[k - 1]));
    } else {
        assert(frames.take(0) =~= Seq::<(u32, Seq<u8>)>::empty());
    }
}

/// While a reply is awaited, the events read before it reach the subscription
/// queue in the order they were read, and the frame taken as the reply does not.
/// `frames` are the frames read, `logs[i]` what the queue had received before
/// frame `i`, and `replies[i]` what routing frame `i` returned.
pub proof fn lemma_events_before_reply(
    logs: Seq<Seq<(u32, Seq<u8>)>>,
    frames: Seq<(u32, Seq<u8>)>,
    replies: Seq<Option<Seq<u8>>>,
)
    requires
        frames.len() >= 1,
        logs.len() == frames.len() + 1,
        replies.len() == frames.len(),
        forall|i: int|
            0 <= i < frames.len() ==> wait_step(
                #[trigger] logs[i],
                frames[i].0,
                frames[i].1,
                logs[i + 1],
                replies[i],
            ),
        forall|i: int| 0 <= i < frames.len() - 1 ==> (#[trigger] replies[i]) is None,
        replies.last() is Some,
    ensures
        logs.last() == logs[0] + frames.drop_last(),
        forall|i: int| 0 <= i < frames.len() - 1 ==> is_event_code(#[trigger] frames[i].0),
        !is_event_code(frames.last().0),
        replies.last() == Some(frames.last().1),
{
    let n = frames.len() as int;
    lemma_wait_prefix(logs, frames, replies, n - 1);
    assert(wait_step(logs[n - 1], frames[n - 1].0, frames[n - 1].1, logs[n], replies[n - 1]));
    assert(frames.drop_last() =~= frames.take(n - 1));
}

} // verus!
