use vstd::prelude::*;
use crate::matcher::Matcher;
use crate::scan::{MatchEvent, models_of, scan_file, scan_spec};

verus! {

/// Capacity of the merged event queue: senders block when this many events
/// are pending, which is the system's only backpressure mechanism.
pub const EVENT_QUEUE_BOUND: usize = 1000;

/// Tick cadence of the input reader, in milliseconds.
pub const TICK_MILLIS: u64 = 100;

#[verifier::external_type_specification]
#[verifier::external_body]
pub struct ExKeyEvent(crossterm::event::KeyEvent);

#[verifier::external_type_specification]
#[verifier::external_body]
#[verifier::reject_recursive_types(T)]
pub struct ExSender<T>(crossbeam_channel::Sender<T>);

#[verifier::external_type_specification]
#[verifier::external_body]
#[verifier::reject_recursive_types(T)]
pub struct ExReceiver<T>(crossbeam_channel::Receiver<T>);

/// One merged event for the single consumer: decoded keyboard input, pasted
/// text, a discovered match, or the periodic tick.
pub enum UiEvent {
    Input(crossterm::event::KeyEvent),
    MatchFound(MatchEvent),
    Paste(String),
    Tick,
}

/// A sending handle of the merged event queue; every producer holds one.
pub struct EventSender {
    tx: crossbeam_channel::Sender<UiEvent>,
}

/// The receiving handle of the merged event queue; exactly one consumer
/// should hold it.
pub struct EventReceiver {
    rx: crossbeam_channel::Receiver<UiEvent>,
}

/// The capacity the bounded queue behind this sending handle was made
/// with: a fixed property of the queue, so a function of the handle.
pub uninterp spec fn capacity_of(tx: crossbeam_channel::Sender<UiEvent>) -> nat;

/// Relies on crossbeam_channel::bounded: a queue of the given capacity for
/// many producers and one consumer, delivering events in arrival order;
/// send blocks while the queue is full.
#[verifier::external_body]
fn bounded_channel(cap: usize) -> (pair: (
    crossbeam_channel::Sender<UiEvent>,
    crossbeam_channel::Receiver<UiEvent>,
))
    ensures
        capacity_of(pair.0) == cap as nat,
{
    crossbeam_channel::bounded(cap)
}

/// Build the merged event queue with its fixed capacity: producers block
/// once that many events are pending.
pub fn event_channel() -> (pair: (EventSender, EventReceiver))
    ensures
        pair.0.capacity() == EVENT_QUEUE_BOUND as nat,
{
    let (tx, rx) = bounded_channel(EVENT_QUEUE_BOUND);
    (EventSender { tx }, EventReceiver { rx })
}

impl EventSender {
    /// The capacity of the queue behind this handle.
    pub closed spec fn capacity(&self) -> nat {
        capacity_of(self.tx)
    }

    /// Relies on crossbeam_channel::Sender::send: it blocks while the queue
    /// is full and hands the event back exactly when the receiver is gone.
    #[verifier::external_body]
    fn send_raw(&self, ev: UiEvent) -> (r: Result<(), UiEvent>)
        ensures
            r matches Err(e) ==> e == ev,
    {
        match self.tx.send(ev) {
            Ok(()) => Ok(()),
            Err(crossbeam_channel::SendError(e)) => Err(e),
        }
    }

    /// Deliver one event, blocking while the queue is full; a disconnected
    /// queue hands the event back.
    pub fn send(&self, ev: UiEvent) -> (r: Result<(), UiEvent>)
        ensures
            r matches Err(e) ==> e == ev,
    {
        self.send_raw(ev)
    }

    /// Relies on crossbeam_channel::Sender::clone: a further sending handle
    /// to the same queue, modelled as an equal value.
    #[verifier::external_body]
    fn clone_raw(&self) -> (r: EventSender)
        ensures
            r == *self,
    {
        EventSender { tx: self.tx.clone() }
    }

    /// A further sending handle to the same queue, for another producer.
    pub fn clone_handle(&self) -> (r: EventSender)
        ensures
            r == *self,
    {
        self.clone_raw()
    }
}

impl EventReceiver {
    /// Relies on crossbeam_channel::Receiver::recv: it blocks until an
    /// event arrives and returns None exactly when every sender is gone.
    #[verifier::external_body]
    fn recv_raw(&self) -> (r: Option<UiEvent>) {
        match self.rx.recv() {
            Ok(ev) => Some(ev),
            Err(crossbeam_channel::RecvError) => None,
        }
    }

    /// The next event in arrival order; None once every producer is gone.
    pub fn next(&self) -> (r: Option<UiEvent>) {
        self.recv_raw()
    }
}

/// Scan one file's bytes and deliver one event per matching line, in
/// ascending line order. Ok carries how many events were delivered, which
/// is then every event of the scan; a file without matches always succeeds,
/// since nothing is sent; a disconnected queue stops the file early.
pub fn emit_file_matches(
    tx: &EventSender,
    m: &Matcher,
    path: &String,
    bytes: &Vec<u8>,
) -> (r: Result<usize, MatchEvent>)
    ensures
        r matches Ok(n) ==> n as int == scan_spec(m.pattern_view(), path@, bytes@).len(),
        scan_spec(m.pattern_view(), path@, bytes@).len() == 0 ==> r is Ok,
{
    let evs = scan_file(m, path, bytes);
    proof {
        assert(models_of(evs@).len() == evs@.len());
    }
    let total = evs.len();
    let mut i: usize = 0;
    while i < total
        invariant
            i <= total,
            total == evs@.len(),
            total as int == scan_spec(m.pattern_view(), path@, bytes@).len(),
        decreases total - i,
    {
        let ev = &evs[i];
        let again = MatchEvent { path: ev.path.clone(), line: ev.line, text: ev.text.clone() };
        match tx.send(UiEvent::MatchFound(again)) {
            Ok(()) => {},
            Err(_) => {
                let lost = MatchEvent {
                    path: ev.path.clone(),
                    line: ev.line,
                    text: ev.text.clone(),
                };
                return Err(lost);
            },
        }
        i = i + 1;
    }
    Ok(total)
}

} // verus!
