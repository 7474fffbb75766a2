//! The bounded channel between producers and the runner.
use crossbeam_channel::{Receiver, Sender};
use vstd::prelude::*;

verus! {

/// What travels through the channel: a line to persist, or the request to
/// stop.
#[derive(Debug)]
pub enum LogMessage {
    Line(String),
    Shutdown,
}

/// A message as plain values: the line, or `None` for the request to stop.
pub open spec fn message_view(m: LogMessage) -> Option<Seq<char>> {
    match m {
        LogMessage::Line(s) => Some(s@),
        LogMessage::Shutdown => None,
    }
}

/// Declares `crossbeam_channel::Sender`, held opaquely by the pipeline.
#[verifier::external_type_specification]
#[verifier::external_body]
#[verifier::reject_recursive_types(T)]
pub struct ExSender<T>(Sender<T>);

/// Declares `crossbeam_channel::Receiver`, held opaquely by the runner.
#[verifier::external_type_specification]
#[verifier::external_body]
#[verifier::reject_recursive_types(T)]
pub struct ExReceiver<T>(Receiver<T>);

/// The bound of the channel a sender belongs to, as `Sender::capacity`
/// reports it.
pub uninterp spec fn sender_capacity(tx: Sender<LogMessage>) -> Option<nat>;

/// The bound of the channel a receiver belongs to, as `Receiver::capacity`
/// reports it.
pub uninterp spec fn receiver_capacity(rx: Receiver<LogMessage>) -> Option<nat>;

/// How many messages may wait in the channel before producers block.
pub const CHANNEL_CAPACITY: usize = 5;

/// Relies on `crossbeam_channel::bounded`: both ends report `cap` as their
/// capacity. It panics only when the buffer of `cap` slots cannot be sized;
/// the bound here stays far below that.
#[verifier::external_body]
fn bounded_channel(cap: usize) -> (r: (Sender<LogMessage>, Receiver<LogMessage>))
    requires
        cap <= 1024,
    ensures
        sender_capacity(r.0) == Some(cap as nat),
        receiver_capacity(r.1) == Some(cap as nat),
{
    crossbeam_channel::bounded(cap)
}

/// The sending end of the channel, with a record of every message handed
/// over to it.
pub struct LogSender {
    tx: Sender<LogMessage>,
    sent: Ghost<Seq<Option<Seq<char>>>>,
}

pub struct SenderModel {
    pub capacity: Option<nat>,
    /// The messages accepted by the channel, in order.
    pub sent: Seq<Option<Seq<char>>>,
}

impl View for LogSender {
    type V = SenderModel;

    closed spec fn view(&self) -> SenderModel {
        SenderModel { capacity: sender_capacity(self.tx), sent: self.sent@ }
    }
}

/// Relies on crossbeam's `Clone` for `Sender`: a further handle to the same
/// channel.
#[verifier::external_body]
fn clone_sender(tx: &Sender<LogMessage>) -> (r: Sender<LogMessage>)
    ensures
        sender_capacity(r) == sender_capacity(*tx),
{
    tx.clone()
}

impl LogSender {
    /// A further sending end of the same channel, with nothing handed over
    /// through it yet.
    pub fn duplicate(&self) -> (r: LogSender)
        ensures
            r@.capacity == self@.capacity,
            r@.sent == Seq::<Option<Seq<char>>>::empty(),
    {
        LogSender { tx: clone_sender(&self.tx), sent: Ghost(Seq::empty()) }
    }
}

/// A channel bounded by `cap`: its sending end, with nothing handed over yet,
/// and its receiving end.
pub fn open_channel(cap: usize) -> (r: (LogSender, Receiver<LogMessage>))
    requires
        cap <= 1024,
    ensures
        r.0@.capacity == Some(cap as nat),
        r.0@.sent == Seq::<Option<Seq<char>>>::empty(),
        receiver_capacity(r.1) == Some(cap as nat),
{
    let (tx, rx) = bounded_channel(cap);
    (LogSender { tx, sent: Ghost(Seq::empty()) }, rx)
}

/// Relies on `crossbeam_channel::Sender::send`: it blocks while the channel
/// is full; it either accepts the message, which the record then ends with,
/// or, once the receiver is gone, fails and hands the message back.
#[verifier::external_body]
pub(crate) fn send_message(tx: &mut LogSender, msg: LogMessage) -> (r: Result<(), LogMessage>)
    ensures
        final(tx)@.capacity == old(tx)@.capacity,
        r is Ok ==> final(tx)@.sent == old(tx)@.sent.push(message_view(msg)),
        r matches Err(back) ==> back == msg && final(tx)@.sent == old(tx)@.sent,
{
    tx.tx.send(msg).map_err(|e| e.0)
}

/// Relies on `crossbeam_channel::Receiver::recv`: it blocks while the channel
/// is empty, and gives `None` once it is empty and every sender is gone.
#[verifier::external_body]
pub(crate) fn receive_message(rx: &Receiver<LogMessage>) -> Option<LogMessage> {
    rx.recv().ok()
}

} // verus!
