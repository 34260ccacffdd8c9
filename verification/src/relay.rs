//! The mailbox relay between a robot's tick loop and its external process.
//!
//! Two independent FIFO queues decouple the two sides: an outbound queue
//! of `(snapshot, message)` records that the process loop drains, and an
//! inbound queue of response lists that the process loop fills, one list
//! per outbound record. The queues are crossbeam's lock-free `SegQueue`,
//! so the process loop can run on a thread of its own; their contents are
//! named here as sequences, and every operation is stated over those
//! sequences.

use vstd::prelude::*;
use crate::rpc::{BotState, Message, Response};

verus! {

/// An error from the process side of the relay. The encoding and stream
/// work happens outside the library; its failures are carried back as
/// text.
#[derive(Clone, Debug, PartialEq, Eq)]
pub enum ProcessError {
    /// An outbound record could not be encoded.
    Serialization(String),

    /// An inbound line could not be decoded.
    Deserialization(String),

    /// The external process's input stream refused a write.
    Writing(String),

    /// The external process's output stream refused a read.
    Reading(String),
}

#[verifier::external_type_specification]
#[verifier::external_body]
#[verifier::reject_recursive_types(T)]
pub struct ExSegQueue<T>(crossbeam::queue::SegQueue<T>);

/// What an outbound queue holds, oldest first.
pub uninterp spec fn msg_queue_view(q: crossbeam::queue::SegQueue<(BotState, Message)>) -> Seq<
    (BotState, Message),
>;

/// What an inbound queue holds, oldest first.
pub uninterp spec fn resp_queue_view(q: crossbeam::queue::SegQueue<Vec<Response>>) -> Seq<
    Vec<Response>,
>;

/// Relies on crossbeam's `SegQueue::new`: a fresh queue is empty.
#[verifier::external_body]
fn new_msg_queue() -> (q: crossbeam::queue::SegQueue<(BotState, Message)>)
    ensures
        msg_queue_view(q) == Seq::<(BotState, Message)>::empty(),
{
    crossbeam::queue::SegQueue::new()
}

/// Relies on crossbeam's `SegQueue::new`: a fresh queue is empty.
#[verifier::external_body]
fn new_resp_queue() -> (q: crossbeam::queue::SegQueue<Vec<Response>>)
    ensures
        resp_queue_view(q) == Seq::<Vec<Response>>::empty(),
{
    crossbeam::queue::SegQueue::new()
}

/// Relies on crossbeam's `SegQueue::push`: appends one element at the
/// tail.
#[verifier::external_body]
fn msg_queue_push(q: &mut crossbeam::queue::SegQueue<(BotState, Message)>, msg: (BotState, Message))
    ensures
        msg_queue_view(*final(q)) == msg_queue_view(*old(q)).push(msg),
{
    q.push(msg);
}

/// Relies on crossbeam's `SegQueue::pop`: takes the oldest element off
/// the head, or returns `None` on an empty queue.
#[verifier::external_body]
fn msg_queue_pop(q: &mut crossbeam::queue::SegQueue<(BotState, Message)>) -> (r: Option<
    (BotState, Message),
>)
    ensures
        match r {
            Some(msg) => {
                &&& msg_queue_view(*old(q)).len() > 0
                &&& msg == msg_queue_view(*old(q))[0]
                &&& msg_queue_view(*final(q)) == msg_queue_view(*old(q)).drop_first()
            },
            None => {
                &&& msg_queue_view(*old(q)).len() == 0
                &&& msg_queue_view(*final(q)) == msg_queue_view(*old(q))
            },
        },
{
    q.pop()
}

/// Relies on crossbeam's `SegQueue::push`: appends one element at the
/// tail.
#[verifier::external_body]
fn resp_queue_push(q: &mut crossbeam::queue::SegQueue<Vec<Response>>, resps: Vec<Response>)
    ensures
        resp_queue_view(*final(q)) == resp_queue_view(*old(q)).push(resps),
{
    q.push(resps);
}

/// Relies on crossbeam's `SegQueue::pop`: takes the oldest element off
/// the head, or returns `None` on an empty queue.
#[verifier::external_body]
fn resp_queue_pop(q: &mut crossbeam::queue::SegQueue<Vec<Response>>) -> (r: Option<Vec<Response>>)
    ensures
        match r {
            Some(resps) => {
                &&& resp_queue_view(*old(q)).len() > 0
                &&& resps == resp_queue_view(*old(q))[0]
                &&& resp_queue_view(*final(q)) == resp_queue_view(*old(q)).drop_first()
            },
            None => {
                &&& resp_queue_view(*old(q)).len() == 0
                &&& resp_queue_view(*final(q)) == resp_queue_view(*old(q))
            },
        },
{
    q.pop()
}

/// A process's message and response relay.
pub struct Relay {
    msg_queue: crossbeam::queue::SegQueue<(BotState, Message)>,
    resp_queue: crossbeam::queue::SegQueue<Vec<Response>>,
}

impl Relay {
    /// The outbound records waiting for the process loop, oldest first.
    pub closed spec fn msgs(&self) -> Seq<(BotState, Message)> {
        msg_queue_view(self.msg_queue)
    }

    /// The inbound response lists waiting for the controller, oldest
    /// first.
    pub closed spec fn resps(&self) -> Seq<Vec<Response>> {
        resp_queue_view(self.resp_queue)
    }

    /// A relay with both queues empty.
    pub fn new() -> (r: Self)
        ensures
            r.msgs() == Seq::<(BotState, Message)>::empty(),
            r.resps() == Seq::<Vec<Response>>::empty(),
    {
        Relay { msg_queue: new_msg_queue(), resp_queue: new_resp_queue() }
    }

    /// Send a message to the external process: enqueues it outbound
    /// without blocking; the process loop carries it over later.
    pub fn send_msg(&mut self, msg: (BotState, Message))
        ensures
            final(self).msgs() == old(self).msgs().push(msg),
            final(self).resps() == old(self).resps(),
    {
        msg_queue_push(&mut self.msg_queue, msg);
    }

    /// Try to receive a single list of responses from the external
    /// process: takes the oldest inbound list, without blocking, or
    /// reports that none has arrived yet.
    pub fn try_recv_resps(&mut self) -> (r: Option<Vec<Response>>)
        ensures
            final(self).msgs() == old(self).msgs(),
            match r {
                Some(resps) => {
                    &&& old(self).resps().len() > 0
                    &&& resps == old(self).resps()[0]
                    &&& final(self).resps() == old(self).resps().drop_first()
                },
                None => {
                    &&& old(self).resps().len() == 0
                    &&& final(self).resps() == old(self).resps()
                },
            },
    {
        resp_queue_pop(&mut self.resp_queue)
    }

    /// The process loop's half of the inbound queue: delivers one list of
    /// decoded responses.
    pub fn send_resps(&mut self, resps: Vec<Response>)
        ensures
            final(self).msgs() == old(self).msgs(),
            final(self).resps() == old(self).resps().push(resps),
    {
        resp_queue_push(&mut self.resp_queue, resps);
    }

    /// The process loop's half of the outbound queue: takes the oldest
    /// waiting record, or reports that none is waiting.
    pub fn recv_msg(&mut self) -> (r: Option<(BotState, Message)>)
        ensures
            final(self).resps() == old(self).resps(),
            match r {
                Some(msg) => {
                    &&& old(self).msgs().len() > 0
                    &&& msg == old(self).msgs()[0]
                    &&& final(self).msgs() == old(self).msgs().drop_first()
                },
                None => {
                    &&& old(self).msgs().len() == 0
                    &&& final(self).msgs() == old(self).msgs()
                },
            },
    {
        msg_queue_pop(&mut self.msg_queue)
    }
}

impl Default for Relay {
    /// A relay with both queues empty.
    fn default() -> (r: Self)
        ensures
            r.msgs() == Seq::<(BotState, Message)>::empty(),
            r.resps() == Seq::<Vec<Response>>::empty(),
    {
        Relay::new()
    }
}

/// One turn of the process loop, over the relay's model: the oldest
/// outbound record is carried over and its answer list is enqueued
/// inbound; an empty outbound queue leaves everything as it is.
pub open spec fn relay_step(
    msgs: Seq<(BotState, Message)>,
    resps: Seq<Vec<Response>>,
    answer: spec_fn((BotState, Message)) -> Vec<Response>,
) -> (Seq<(BotState, Message)>, Seq<Vec<Response>>) {
    if msgs.len() == 0 {
        (msgs, resps)
    } else {
        (msgs.drop_first(), resps.push(answer(msgs[0])))
    }
}

/// `n` turns of the process loop in a row, over the relay's model.
pub open spec fn relay_steps(
    msgs: Seq<(BotState, Message)>,
    resps: Seq<Vec<Response>>,
    answer: spec_fn((BotState, Message)) -> Vec<Response>,
    n: nat,
) -> (Seq<(BotState, Message)>, Seq<Vec<Response>>)
    decreases n,
{
    if n == 0 {
        (msgs, resps)
    } else {
        let step = relay_step(msgs, resps, answer);
        relay_steps(step.0, step.1, answer, (n - 1) as nat)
    }
}

/// Relay round trip: however many outbound records are queued, carrying
/// each of them over — oldest first, one answer list per record — drains
/// the outbound queue and leaves inbound exactly one answer per record,
/// in the order the records were sent.
pub proof fn lemma_relay_round_trip(
    msgs: Seq<(BotState, Message)>,
    resps: Seq<Vec<Response>>,
    answer: spec_fn((BotState, Message)) -> Vec<Response>,
)
    ensures
        relay_steps(msgs, resps, answer, msgs.len()).0 == Seq::<(BotState, Message)>::empty(),
        relay_steps(msgs, resps, answer, msgs.len()).1 == resps + msgs.map_values(answer),
    decreases msgs.len(),
{
    if msgs.len() == 0 {
        assert(relay_steps(msgs, resps, answer, 0).1 =~= resps + msgs.map_values(answer));
    } else {
        let rest = msgs.drop_first();
        let acc = resps.push(answer(msgs[0]));
        lemma_relay_round_trip(rest, acc, answer);
        assert(acc + rest.map_values(answer) =~= resps + msgs.map_values(answer));
    }
}

} // verus!
