//! Topic-level rules: name validation, the payload-capacity check, and the
//! decisions of the per-topic dispatch loop.
//!
//! A topic owns one named kernel queue and one background worker that blocks
//! on receive and fans each arriving message out to the registered
//! subscribers.  The worker's loop alternates a blocking system call with a
//! decision; the decisions are pure and stand here as [`dispatch_step`], so
//! the loop around them only performs the call and obeys the returned
//! action.

use vstd::prelude::*;

use crate::msg::{Msg, MSG_PAYLOAD_SIZE, MSG_TYPE_SHUTDOWN};

verus! {

use vstd::string::StringSliceAdditionalSpecFns;

/// Why a topic operation failed.
///
/// Absence of a queue is not an error: opening an existing topic reports it
/// as `None`.  Resource failures carry the underlying OS error code.
#[derive(Clone, Copy, Debug, PartialEq, Eq, Structural)]
pub enum TopicError {
    /// The topic name is malformed: empty, or holding an embedded null byte.
    Validation,
    /// The OS refused to create, open, send on or receive from the queue.
    Resource(i32),
    /// The fixed encoded size of a value type exceeds the payload capacity.
    Configuration,
}

/// A topic name is acceptable when its byte form is non-empty and holds no
/// embedded null byte.
pub open spec fn valid_topic_name(bytes: Seq<u8>) -> bool {
    &&& bytes.len() > 0
    &&& forall|i: int| 0 <= i < bytes.len() ==> bytes[i] != 0
}

/// Check a topic name before any queue is created or opened.
pub fn validate_name(name: &str) -> (r: Result<(), TopicError>)
    ensures
        r is Ok <==> valid_topic_name(name.spec_bytes()),
        r is Err ==> r == Err::<(), TopicError>(TopicError::Validation),
{
    let bytes = name.as_bytes();
    if bytes.len() == 0 {
        return Err(TopicError::Validation);
    }
    let mut i: usize = 0;
    while i < bytes.len()
        invariant
            bytes@ == name.spec_bytes(),
            i <= bytes@.len(),
            forall|j: int| 0 <= j < i ==> bytes@[j] != 0,
        decreases bytes@.len() - i,
    {
        if bytes[i] == 0 {
            proof {
                assert(name.spec_bytes()[i as int] == 0);
            }
            return Err(TopicError::Validation);
        }
        i = i + 1;
    }
    Ok(())
}

/// Check, at construction of a typed topic, that a value type's fixed
/// encoded size fits the payload capacity.  Violating this is a
/// configuration error, never a silent truncation.
pub fn ensure_fits(encoded_size: usize) -> (r: Result<(), TopicError>)
    ensures
        r is Ok <==> encoded_size <= MSG_PAYLOAD_SIZE,
        r is Err ==> r == Err::<(), TopicError>(TopicError::Configuration),
{
    if encoded_size <= MSG_PAYLOAD_SIZE {
        Ok(())
    } else {
        Err(TopicError::Configuration)
    }
}

/// What one blocking receive on the queue came back with.
#[derive(Clone, Debug, PartialEq)]
pub enum ReceiveEvent {
    /// A message arrived, with the priority it was sent at.
    Message(Msg, u32),
    /// The call was interrupted by a signal.
    Interrupted,
    /// The queue handle is closed.
    Closed,
    /// Any other receive failure, with the OS error code.
    Failed(i32),
}

/// What the dispatch loop does next.
#[derive(Clone, Debug, PartialEq)]
pub enum DispatchAction {
    /// Hand this message to every registered subscriber, in registration
    /// order, then receive again.
    Deliver(Msg),
    /// Receive again without delivering anything.
    Retry,
    /// Leave the loop.
    Exit,
}

/// The dispatch loop's decision on one receive outcome.
///
/// A sentinel-tagged message terminates the loop only when this topic's own
/// shutdown was already signaled (`running` is false); a sentinel arriving
/// while the topic still runs is delivered like any other message.  An
/// interrupted or failed receive is retried transparently unless shutdown
/// was signaled; a closed queue always ends the loop.
pub open spec fn spec_dispatch_step(running: bool, ev: ReceiveEvent) -> DispatchAction {
    match ev {
        ReceiveEvent::Message(m, _prio) => {
            if m.hdr.msg_type == MSG_TYPE_SHUTDOWN && !running {
                DispatchAction::Exit
            } else {
                DispatchAction::Deliver(m)
            }
        },
        ReceiveEvent::Interrupted => {
            if running {
                DispatchAction::Retry
            } else {
                DispatchAction::Exit
            }
        },
        ReceiveEvent::Closed => DispatchAction::Exit,
        ReceiveEvent::Failed(_code) => {
            if running {
                DispatchAction::Retry
            } else {
                DispatchAction::Exit
            }
        },
    }
}

/// Decide what the dispatch loop does with one receive outcome.
pub fn dispatch_step(running: bool, ev: ReceiveEvent) -> (a: DispatchAction)
    ensures
        a == spec_dispatch_step(running, ev),
{
    match ev {
        ReceiveEvent::Message(m, _prio) => {
            if m.hdr.msg_type == MSG_TYPE_SHUTDOWN && !running {
                DispatchAction::Exit
            } else {
                DispatchAction::Deliver(m)
            }
        },
        ReceiveEvent::Interrupted => {
            if running {
                DispatchAction::Retry
            } else {
                DispatchAction::Exit
            }
        },
        ReceiveEvent::Closed => DispatchAction::Exit,
        ReceiveEvent::Failed(_code) => {
            if running {
                DispatchAction::Retry
            } else {
                DispatchAction::Exit
            }
        },
    }
}

/// Shutdown always runs the loop to its end: once shutdown is signaled,
/// any sentinel-tagged message — whatever its priority and payload — makes
/// the loop exit, as do an interrupted receive and a closed queue.  The
/// sentinel therefore unblocks the worker even with zero pending messages
/// and zero subscribers, and teardown never depends on a subscriber.
pub proof fn lemma_shutdown_terminates(m: Msg, prio: u32)
    requires
        m.hdr.msg_type == MSG_TYPE_SHUTDOWN,
    ensures
        spec_dispatch_step(false, ReceiveEvent::Message(m, prio)) == DispatchAction::Exit,
        spec_dispatch_step(false, ReceiveEvent::Interrupted) == DispatchAction::Exit,
        spec_dispatch_step(false, ReceiveEvent::Closed) == DispatchAction::Exit,
{
}

/// While the topic runs, every arriving message — the sentinel included —
/// is handed to dispatch exactly once and unchanged: the loop neither drops
/// nor duplicates nor rewrites a received message.
pub proof fn lemma_running_delivers(m: Msg, prio: u32)
    ensures
        spec_dispatch_step(true, ReceiveEvent::Message(m, prio)) == DispatchAction::Deliver(m),
{
}

/// The messages a dispatch loop hands to its subscribers, given the
/// receive outcomes in the order the queue produced them: one delivery per
/// `Deliver` decision, none past the first `Exit`.
pub open spec fn spec_delivered(running: bool, events: Seq<ReceiveEvent>) -> Seq<Msg>
    decreases events.len(),
{
    if events.len() == 0 {
        Seq::<Msg>::empty()
    } else {
        match spec_dispatch_step(running, events[0]) {
            DispatchAction::Exit => Seq::<Msg>::empty(),
            DispatchAction::Retry => spec_delivered(running, events.drop_first()),
            DispatchAction::Deliver(m) => seq![m] + spec_delivered(running, events.drop_first()),
        }
    }
}

/// In-order, exactly-once fan-in: while the topic runs, whatever sequence
/// of messages the queue hands back — and the queue hands them back in its
/// own priority-then-send order — the dispatch loop delivers exactly that
/// sequence to the subscribers: every message once, none dropped, none
/// reordered, none rewritten.
pub proof fn lemma_in_order_exactly_once(
    events: Seq<ReceiveEvent>,
    msgs: Seq<Msg>,
    prios: Seq<u32>,
)
    requires
        events.len() == msgs.len(),
        prios.len() == msgs.len(),
        forall|i: int|
            0 <= i < events.len() ==> events[i] == ReceiveEvent::Message(msgs[i], prios[i]),
    ensures
        spec_delivered(true, events) == msgs,
    decreases events.len(),
{
    if events.len() == 0 {
        assert(spec_delivered(true, events) =~= msgs);
    } else {
        assert(events[0] == ReceiveEvent::Message(msgs[0], prios[0]));
        lemma_in_order_exactly_once(events.drop_first(), msgs.drop_first(), prios.drop_first());
        assert(spec_delivered(true, events) =~= msgs);
    }
}

} // verus!
