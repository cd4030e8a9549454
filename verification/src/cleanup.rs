//! The background work that closes a side thread: interrupt it, once more if the turn has changed
//! meanwhile, then unsubscribe from it.

use vstd::prelude::*;
use crate::ids::{id_to_string, ThreadId};
use crate::text::text_plus;

verus! {

/// The numbers of the requests that closing a thread may take.
#[derive(Clone, Copy, Debug, PartialEq, Eq, Structural)]
pub struct CleanupRequestIds {
    pub interrupt: i64,
    pub retry: i64,
    pub unsubscribe: i64,
}

/// A request to interrupt a turn.
#[derive(Debug)]
pub struct TurnInterrupt {
    pub request_id: i64,
    pub thread_id: String,
    pub turn_id: String,
}

impl TurnInterrupt {
    /// This request, under that number, interrupts that turn of that thread.
    pub open spec fn interrupts(
        self,
        request_id: i64,
        thread_id: ThreadId,
        turn_id: Seq<char>,
    ) -> bool {
        &&& self.request_id == request_id
        &&& self.thread_id@ == crate::ids::id_text(thread_id)
        &&& self.turn_id@ == turn_id
    }
}

/// A request to unsubscribe from a thread.
#[derive(Debug)]
pub struct ThreadUnsubscribe {
    pub request_id: i64,
    pub thread_id: String,
}

impl ThreadUnsubscribe {
    /// This request, under that number, unsubscribes from that thread.
    pub open spec fn unsubscribes(self, request_id: i64, thread_id: ThreadId) -> bool {
        &&& self.request_id == request_id
        &&& self.thread_id@ == crate::ids::id_text(thread_id)
    }
}

/// An interrupt that the server refused.
#[derive(Debug)]
pub struct InterruptFailure {
    pub message: String,
    /// The turn that was running instead of the one named, where that was the reason.
    pub actual_turn_id: Option<String>,
}

/// The error that closing a thread comes to: only an unsubscribe that failed is one, and it is told
/// along with the failure of the interrupt, if there was one.
pub open spec fn cleanup_error(
    interrupt_error: Option<Seq<char>>,
    unsubscribe_error: Option<Seq<char>>,
) -> Option<Seq<char>> {
    match (interrupt_error, unsubscribe_error) {
        (_, None) => None,
        (None, Some(unsubscribe)) => Some("thread/unsubscribe failed: "@ + unsubscribe),
        (Some(interrupt), Some(unsubscribe)) => Some(
            "turn/interrupt failed: "@ + interrupt + "; thread/unsubscribe failed: "@
                + unsubscribe,
        ),
    }
}

/// A thread that is being interrupted.
#[derive(Debug)]
pub struct SideCleanup {
    pub thread_id: ThreadId,
    pub request_ids: CleanupRequestIds,
    /// The interrupt under way is the second.
    pub retried: bool,
}

/// A thread that is being unsubscribed from.
#[derive(Debug)]
pub struct SideUnsubscribe {
    /// Why the interrupt before it failed, if it did.
    pub interrupt_error: Option<String>,
}

/// The next request, and who waits for its answer.
#[derive(Debug)]
pub enum CleanupStep {
    Interrupt(SideCleanup, TurnInterrupt),
    Unsubscribe(SideUnsubscribe, ThreadUnsubscribe),
}

/// The request that interrupts a turn of a thread.
fn new_interrupt(request_id: i64, thread_id: ThreadId, turn_id: String) -> (r: TurnInterrupt)
    ensures
        r.interrupts(request_id, thread_id, turn_id@),
{
    TurnInterrupt { request_id, thread_id: id_to_string(thread_id), turn_id }
}

impl SideCleanup {
    /// Begins to close a thread: its running turn is interrupted, or the turn with the empty name
    /// where none is known.
    pub fn begin(
        thread_id: ThreadId,
        active_turn_id: Option<String>,
        request_ids: CleanupRequestIds,
    ) -> (r: (SideCleanup, TurnInterrupt))
        ensures
            r.0 == (SideCleanup { thread_id, request_ids, retried: false }),
            r.1.interrupts(
                request_ids.interrupt,
                thread_id,
                match active_turn_id {
                    Some(turn_id) => turn_id@,
                    None => Seq::empty(),
                },
            ),
    {
        let turn_id: String = match active_turn_id {
            Some(turn_id) => turn_id,
            None => String::new(),
        };
        (
            SideCleanup { thread_id, request_ids, retried: false },
            new_interrupt(request_ids.interrupt, thread_id, turn_id),
        )
    }

    /// This interrupt is to be sent again, for the turn that is running.
    pub open spec fn retries(self, answer: Result<(), InterruptFailure>) -> bool {
        &&& !self.retried
        &&& answer matches Err(failure)
        &&& failure.actual_turn_id is Some
    }

    /// Takes the answer to an interrupt. The first is sent again where another turn was running;
    /// after that the thread is unsubscribed from, whether or not the interrupt went well.
    pub fn answered(self, answer: Result<(), InterruptFailure>) -> (r: CleanupStep)
        ensures
            self.retries(answer) ==> {
                &&& r matches CleanupStep::Interrupt(next, request)
                &&& next == (SideCleanup { retried: true, ..self })
                &&& request.interrupts(
                    self.request_ids.retry,
                    self.thread_id,
                    answer->Err_0.actual_turn_id->0@,
                )
            },
            !self.retries(answer) ==> {
                &&& r matches CleanupStep::Unsubscribe(next, request)
                &&& crate::text::opt_text(next.interrupt_error) == match answer {
                    Ok(_) => None,
                    Err(failure) => Some(failure.message@),
                }
                &&& request.unsubscribes(self.request_ids.unsubscribe, self.thread_id)
            },
    {
        let interrupt_error: Option<String> = match answer {
            Ok(_) => None,
            Err(failure) => {
                if !self.retried {
                    if let Some(turn_id) = failure.actual_turn_id {
                        let request: TurnInterrupt = new_interrupt(
                            self.request_ids.retry,
                            self.thread_id,
                            turn_id,
                        );
                        return CleanupStep::Interrupt(
                            SideCleanup {
                                thread_id: self.thread_id,
                                request_ids: self.request_ids,
                                retried: true,
                            },
                            request,
                        );
                    }
                }
                Some(failure.message)
            },
        };
        CleanupStep::Unsubscribe(
            SideUnsubscribe { interrupt_error },
            ThreadUnsubscribe {
                request_id: self.request_ids.unsubscribe,
                thread_id: id_to_string(self.thread_id),
            },
        )
    }
}

impl SideUnsubscribe {
    /// Takes the answer to unsubscribing, and tells what closing the thread came to.
    pub fn answered(self, answer: Result<(), String>) -> (r: Result<(), String>)
        ensures
            match r {
                Ok(_) => None,
                Err(error) => Some(error@),
            } == cleanup_error(
                crate::text::opt_text(self.interrupt_error),
                match answer {
                    Ok(_) => None,
                    Err(error) => Some(error@),
                },
            ),
    {
        match (self.interrupt_error, answer) {
            (_, Ok(_)) => Ok(()),
            (None, Err(unsubscribe)) => Err(
                text_plus("thread/unsubscribe failed: ", unsubscribe.as_str()),
            ),
            (Some(interrupt), Err(unsubscribe)) => {
                let mut message: String = "turn/interrupt failed: ".to_owned();
                message.append(interrupt.as_str());
                message.append("; thread/unsubscribe failed: ");
                message.append(unsubscribe.as_str());
                Err(message)
            },
        }
    }
}

} // verus!
