//! Preparing a side thread: encode the boundary, fork the parent, then inject the boundary, and only
//! then hand the thread out, so that it never runs before its inherited history is marked as
//! reference only.
//!
//! A preparation is begun by [`prepare_side_thread`], which hands out the boundary to encode.
//! [`SideEncode`] waits for that and asks for the fork. [`SideFork`] waits for the fork and asks for
//! the injection. [`SideInject`] waits for that, and no other way leads to a side thread that is
//! ready.

use std::path::PathBuf;
use color_eyre::Report;
use vstd::prelude::*;
use crate::app::{App, Config, ThreadSessionState};
use crate::ids::{id_to_string, random_id, ThreadId};
use crate::prepared::SideThreadPrepareError;
use crate::protocol::ResponseItem;
use crate::report::report_of;
use crate::text::text_plus;

verus! {

/// A path of the operating system. It is carried as it is.
#[verifier::external_type_specification]
#[verifier::external_body]
pub struct ExPathBuf(std::path::PathBuf);

/// Where the app server runs, which decides how the parameters of a thread are written.
#[derive(Clone, Copy, Debug, PartialEq, Eq, Structural)]
pub enum ThreadParamsMode {
    Embedded,
    Remote,
}

/// A request to fork a thread.
#[derive(Debug)]
pub struct ForkRequest {
    pub config: Config,
    pub parent_thread_id: ThreadId,
    pub thread_params_mode: ThreadParamsMode,
    /// The working directory on the machine of the server, where it is not the one here.
    pub remote_cwd_override: Option<PathBuf>,
}

/// A request to add items to the history of a thread.
#[derive(Debug)]
pub struct InjectRequest {
    pub request_id: String,
    pub thread_id: String,
    pub items: Vec<String>,
}

impl InjectRequest {
    /// This request injects that item, and it alone, into that thread, under a name made of that
    /// number.
    pub open spec fn injects(self, nonce: u128, thread_id: ThreadId, item: Seq<char>) -> bool {
        &&& self.request_id@ == "side-thread-inject-items-"@ + crate::ids::id_text(nonce)
        &&& self.thread_id@ == crate::ids::id_text(thread_id)
        &&& crate::text::texts(self.items@) == seq![item]
    }
}

/// A preparation that waits for its boundary to be encoded.
#[derive(Debug)]
pub struct SideEncode {
    request: ForkRequest,
}

/// A preparation that waits for its fork.
#[derive(Debug)]
pub struct SideFork {
    boundary_item: String,
}

/// A preparation that has its fork and waits for the boundary to be injected.
#[derive(Debug)]
pub struct SideInject {
    session: ThreadSessionState,
}

/// `error` says that text and nothing else.
pub open spec fn says(error: Report, text: Seq<char>) -> bool {
    crate::report::report_chain(error) == seq![Some(text)]
}

/// A preparation that failed with that fork made, or without one, for a reason that says that text
/// and nothing else.
pub open spec fn failed_saying(
    error: SideThreadPrepareError,
    session: Option<ThreadSessionState>,
    text: Seq<char>,
) -> bool {
    error.session == session && says(error.error, text)
}

/// Begins to prepare a side thread of `parent_thread_id`. The answer hands out the item that is to
/// be encoded for the server: the boundary, and nothing else.
pub fn prepare_side_thread(
    config: Config,
    parent_thread_id: ThreadId,
    thread_params_mode: ThreadParamsMode,
    remote_cwd_override: Option<PathBuf>,
) -> (r: (SideEncode, ResponseItem))
    ensures
        r.0.request() == (ForkRequest {
            config,
            parent_thread_id,
            thread_params_mode,
            remote_cwd_override,
        }),
        crate::start::is_boundary_item(r.1),
{
    let request: ForkRequest = ForkRequest {
        config,
        parent_thread_id,
        thread_params_mode,
        remote_cwd_override,
    };
    (SideEncode { request }, App::side_boundary_prompt_item())
}

impl SideEncode {
    /// The fork to ask for.
    pub closed spec fn request(self) -> ForkRequest {
        self.request
    }

    /// Takes the boundary as it was encoded, and asks for the fork. A boundary that could not be
    /// encoded ends the preparation.
    pub fn encoded(self, outcome: Result<String, String>) -> (r: Result<
        (SideFork, ForkRequest),
        SideThreadPrepareError,
    >)
        ensures
            match outcome {
                Ok(item) => {
                    &&& r matches Ok((next, request))
                    &&& next.boundary() == item@
                    &&& request == self.request()
                },
                Err(why) => {
                    &&& r matches Err(error)
                    &&& failed_saying(
                        error,
                        None,
                        "failed to encode thread/inject_items payload: "@ + why@,
                    )
                },
            },
    {
        match outcome {
            Ok(item) => Ok((SideFork { boundary_item: item }, self.request)),
            Err(why) => Err(
                SideThreadPrepareError {
                    session: None,
                    error: report_of(
                        text_plus("failed to encode thread/inject_items payload: ", why.as_str()),
                    ),
                },
            ),
        }
    }
}

impl SideFork {
    /// The boundary prompt, as it goes to the server.
    pub closed spec fn boundary(self) -> Seq<char> {
        self.boundary_item@
    }

    /// Takes the outcome of the fork, and asks for the boundary to be injected into it. A fork that
    /// failed ends the preparation.
    pub fn forked(self, outcome: Result<ThreadSessionState, Report>) -> (r: Result<
        (SideInject, InjectRequest),
        SideThreadPrepareError,
    >)
        ensures
            match outcome {
                Ok(session) => {
                    &&& r matches Ok((next, request))
                    &&& next.fork() == session
                    &&& exists|nonce: u128|
                        crate::ids::is_random_id(nonce) && #[trigger] request.injects(
                            nonce,
                            session.thread_id,
                            self.boundary(),
                        )
                },
                Err(why) => {
                    &&& r matches Err(error)
                    &&& error == (SideThreadPrepareError { session: None, error: why })
                },
            },
    {
        self.forked_under(random_id(), outcome)
    }

    /// Takes the outcome of the fork, and asks for the boundary to be injected into it under a name
    /// made of `nonce`. A fork that failed ends the preparation.
    pub fn forked_under(self, nonce: u128, outcome: Result<ThreadSessionState, Report>) -> (r:
        Result<(SideInject, InjectRequest), SideThreadPrepareError>)
        ensures
            match outcome {
                Ok(session) => {
                    &&& r matches Ok((next, request))
                    &&& next.fork() == session
                    &&& request.injects(nonce, session.thread_id, self.boundary())
                },
                Err(why) => {
                    &&& r matches Err(error)
                    &&& error == (SideThreadPrepareError { session: None, error: why })
                },
            },
    {
        match outcome {
            Ok(session) => {
                let nonce_text: String = id_to_string(nonce);
                let mut items: Vec<String> = Vec::new();
                items.push(self.boundary_item);
                assert(crate::text::texts(items@) =~= seq![self.boundary()]);
                let request: InjectRequest = InjectRequest {
                    request_id: text_plus("side-thread-inject-items-", nonce_text.as_str()),
                    thread_id: id_to_string(session.thread_id),
                    items,
                };
                Ok((SideInject { session }, request))
            },
            Err(why) => Err(SideThreadPrepareError { session: None, error: why }),
        }
    }
}

impl SideInject {
    /// The fork.
    pub closed spec fn fork(self) -> ThreadSessionState {
        self.session
    }

    /// Takes the outcome of the injection: the side thread is ready, or the fork is handed back
    /// with the reason why it is not.
    pub fn injected(self, outcome: Result<(), String>) -> (r: Result<
        ThreadSessionState,
        SideThreadPrepareError,
    >)
        ensures
            match outcome {
                Ok(_) => r == Ok::<ThreadSessionState, SideThreadPrepareError>(self.fork()),
                Err(why) => {
                    &&& r matches Err(error)
                    &&& failed_saying(
                        error,
                        Some(self.fork()),
                        "thread/inject_items failed during TUI side conversation setup: "@ + why@,
                    )
                },
            },
    {
        match outcome {
            Ok(_) => Ok(self.session),
            Err(why) => Err(
                SideThreadPrepareError {
                    session: Some(self.session),
                    error: report_of(
                        text_plus(
                            "thread/inject_items failed during TUI side conversation setup: ",
                            why.as_str(),
                        ),
                    ),
                },
            ),
        }
    }
}

} // verus!
