//! The admission pipeline. Every request passes its stages in a fixed
//! order: the CORS policy first, then the trap for errors of the stages
//! inside it, then the request buffer, and innermost the rate limiter.

use crate::buffer::{BufferState, RequestBuffer};
use crate::cors::{allow_origin, CorsPolicy, Method};
use crate::errors::response::{generic_message, Body, BodyView, BuildMode, Reply, ReplyView};
use crate::init::StartOptions;
use crate::limit::{LimiterState, RateLimiter, NANOS_PER_SECOND};
use crate::status::StatusCode;
use vstd::prelude::*;
use vstd::string::*;

verus! {

/// Why the pipeline has no capacity for a request.
#[derive(Debug, Clone, Copy, PartialEq, Eq, Structural)]
pub enum CapacityError {
    /// The request buffer holds as many requests as its depth allows.
    BufferFull,
    /// The current window of the rate limiter has no room left.
    QuotaExceeded,
}

impl CapacityError {
    /// The description of the error.
    pub open spec fn description_spec(self) -> Seq<char> {
        match self {
            CapacityError::BufferFull => "request buffer is full"@,
            CapacityError::QuotaExceeded => "rate limit exceeded"@,
        }
    }

    /// The description of the error.
    pub fn description(self) -> (text: &'static str)
        ensures
            text@ == self.description_spec(),
    {
        match self {
            CapacityError::BufferFull => "request buffer is full",
            CapacityError::QuotaExceeded => "rate limit exceeded",
        }
    }
}

/// What the trap tells the caller about an error that escaped the inner
/// stages: the fixed generic message in production, the description of the
/// error in development.
pub open spec fn trap_message(description: Seq<char>, mode: BuildMode) -> Seq<char> {
    if mode is Production {
        generic_message()
    } else {
        "Uncaught error: "@ + description
    }
}

/// The reply of the trap: internal server error with the trap's message as
/// plain text.
pub open spec fn trap_reply(description: Seq<char>, mode: BuildMode) -> ReplyView {
    ReplyView { status: 500, body: BodyView::Text(trap_message(description, mode)) }
}

/// The trap for errors that escape the inner stages: turns the description
/// of such an error into a reply.
pub fn handle_error(description: &str, mode: BuildMode) -> (reply: Reply)
    ensures
        reply@ == trap_reply(description@, mode),
{
    let message = match mode {
        BuildMode::Production => String::from_str("Internal server error"),
        BuildMode::Development => {
            let mut text = String::from_str("Uncaught error: ");
            text.append(description);
            text
        },
    };
    Reply { status: StatusCode::internal_server_error(), body: Body::Text(message) }
}

/// What became of a request on arrival.
#[derive(Debug, PartialEq, Eq)]
pub enum Admission {
    /// A preflight, answered by the CORS stage alone.
    Preflight,
    /// The request waits in the buffer for its turn.
    Queued,
    /// The buffer is full; this is the reply of the trap.
    Rejected(Reply),
}

/// The decision on an arriving request: what the allow-origin header of
/// its reply says, and what became of the request.
#[derive(Debug, PartialEq, Eq)]
pub struct Arrival {
    pub allow_origin: Option<String>,
    pub admission: Admission,
}

/// What became of the request at the head of the buffer.
#[derive(Debug, PartialEq, Eq)]
pub enum Dispatch {
    /// No request is pending.
    Idle,
    /// The request with this identifier goes to its handler.
    Admitted(u64),
    /// The request with this identifier is over the quota; with it the
    /// reply of the trap.
    Rejected(u64, Reply),
}

/// The pipeline of the service.
pub struct Pipeline {
    pub cors: CorsPolicy,
    pub buffer: RequestBuffer,
    pub limiter: RateLimiter,
    pub mode: BuildMode,
}

/// What a pipeline holds, as mathematical values.
pub ghost struct PipelineView {
    pub origins: Seq<Seq<char>>,
    pub buffer: BufferState,
    pub limiter: LimiterState,
    pub mode: BuildMode,
}

impl View for Pipeline {
    type V = PipelineView;

    open spec fn view(&self) -> PipelineView {
        PipelineView {
            origins: self.cors.origins(),
            buffer: self.buffer@,
            limiter: self.limiter@,
            mode: self.mode,
        }
    }
}

impl Pipeline {
    /// The pipeline that the start-up options configure, with nothing
    /// pending and no request seen.
    pub fn new(options: &StartOptions, mode: BuildMode) -> (pipeline: Pipeline)
        ensures
            pipeline@.origins == options@.cors_origins,
            pipeline@.buffer.depth == options.request_buffer_size,
            pipeline@.buffer.queue == Seq::<u64>::empty(),
            pipeline@.limiter == LimiterState::fresh(
                options.global_limit_requests as nat,
                options.global_limit_per_seconds as nat * NANOS_PER_SECOND as nat,
            ),
            pipeline@.mode == mode,
    {
        Pipeline {
            cors: CorsPolicy::new(options),
            buffer: RequestBuffer::new(options.request_buffer_size),
            limiter: RateLimiter::new(
                options.global_limit_requests,
                options.global_limit_per_seconds,
            ),
            mode,
        }
    }

    /// Takes in the request `id`.
    ///
    /// The CORS decision comes first and is part of every outcome. A
    /// preflight goes no further. Any other request is queued if the buffer
    /// has room; if it has none, the trap answers for it. The rate limiter
    /// is not asked here: only requests that leave the buffer count against
    /// the quota.
    pub fn arrive(&mut self, id: u64, method: Method, origin: Option<&str>) -> (arrival: Arrival)
        ensures
            final(self)@.origins == old(self)@.origins,
            final(self)@.mode == old(self)@.mode,
            final(self)@.limiter == old(self)@.limiter,
            match allow_origin(
                old(self)@.origins,
                match origin {
                    Some(o) => Some(o@),
                    None => None,
                },
            ) {
                Some(o) => arrival.allow_origin matches Some(h) && h@ == o,
                None => arrival.allow_origin is None,
            },
            method is Options ==> (arrival.admission is Preflight && final(self)@.buffer == old(
                self,
            )@.buffer),
            !(method is Options) && old(self)@.buffer.full() ==> (arrival.admission matches Admission::Rejected(
                reply,
            ) && reply@ == trap_reply(
                CapacityError::BufferFull.description_spec(),
                old(self)@.mode,
            ) && final(self)@.buffer == old(self)@.buffer),
            !(method is Options) && !old(self)@.buffer.full() ==> (arrival.admission is Queued
                && final(self)@.buffer == old(self)@.buffer.offered(id)),
    {
        let header = self.cors.allow_origin_header(origin);
        let admission = match method {
            Method::Options => Admission::Preflight,
            _ => {
                if self.buffer.enqueue(id) {
                    Admission::Queued
                } else {
                    Admission::Rejected(
                        handle_error(CapacityError::BufferFull.description(), self.mode),
                    )
                }
            },
        };
        Arrival { allow_origin: header, admission }
    }

    /// Sends the request that has waited longest on its way, at the time
    /// `now` in nanoseconds.
    ///
    /// The rate limiter decides on it: admitted, it goes to its handler;
    /// over the quota, the trap answers for it. Either way it leaves the
    /// buffer.
    pub fn dispatch(&mut self, now: u64) -> (dispatch: Dispatch)
        ensures
            final(self)@.origins == old(self)@.origins,
            final(self)@.mode == old(self)@.mode,
            final(self)@.buffer.depth == old(self)@.buffer.depth,
            old(self)@.buffer.queue.len() == 0 ==> (dispatch is Idle && final(self)@ == old(self)@),
            old(self)@.buffer.queue.len() > 0 ==> (final(self)@.buffer.queue == old(
                self,
            )@.buffer.queue.drop_first() && final(self)@.limiter == old(self)@.limiter.after(
                now as nat,
            )),
            old(self)@.buffer.queue.len() > 0 && old(self)@.limiter.admits(now as nat) ==> dispatch
                == Dispatch::Admitted(old(self)@.buffer.queue[0]),
            old(self)@.buffer.queue.len() > 0 && !old(self)@.limiter.admits(now as nat) ==> (dispatch matches Dispatch::Rejected(
                id,
                reply,
            ) && id == old(self)@.buffer.queue[0] && reply@ == trap_reply(
                CapacityError::QuotaExceeded.description_spec(),
                old(self)@.mode,
            )),
    {
        match self.buffer.dequeue() {
            None => Dispatch::Idle,
            Some(id) => {
                if self.limiter.allow(now) {
                    Dispatch::Admitted(id)
                } else {
                    Dispatch::Rejected(
                        id,
                        handle_error(CapacityError::QuotaExceeded.description(), self.mode),
                    )
                }
            },
        }
    }
}

} // verus!
