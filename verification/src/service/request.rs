//! Reading a request value: where uploads go, the parts a request value
//! holds, and the decisions of the future that reads one (which body reader
//! a content type gets, and what each poll answers).

use vstd::prelude::*;

use crate::text::to_owned_string;
use crate::types::error::ServiceError;
use crate::service::media::{mime_parts, parse_mime};
use crate::text::str_equal;

verus! {

/// The most bytes a JSON request body may have.
pub const JSON_BODY_LIMIT: usize = 2097152;

/// Where the request reader puts what it stores.
#[derive(Debug)]
pub struct RequestConfig {
    dir: String,
}

impl RequestConfig {
    /// The directory.
    pub closed spec fn spec_dir(&self) -> Seq<char> {
        self.dir@
    }
}

/// The value read from a request: its path parameters, its query and its body.
#[derive(Debug)]
pub struct RequestValue<P, Q, B> {
    path: P,
    query: Q,
    body: B,
}

impl<P, Q, B> RequestValue<P, Q, B> {
    /// The path parameters.
    pub closed spec fn spec_path(&self) -> P {
        self.path
    }

    /// The query.
    pub closed spec fn spec_query(&self) -> Q {
        self.query
    }

    /// The body.
    pub closed spec fn spec_body(&self) -> B {
        self.body
    }

    /// Sets the directory of the request reader, once: a slot that is set
    /// already keeps what it holds.
    pub fn set_config(slot: &mut Option<RequestConfig>, dir: &str)
        ensures
            match *old(slot) {
                None => *final(slot) matches Some(c) && c.spec_dir() == dir@,
                Some(_) => *final(slot) == *old(slot),
            },
    {
        if slot.is_none() {
            *slot = Some(RequestConfig { dir: to_owned_string(dir) });
        }
    }

    /// The value made of the three parts read.
    pub fn from_parts(path: P, query: Q, body: B) -> (r: Self)
        ensures
            r.spec_path() == path,
            r.spec_query() == query,
            r.spec_body() == body,
    {
        RequestValue { path, query, body }
    }

    /// The three parts of the value.
    pub fn into_parts(self) -> (r: (P, Q, B))
        ensures
            r == (self.spec_path(), self.spec_query(), self.spec_body()),
    {
        (self.path, self.query, self.body)
    }
}

/// A part of a request kept under an identifier.
#[derive(Debug)]
pub struct Subval {
    id: String,
}

impl Subval {
    /// The identifier.
    pub closed spec fn spec_id(&self) -> Seq<char> {
        self.id@
    }

    /// A part kept under `id`.
    pub fn new(id: String) -> (r: Self)
        ensures
            r.spec_id() == id@,
    {
        Subval { id }
    }
}

/// Where reading one part of a request value stands.
#[derive(Debug, Clone, Copy, PartialEq, Eq, Structural)]
pub enum Stage {
    /// Not started.
    Marker,
    /// Taken out while it is polled.
    MarkerPending,
    /// Handed over in a finished value.
    MarkerProcessed,
    /// Read, waiting for the other parts.
    MarkerDone,
    /// The query is being extracted.
    Query,
    /// A JSON body is being read.
    Json,
    /// A multipart body is being read.
    Multipart,
    /// A form-urlencoded body would be read; no reader exists for it.
    Urlencoded,
}

/// The body reader for a request with the Content-Type header text
/// `content_type` (empty where there is none): JSON for
/// `application/json`, form-urlencoded for
/// `application/x-www-form-urlencoded`, multipart for
/// `multipart/form-data`, and none for anything else or a text that does not
/// parse.
pub open spec fn body_stage_of(content_type: Seq<char>) -> Stage {
    match mime_parts(content_type) {
        Some(p) => if p.0 == "application"@ {
            if p.1 == "json"@ {
                Stage::Json
            } else if p.1 == "x-www-form-urlencoded"@ {
                Stage::Urlencoded
            } else {
                Stage::Marker
            }
        } else if p.0 == "multipart"@ {
            if p.1 == "form-data"@ {
                Stage::Multipart
            } else {
                Stage::Marker
            }
        } else {
            Stage::Marker
        },
        None => Stage::Marker,
    }
}

/// What polling a body reader gave.
#[derive(Debug, Clone, Copy, PartialEq, Eq, Structural)]
pub enum BodyEvent {
    /// Nothing yet (or nothing was polled).
    NotReady,
    /// The reader finished; `true` where it succeeded.
    Ready(bool),
}

/// What the future that reads a request value answers to a poll.
#[derive(Debug, Clone, Copy, PartialEq, Eq, Structural)]
pub enum PollAnswer {
    /// Not done yet.
    Pending,
    /// Done: the value is made of the three parts read.
    Ready,
    /// Done with an error.
    Fail(ServiceError),
}

/// Where the future that reads a request value stands, part by part.
#[derive(Debug, Clone, Copy, PartialEq, Eq, Structural)]
pub struct RequestState {
    pub path: Stage,
    pub query: Stage,
    pub body: Stage,
}

/// Whether `s` is a state the reading future can be in: the path is not
/// started, read or handed over; the query is not started, extracting, read
/// or handed over; the path and the query are handed over together, and
/// then the body is handed over or taken out; a body is never left read.
pub open spec fn request_state_wf(s: RequestState) -> bool {
    &&& (s.path is Marker || s.path is MarkerDone || s.path is MarkerProcessed)
    &&& (s.query is Marker || s.query is Query || s.query is MarkerDone || s.query is MarkerProcessed)
    &&& ((s.path is MarkerProcessed) == (s.query is MarkerProcessed))
    &&& (s.path is MarkerProcessed ==> (s.body is MarkerProcessed || s.body is MarkerPending))
    &&& !(s.body is MarkerDone)
}

impl RequestState {
    /// The state of a new reading future for a request with the
    /// Content-Type header text `content_type` (empty where there is none).
    pub fn new(content_type: &str) -> (r: RequestState)
        ensures
            r.path == Stage::Marker,
            r.query == Stage::Marker,
            r.body == body_stage_of(content_type@),
            request_state_wf(r),
    {
        let body = match parse_mime(content_type) {
            Some((t, s)) => {
                proof {
                    reveal_strlit("application");
                    reveal_strlit("json");
                    reveal_strlit("x-www-form-urlencoded");
                    reveal_strlit("multipart");
                    reveal_strlit("form-data");
                }
                if str_equal(t.as_str(), "application") {
                    if str_equal(s.as_str(), "json") {
                        Stage::Json
                    } else if str_equal(s.as_str(), "x-www-form-urlencoded") {
                        Stage::Urlencoded
                    } else {
                        Stage::Marker
                    }
                } else if str_equal(t.as_str(), "multipart") {
                    if str_equal(s.as_str(), "form-data") {
                        Stage::Multipart
                    } else {
                        Stage::Marker
                    }
                } else {
                    Stage::Marker
                }
            },
            None => Stage::Marker,
        };
        RequestState { path: Stage::Marker, query: Stage::Marker, body: body }
    }

    /// The path parameters were read.
    pub fn path_read(&mut self)
        requires
            old(self).path is Marker,
            request_state_wf(*old(self)),
        ensures
            *final(self) == (RequestState { path: Stage::MarkerDone, ..*old(self) }),
            request_state_wf(*final(self)),
    {
        self.path = Stage::MarkerDone;
    }

    /// The extraction of the query was started.
    pub fn query_started(&mut self)
        requires
            old(self).query is Marker,
            request_state_wf(*old(self)),
        ensures
            *final(self) == (RequestState { query: Stage::Query, ..*old(self) }),
            request_state_wf(*final(self)),
    {
        self.query = Stage::Query;
    }

    /// The query extraction was polled; `ready` where it finished (with the
    /// query). Gives whether reading goes on; where it does not, the poll
    /// answers that it is pending.
    pub fn query_polled(&mut self, ready: bool) -> (r: bool)
        requires
            old(self).query is Query,
            request_state_wf(*old(self)),
        ensures
            r == ready,
            *final(self) == (if ready { RequestState { query: Stage::MarkerDone, ..*old(self) } } else { *old(self) }),
            request_state_wf(*final(self)),
    {
        if ready {
            self.query = Stage::MarkerDone;
        }
        ready
    }

    /// The body reader was polled (where there is one) with the outcome
    /// `event`, after the path and the query: a reader that is not done keeps
    /// the future pending; a JSON body that was read completes the value and
    /// hands over all three parts; a multipart reader that failed, or a body
    /// with no reader, fails with a bad request and leaves the body taken out.
    pub fn body_polled(&mut self, event: BodyEvent) -> (r: PollAnswer)
        requires
            request_state_wf(*old(self)),
            old(self).path is MarkerDone || old(self).path is MarkerProcessed,
            old(self).query is MarkerDone || old(self).query is MarkerProcessed,
            !(old(self).body is Json && event == BodyEvent::Ready(false)),
            !(old(self).body is Multipart && event == BodyEvent::Ready(true)),
        ensures
            request_state_wf(*final(self)),
            match old(self).body {
                Stage::MarkerPending => r == PollAnswer::Pending && *final(self) == *old(self),
                Stage::Json => if event == BodyEvent::Ready(true) {
                    &&& r == PollAnswer::Ready
                    &&& *final(self) == (RequestState {
                        path: Stage::MarkerProcessed,
                        query: Stage::MarkerProcessed,
                        body: Stage::MarkerProcessed,
                    })
                } else {
                    r == PollAnswer::Pending && *final(self) == *old(self)
                },
                Stage::Multipart => if event == BodyEvent::NotReady {
                    r == PollAnswer::Pending && *final(self) == *old(self)
                } else {
                    &&& r == PollAnswer::Fail(ServiceError::HTTPRequestBadRequest)
                    &&& *final(self) == (RequestState { body: Stage::MarkerPending, ..*old(self) })
                },
                _ => {
                    &&& r == PollAnswer::Fail(ServiceError::HTTPRequestBadRequest)
                    &&& *final(self) == (RequestState { body: Stage::MarkerPending, ..*old(self) })
                },
            },
    {
        let body = self.body;
        self.body = Stage::MarkerPending;
        match body {
            Stage::MarkerPending => PollAnswer::Pending,
            Stage::Json => {
                match event {
                    BodyEvent::Ready(_) => {
                        self.path = Stage::MarkerProcessed;
                        self.query = Stage::MarkerProcessed;
                        self.body = Stage::MarkerProcessed;
                        PollAnswer::Ready
                    },
                    BodyEvent::NotReady => {
                        self.body = body;
                        PollAnswer::Pending
                    },
                }
            },
            Stage::Multipart => {
                match event {
                    BodyEvent::Ready(_) => PollAnswer::Fail(ServiceError::HTTPRequestBadRequest),
                    BodyEvent::NotReady => {
                        self.body = body;
                        PollAnswer::Pending
                    },
                }
            },
            _ => PollAnswer::Fail(ServiceError::HTTPRequestBadRequest),
        }
    }
}

} // verus!
