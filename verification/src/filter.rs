//! The per-exchange decision core. Each host callback maps to a function
//! from the exchange state and the observed event to the next state and the
//! actions the host should take: pause or continue, which headers to set,
//! whether to replace the body, whether to issue the session lookup, and
//! whether to resume the paused exchange.

use vstd::prelude::*;
use crate::config::FilterConfig;
use crate::config::FilterConfigV;
use crate::headers::find_header_value;
use crate::headers::hdrs_v;
use crate::headers::header_value;
use crate::headers::response_rewrite;
use crate::headers::rewrite_response_session;
use crate::inspector::invocation_of;
use crate::inspector::parse_invocation;
use crate::rewrite::plan_rewrite;
use crate::rewrite::rewritten_body_of;
use crate::routing::BackendId;
use crate::routing::decide;
use crate::routing::first_match;
use crate::session::LookupResult;
use crate::session::completion_session_id;
use crate::session::fallback_session_id;
use crate::session::make_fallback_session_id;
use crate::session::parse_lookup_response;
use crate::text::bytes_eq;
use crate::text::copy_bytes;
use crate::text::decimal_of;
use crate::text::header_backend;
use crate::text::header_backend_bytes;
use crate::text::header_session_id;
use crate::text::header_session_id_bytes;
use crate::text::method_tools_call;
use crate::text::method_tools_call_bytes;

verus! {

/// What the request-headers callback tells the host.
#[derive(Clone, Copy, PartialEq, Eq, Structural, Debug)]
pub enum HeadersStatus {
    Continue,
    StopIteration,
}

/// What the request-body callback tells the host.
#[derive(Clone, Copy, PartialEq, Eq, Structural, Debug)]
pub enum BodyStatus {
    Continue,
    StopIterationAndBuffer,
}

/// The asynchronous session lookup the host should issue, keyed by the
/// gateway session id, with a fixed correlation id and a bounded timeout.
pub struct LookupRequest {
    pub gateway_session_id: Vec<u8>,
    pub callout_id: u32,
    pub timeout_ms: u64,
}

/// The actions the request-body callback asks of the host. When `new_body`
/// is present the host replaces the buffered body with it and sets the
/// framing-length header to `new_content_length`, atomically; if either half
/// fails it keeps the original body. When `lookup` is present the host issues
/// it; `status` is the return value when issuance succeeds or nothing was
/// issued, and a synchronous issuance failure is reported back through
/// [`Filter::on_lookup_issue_failed`] instead.
pub struct RequestBodyPlan {
    pub status: BodyStatus,
    pub new_body: Option<Vec<u8>>,
    pub new_content_length: Option<Vec<u8>>,
    pub lookup: Option<LookupRequest>,
}

/// A terminal action of the session mapper: the request headers to install
/// (in order), whether to invalidate the cached routing target, and whether
/// to resume the paused exchange.
pub struct RouteCommit {
    pub set_request_headers: Vec<(Vec<u8>, Vec<u8>)>,
    pub clear_route_cache: bool,
    pub resume: bool,
}

/// Mathematical shape of a [`RouteCommit`].
pub struct RouteCommitV {
    pub set_request_headers: Seq<(Seq<u8>, Seq<u8>)>,
    pub clear_route_cache: bool,
    pub resume: bool,
}

impl View for RouteCommit {
    type V = RouteCommitV;

    open spec fn view(&self) -> RouteCommitV {
        RouteCommitV {
            set_request_headers: hdrs_v(self.set_request_headers@),
            clear_route_cache: self.clear_route_cache,
            resume: self.resume,
        }
    }
}

/// Per-exchange state, owned by one handler instance and mutated only by the
/// callback sequence of that exchange. `pending_route_decision` is set while
/// a lookup is in flight and cleared exactly when processing resumes.
pub struct Filter {
    pub pending_route_decision: Option<BackendId>,
    pub stripped_tool_name: Option<Vec<u8>>,
    pub current_request_body: Option<Vec<u8>>,
}

/// Mathematical shape of a [`Filter`].
pub struct FilterV {
    pub pending_route_decision: Option<BackendId>,
    pub stripped_tool_name: Option<Seq<u8>>,
    pub current_request_body: Option<Seq<u8>>,
}

impl View for Filter {
    type V = FilterV;

    open spec fn view(&self) -> FilterV {
        FilterV {
            pending_route_decision: self.pending_route_decision,
            stripped_tool_name: match self.stripped_tool_name {
                Some(v) => Some(v@),
                None => None,
            },
            current_request_body: match self.current_request_body {
                Some(v) => Some(v@),
                None => None,
            },
        }
    }
}

/// The body bytes handed to the completion callback, if any.
pub open spec fn opt_body_v(body: Option<&Vec<u8>>) -> Option<Seq<u8>> {
    match body {
        Some(v) => Some(v@),
        None => None,
    }
}

/// The routing decision a complete body yields: `None` — passthrough — when
/// the body does not decode and parse, when its method is not `"tools/call"`,
/// or when no configured prefix starts the tool name; otherwise the backend
/// and the stripped tool name of the first matching rule.
pub open spec fn route_of(cfg: FilterConfigV, body: Seq<u8>) -> Option<(BackendId, Seq<u8>)> {
    match invocation_of(body) {
        None => None,
        Some(inv) => if inv.0 == method_tools_call() {
            first_match(cfg.rules, inv.1)
        } else {
            None
        },
    }
}

/// What the exchange keeps as its current body after inspection: the
/// rewritten body when a routed rewrite succeeded, the original bytes
/// otherwise.
pub open spec fn stored_body(cfg: FilterConfigV, body: Seq<u8>) -> Seq<u8> {
    match route_of(cfg, body) {
        Some(d) => match rewritten_body_of(body, d.1) {
            Some(nb) => nb,
            None => body,
        },
        None => body,
    }
}

/// The headers a terminal mapper action installs: the session header with
/// the backend session id, then the backend-selector header with the backend
/// literal.
pub open spec fn commit_headers(cfg: FilterConfigV, b: BackendId, sid: Seq<u8>) -> Seq<
    (Seq<u8>, Seq<u8>),
> {
    seq![(header_session_id(), sid), (header_backend(), cfg.literal_of(b))]
}

/// The terminal commit for a completed lookup: install the session id the
/// outcome resolves to and the backend literal, invalidate the cached route,
/// and resume the paused exchange.
pub open spec fn callout_done_commit(
    cfg: FilterConfigV,
    b: BackendId,
    success: bool,
    body: Option<Seq<u8>>,
    gw: Seq<u8>,
) -> RouteCommitV {
    RouteCommitV {
        set_request_headers: commit_headers(cfg, b, completion_session_id(cfg, b, success, body, gw)),
        clear_route_cache: true,
        resume: true,
    }
}

/// Liveness: whatever the lookup outcome — success with the mapping found,
/// success without it, a failed completion, or a missing or malformed
/// completion body — the terminal commit resumes the paused exchange. Paired
/// with the pending decision being cleared by that same commit (the ensures
/// of [`Filter::on_http_callout_done`]), a later completion is a no-op, so
/// the exchange is resumed exactly once.
pub proof fn lemma_lookup_always_resumes(
    cfg: FilterConfigV,
    b: BackendId,
    success: bool,
    body: Option<Seq<u8>>,
    gw: Seq<u8>,
)
    ensures
        callout_done_commit(cfg, b, success, body, gw).resume,
{
}

/// Builds a terminal commit: session header, then backend-selector header.
fn build_commit(cfg: &FilterConfig, b: BackendId, sid: Vec<u8>, resume: bool) -> (r: RouteCommit)
    ensures
        r@.set_request_headers == commit_headers(cfg@, b, sid@),
        r@.clear_route_cache,
        r@.resume == resume,
{
    let lit = match b {
        BackendId::A => copy_bytes(&cfg.literal_a),
        BackendId::B => copy_bytes(&cfg.literal_b),
    };
    let mut hs: Vec<(Vec<u8>, Vec<u8>)> = Vec::new();
    hs.push((header_session_id_bytes(), sid));
    hs.push((header_backend_bytes(), lit));
    proof {
        assert(hdrs_v(hs@) =~= commit_headers(cfg@, b, sid@));
    }
    RouteCommit { set_request_headers: hs, clear_route_cache: true, resume }
}

impl Filter {
    /// A fresh handler: no pending decision, no stripped name, no body.
    pub fn new() -> (r: Self)
        ensures
            r@.pending_route_decision is None,
            r@.stripped_tool_name is None,
            r@.current_request_body is None,
    {
        Filter { pending_route_decision: None, stripped_tool_name: None, current_request_body: None }
    }

    /// Request-headers decision: when a body is still to come, the exchange
    /// pauses so that routing happens only after body analysis; a request
    /// without a body continues to the default destination.
    pub fn on_request_headers(&self, end_of_stream: bool) -> (r: HeadersStatus)
        ensures
            r == (if end_of_stream {
                HeadersStatus::Continue
            } else {
                HeadersStatus::StopIteration
            }),
    {
        if !end_of_stream {
            HeadersStatus::StopIteration
        } else {
            HeadersStatus::Continue
        }
    }

    /// Request-body decision on the complete, reassembled body. A body that
    /// yields no routing decision passes through byte-identical, with no
    /// header mutation and no pause. A routed body is rewritten (when the
    /// rewrite fails, the original body stays and header routing still
    /// proceeds with the stripped name); then, if the gateway session header
    /// is present and non-empty, the lookup is issued and the exchange
    /// pauses, else session mapping is skipped entirely and the request
    /// continues without session headers.
    pub fn on_request_body(
        &mut self,
        cfg: &FilterConfig,
        headers: &Vec<(Vec<u8>, Vec<u8>)>,
        body: &Vec<u8>,
        end_of_stream: bool,
    ) -> (r: RequestBodyPlan)
        ensures
            !end_of_stream ==> (r.status == BodyStatus::StopIterationAndBuffer && r.new_body is None
                && r.new_content_length is None && r.lookup is None && final(self)@ == old(self)@),
            end_of_stream ==> final(self)@.current_request_body == Some(stored_body(cfg@, body@)),
            end_of_stream && route_of(cfg@, body@) is None ==> (r.status == BodyStatus::Continue
                && r.new_body is None && r.new_content_length is None && r.lookup is None
                && final(self)@.pending_route_decision == old(self)@.pending_route_decision
                && final(self)@.stripped_tool_name == old(self)@.stripped_tool_name),
            end_of_stream ==> (match route_of(cfg@, body@) {
                Some(d) => ({
                    let gw = header_value(hdrs_v(headers@), header_session_id());
                    &&& (match (r.new_body, rewritten_body_of(body@, d.1)) {
                        (None, None) => true,
                        (Some(nb), Some(s)) => nb@ == s,
                        _ => false,
                    })
                    &&& (match (r.new_content_length, rewritten_body_of(body@, d.1)) {
                        (None, None) => true,
                        (Some(cl), Some(s)) => cl@ == decimal_of(s.len()),
                        _ => false,
                    })
                    &&& (gw.len() == 0 ==> (r.status == BodyStatus::Continue && r.lookup is None
                        && final(self)@.pending_route_decision == old(
                            self,
                        )@.pending_route_decision && final(self)@.stripped_tool_name == old(
                            self,
                        )@.stripped_tool_name))
                    &&& (gw.len() > 0 ==> (r.status == BodyStatus::StopIterationAndBuffer && (
                    r.lookup matches Some(lr) && lr.gateway_session_id@ == gw && lr.callout_id
                        == 1234 && lr.timeout_ms == 5000) && final(self)@.pending_route_decision
                        == Some(d.0) && final(self)@.stripped_tool_name == Some(d.1)))
                }),
                None => true,
            }),
    {
        if !end_of_stream {
            return RequestBodyPlan {
                status: BodyStatus::StopIterationAndBuffer,
                new_body: None,
                new_content_length: None,
                lookup: None,
            };
        }
        let stored = copy_bytes(body);
        self.current_request_body = Some(stored);
        let parsed = parse_invocation(body);
        let inv = match parsed {
            None => {
                return RequestBodyPlan {
                    status: BodyStatus::Continue,
                    new_body: None,
                    new_content_length: None,
                    lookup: None,
                };
            },
            Some(inv) => inv,
        };
        let tc = method_tools_call_bytes();
        if !bytes_eq(&inv.method, &tc) {
            return RequestBodyPlan {
                status: BodyStatus::Continue,
                new_body: None,
                new_content_length: None,
                lookup: None,
            };
        }
        let decision = decide(&cfg.rules, &inv.tool_name);
        let (backend, stripped) = match decision {
            None => {
                return RequestBodyPlan {
                    status: BodyStatus::Continue,
                    new_body: None,
                    new_content_length: None,
                    lookup: None,
                };
            },
            Some(d) => d,
        };
        let rewrite = plan_rewrite(body, &stripped);
        let (new_body, new_content_length): (Option<Vec<u8>>, Option<Vec<u8>>) = match rewrite {
            None => (None, None),
            Some((nb, cl)) => {
                let nb2 = copy_bytes(&nb);
                self.current_request_body = Some(nb2);
                (Some(nb), Some(cl))
            },
        };
        let sid_name = header_session_id_bytes();
        let gw = find_header_value(headers, &sid_name);
        if gw.len() == 0 {
            return RequestBodyPlan {
                status: BodyStatus::Continue,
                new_body,
                new_content_length,
                lookup: None,
            };
        }
        self.pending_route_decision = Some(backend);
        self.stripped_tool_name = Some(stripped);
        RequestBodyPlan {
            status: BodyStatus::StopIterationAndBuffer,
            new_body,
            new_content_length,
            lookup: Some(
                LookupRequest { gateway_session_id: gw, callout_id: 1234, timeout_ms: 5000 },
            ),
        }
    }

    /// Terminal fallback for a lookup that concluded without a usable
    /// mapping: installs the synthesized session id and the backend literal,
    /// invalidates the cached route, resumes the exchange, and clears the
    /// pending state.
    pub fn handle_fallback_session(
        &mut self,
        cfg: &FilterConfig,
        backend: BackendId,
        headers: &Vec<(Vec<u8>, Vec<u8>)>,
    ) -> (r: RouteCommit)
        ensures
            ({
                let gw = header_value(hdrs_v(headers@), header_session_id());
                &&& r@.set_request_headers == commit_headers(
                    cfg@,
                    backend,
                    fallback_session_id(cfg@, backend, gw),
                )
                &&& r@.clear_route_cache
                &&& r@.resume
            }),
            final(self)@.pending_route_decision is None,
            final(self)@.stripped_tool_name is None,
            final(self)@.current_request_body == old(self)@.current_request_body,
    {
        let name = header_session_id_bytes();
        let gw = find_header_value(headers, &name);
        let sid = make_fallback_session_id(cfg, backend, &gw);
        let c = build_commit(cfg, backend, sid, true);
        self.pending_route_decision = None;
        self.stripped_tool_name = None;
        c
    }

    /// Decision after the host reports that the lookup could not even be
    /// issued: immediate fallback. No pause has happened, so the commit does
    /// not resume; the exchange simply continues with the fallback headers.
    pub fn on_lookup_issue_failed(
        &mut self,
        cfg: &FilterConfig,
        headers: &Vec<(Vec<u8>, Vec<u8>)>,
    ) -> (r: RouteCommit)
        requires
            old(self).pending_route_decision is Some,
        ensures
            (match old(self)@.pending_route_decision {
                Some(b) => ({
                    let gw = header_value(hdrs_v(headers@), header_session_id());
                    &&& r@.set_request_headers == commit_headers(
                        cfg@,
                        b,
                        fallback_session_id(cfg@, b, gw),
                    )
                    &&& r@.clear_route_cache
                    &&& !r@.resume
                }),
                None => false,
            }),
            final(self)@.pending_route_decision is None,
            final(self)@.stripped_tool_name is None,
            final(self)@.current_request_body == old(self)@.current_request_body,
    {
        let backend = match self.pending_route_decision {
            Some(b) => b,
            None => vstd::pervasive::unreached(),
        };
        let name = header_session_id_bytes();
        let gw = find_header_value(headers, &name);
        let sid = make_fallback_session_id(cfg, backend, &gw);
        let c = build_commit(cfg, backend, sid, false);
        self.pending_route_decision = None;
        self.stripped_tool_name = None;
        c
    }

    /// Decision when the asynchronous lookup completes. Without a pending
    /// route decision the completion is a no-op (a late callout against an
    /// exchange that was never paused). With one, every outcome reaches a
    /// terminal commit that resumes the exchange exactly once: the looked-up
    /// session id when the completion succeeded with a parsable body whose
    /// `found` is true, the deterministic fallback on every other outcome.
    pub fn on_http_callout_done(
        &mut self,
        cfg: &FilterConfig,
        success: bool,
        body: Option<&Vec<u8>>,
        headers: &Vec<(Vec<u8>, Vec<u8>)>,
    ) -> (r: Option<RouteCommit>)
        ensures
            old(self)@.pending_route_decision is None ==> (r is None && final(self)@ == old(
                self,
            )@),
            (match old(self)@.pending_route_decision {
                Some(b) => ({
                    let gw = header_value(hdrs_v(headers@), header_session_id());
                    &&& (r matches Some(c) && c@ == callout_done_commit(
                        cfg@,
                        b,
                        success,
                        opt_body_v(body),
                        gw,
                    ))
                    &&& final(self)@.pending_route_decision is None
                    &&& final(self)@.stripped_tool_name is None
                    &&& final(self)@.current_request_body == old(self)@.current_request_body
                }),
                None => true,
            }),
    {
        let backend = match self.pending_route_decision {
            None => {
                return None;
            },
            Some(b) => b,
        };
        if !success {
            return Some(self.handle_fallback_session(cfg, backend, headers));
        }
        let bb = match body {
            None => {
                return Some(self.handle_fallback_session(cfg, backend, headers));
            },
            Some(bb) => bb,
        };
        let lr = match parse_lookup_response(bb) {
            None => {
                return Some(self.handle_fallback_session(cfg, backend, headers));
            },
            Some(lr) => lr,
        };
        let LookupResult { server1_session_id, server2_session_id, found } = lr;
        if !found {
            return Some(self.handle_fallback_session(cfg, backend, headers));
        }
        let sid = match backend {
            BackendId::A => server1_session_id,
            BackendId::B => server2_session_id,
        };
        let c = build_commit(cfg, backend, sid, true);
        self.pending_route_decision = None;
        self.stripped_tool_name = None;
        Some(c)
    }

    /// Response-headers decision: when the session header carries a
    /// recognized backend-session prefix, the value to write back in its
    /// place — the original gateway session id; otherwise the header is left
    /// untouched.
    pub fn on_response_headers(
        &self,
        cfg: &FilterConfig,
        headers: &Vec<(Vec<u8>, Vec<u8>)>,
    ) -> (r: Option<Vec<u8>>)
        ensures
            (match (r, response_rewrite(
                cfg@,
                header_value(hdrs_v(headers@), header_session_id()),
            )) {
                (None, None) => true,
                (Some(v), Some(s)) => v@ == s,
                _ => false,
            }),
    {
        let name = header_session_id_bytes();
        let value = find_header_value(headers, &name);
        rewrite_response_session(cfg, &value)
    }
}

} // verus!
