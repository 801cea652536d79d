//! The connector: the per-session endpoint that marshals between one
//! transport session and one console context.
//!
//! Outward it delivers two streams: the tail of the command log, followed by
//! newly published input requests whose tag has not been dispatched yet, and
//! an acknowledgement for the most recent completed request. Inward it
//! dispatches console-originated requests (catch-up and state management)
//! and responses (handed to the bound context's rendezvous slot).

use vstd::prelude::*;
use vstd::string::StringExecFns;

use crate::api::{
    make_reason_already_exist, make_reason_not_exist, reason_already_exist, reason_not_exist,
    reason_program_exited, ConsoleMessage, ConsoleRequest, ProgramMessage, ProgramResponse,
};
use crate::console::{export_slice, spec_on_recv_response, ConsoleState};
use crate::hub::{hub_ctx_step, Hub, HubState};

verus! {

/// The abstract state of a connector: the index of the bound context, the
/// subscription cursor into its command log, the dispatch watermark (one
/// past the tag of the last request sent out) and the acknowledgement
/// watermark (one past the last tag acknowledged).
pub ghost struct ConnState {
    pub ctx: usize,
    pub cursor: usize,
    pub last_req_tag: u32,
    pub last_sended_req_tag: u32,
}

/// What handling one console-originated request does to the connector, the
/// hub and the reply.
///
/// Catch-up returns the log slice from the requested offset, or the
/// program-exited error once the log is complete and fully delivered.
/// Loading rebinds the connector to the named context and resets its cursor
/// and watermarks; a miss changes nothing. Sharing publishes the bound
/// context's index, failing on a taken name unless overwriting; deletion
/// unregisters the name and sends no reply.
pub open spec fn request_outcome(
    c0: ConnState,
    h0: HubState,
    req: ConsoleRequest,
    c1: ConnState,
    h1: HubState,
    reply: Option<ProgramResponse>,
) -> bool {
    match req {
        ConsoleRequest::GetState(from) => {
            &&& c1 == c0
            &&& h1 == h0
            &&& ({
                let ctx = h0.ctxs[c0.ctx as int]@;
                if ctx.exit && from as int >= ctx.commands.len() {
                    reply matches Some(ProgramResponse::Error { reason, req_type })
                        && reason@ == reason_program_exited() && req_type@ == "GET_STATE"@
                } else {
                    reply matches Some(ProgramResponse::OkGetState(v)) && v@ == export_slice(
                        ctx.commands,
                        from as int,
                    )
                }
            })
        },
        ConsoleRequest::LoadState(name) => {
            &&& h1 == h0
            &&& if h0.shared.contains_key(name@) {
                c1 == (ConnState {
                    ctx: h0.shared[name@],
                    cursor: 0usize,
                    last_req_tag: 0u32,
                    last_sended_req_tag: 0u32,
                }) && reply == Some(ProgramResponse::OkLoadState)
            } else {
                c1 == c0 && (reply matches Some(ProgramResponse::Error { reason, req_type })
                    && reason@ == reason_not_exist(name@) && req_type@ == "LOAD_STATE"@)
            }
        },
        ConsoleRequest::ShareState(name) => {
            &&& c1 == c0
            &&& h1.ctxs == h0.ctxs
            &&& h1.exit == h0.exit
            &&& if !h0.shared.contains_key(name@) {
                h1.shared == h0.shared.insert(name@, c0.ctx) && (reply matches Some(
                    ProgramResponse::OkShareState(n),
                ) && n@ == name@)
            } else {
                h1.shared == h0.shared && (reply matches Some(
                    ProgramResponse::Error { reason, req_type },
                ) && reason@ == reason_already_exist(name@) && req_type@ == "SHARE_STATE"@)
            }
        },
        ConsoleRequest::ShareStateOverwrite(name) => {
            &&& c1 == c0
            &&& h1.ctxs == h0.ctxs
            &&& h1.exit == h0.exit
            &&& h1.shared == h0.shared.insert(name@, c0.ctx)
            &&& reply matches Some(ProgramResponse::OkShareState(n)) && n@ == name@
        },
        ConsoleRequest::DeleteState(name) => {
            &&& c1 == c0
            &&& h1.ctxs == h0.ctxs
            &&& h1.exit == h0.exit
            &&& h1.shared == h0.shared.remove(name@)
            &&& reply is None
        },
    }
}

/// What one outbound poll produces, in priority order: a not yet delivered
/// log chunk; a published request not yet dispatched (the watermark advances
/// past its tag); an acknowledgement of the most recent completed request
/// not yet acknowledged; otherwise nothing.
pub open spec fn try_get_msg_outcome(
    c0: ConnState,
    ctx: ConsoleState,
    c1: ConnState,
    r: Option<ProgramMessage>,
) -> bool {
    if (c0.cursor as int) < ctx.commands.len() {
        &&& c1 == (ConnState { cursor: ctx.commands.len() as usize, ..c0 })
        &&& r matches Some(ProgramMessage::Res(ProgramResponse::OkGetState(v))) && v@
            == ctx.commands.subrange(c0.cursor as int, ctx.commands.len() as int)
    } else if ctx.tag > c0.last_req_tag {
        match ctx.request {
            Some(req) => {
                &&& c1 == (ConnState { last_req_tag: (req.tag + 1) as u32, ..c0 })
                &&& r == Some(ProgramMessage::Req(req))
            },
            None => c1 == c0 && r is None,
        }
    } else if c0.last_sended_req_tag < c0.last_req_tag && !(ctx.request matches Some(q)
        && q.tag as int + 1 == c0.last_req_tag as int) {
        &&& c1 == (ConnState { last_sended_req_tag: c0.last_req_tag, ..c0 })
        &&& r == Some(ProgramMessage::AcceptRes((c0.last_req_tag - 1) as u32))
    } else {
        c1 == c0 && r is None
    }
}

/// The per-session endpoint bound to one context of the hub's arena.
pub struct ConnectorContext {
    ctx: usize,
    sub_cursor: usize,
    last_req_tag: u32,
    last_sended_req_tag: u32,
}

impl View for ConnectorContext {
    type V = ConnState;

    closed spec fn view(&self) -> ConnState {
        ConnState {
            ctx: self.ctx,
            cursor: self.sub_cursor,
            last_req_tag: self.last_req_tag,
            last_sended_req_tag: self.last_sended_req_tag,
        }
    }
}

impl ConnectorContext {
    /// A connector bound to the context at `ctx`, delivering its log from
    /// the start.
    pub fn new(ctx: usize) -> (r: ConnectorContext)
        ensures
            r@ == (ConnState { ctx, cursor: 0usize, last_req_tag: 0u32, last_sended_req_tag: 0u32 }),
    {
        ConnectorContext { ctx, sub_cursor: 0, last_req_tag: 0, last_sended_req_tag: 0 }
    }

    /// Whether this session must stop: its context has exited, or the hub
    /// has been shut down.
    pub fn need_exit(&self, hub: &Hub) -> (r: bool)
        requires
            self@.ctx < hub@.ctxs.len(),
        ensures
            r == (hub@.ctxs[self@.ctx as int]@.exit || hub@.exit),
    {
        let c = hub.context_ref(self.ctx);
        c.need_exit() || hub.need_exit()
    }

    /// Handles one console-originated request against the bound context and
    /// the hub's registry.
    fn process_request(&mut self, hub: &mut Hub, req: ConsoleRequest) -> (reply: Option<
        ProgramResponse,
    >)
        requires
            old(hub).wf(),
            old(self)@.ctx < old(hub)@.ctxs.len(),
        ensures
            final(hub).wf(),
            final(self)@.ctx < final(hub)@.ctxs.len(),
            request_outcome(old(self)@, old(hub)@, req, final(self)@, final(hub)@, reply),
    {
        match req {
            ConsoleRequest::GetState(from) => {
                let c = hub.context_ref(self.ctx);
                let from = from as usize;
                if c.need_exit() && from >= c.get_command_count() {
                    Some(
                        ProgramResponse::Error {
                            reason: String::from_str("program exited"),
                            req_type: String::from_str("GET_STATE"),
                        },
                    )
                } else {
                    Some(ProgramResponse::OkGetState(c.export_command(from)))
                }
            },
            ConsoleRequest::LoadState(name) => {
                match hub.get_ctx(name.as_str()) {
                    Some(id) => {
                        self.ctx = id;
                        self.sub_cursor = 0;
                        self.last_req_tag = 0;
                        self.last_sended_req_tag = 0;
                        Some(ProgramResponse::OkLoadState)
                    },
                    None => Some(
                        ProgramResponse::Error {
                            reason: make_reason_not_exist(name.as_str()),
                            req_type: String::from_str("LOAD_STATE"),
                        },
                    ),
                }
            },
            ConsoleRequest::ShareState(name) => {
                let taken = name.clone();
                if hub.insert_ctx(taken, self.ctx, false) {
                    Some(ProgramResponse::OkShareState(name))
                } else {
                    Some(
                        ProgramResponse::Error {
                            reason: make_reason_already_exist(name.as_str()),
                            req_type: String::from_str("SHARE_STATE"),
                        },
                    )
                }
            },
            ConsoleRequest::ShareStateOverwrite(name) => {
                let taken = name.clone();
                hub.insert_ctx(taken, self.ctx, true);
                Some(ProgramResponse::OkShareState(name))
            },
            ConsoleRequest::DeleteState(name) => {
                hub.erase_ctx(name.as_str());
                None
            },
        }
    }

    /// Dispatches one inbound envelope: a request is handled and its reply
    /// (if any) returned; a response is handed to the bound context's
    /// rendezvous slot; an empty envelope does nothing.
    pub fn on_recv_message(&mut self, hub: &mut Hub, msg: ConsoleMessage) -> (r: Option<
        ProgramMessage,
    >)
        requires
            old(hub).wf(),
            old(self)@.ctx < old(hub)@.ctxs.len(),
        ensures
            final(hub).wf(),
            final(self)@.ctx < final(hub)@.ctxs.len(),
            match msg {
                ConsoleMessage::Req(q) => match r {
                    Some(ProgramMessage::Res(reply)) => request_outcome(
                        old(self)@,
                        old(hub)@,
                        q,
                        final(self)@,
                        final(hub)@,
                        Some(reply),
                    ),
                    None => request_outcome(
                        old(self)@,
                        old(hub)@,
                        q,
                        final(self)@,
                        final(hub)@,
                        None,
                    ),
                    _ => false,
                },
                ConsoleMessage::Res(res) => {
                    &&& r is None
                    &&& final(self)@ == old(self)@
                    &&& hub_ctx_step(
                        old(hub)@,
                        final(hub)@,
                        old(self)@.ctx as int,
                        spec_on_recv_response(old(hub)@.ctxs[old(self)@.ctx as int]@, res),
                    )
                },
                ConsoleMessage::Empty => {
                    &&& r is None
                    &&& final(self)@ == old(self)@
                    &&& final(hub)@ == old(hub)@
                },
            },
    {
        match msg {
            ConsoleMessage::Req(q) => {
                match self.process_request(hub, q) {
                    Some(reply) => Some(ProgramMessage::Res(reply)),
                    None => None,
                }
            },
            ConsoleMessage::Res(res) => {
                let c = hub.context_mut(self.ctx);
                c.on_recv_response(res);
                None
            },
            ConsoleMessage::Empty => None,
        }
    }

    /// Produces the next outbound envelope, if one is due.
    pub fn try_get_msg(&mut self, hub: &Hub) -> (r: Option<ProgramMessage>)
        requires
            hub.wf(),
            old(self)@.ctx < hub@.ctxs.len(),
        ensures
            final(self)@.ctx == old(self)@.ctx,
            try_get_msg_outcome(
                old(self)@,
                hub@.ctxs[old(self)@.ctx as int]@,
                final(self)@,
                r,
            ),
    {
        let c = hub.context_ref(self.ctx);
        let count = c.get_command_count();
        if self.sub_cursor < count {
            let chunk = c.export_command(self.sub_cursor);
            self.sub_cursor = count;
            return Some(ProgramMessage::Res(ProgramResponse::OkGetState(chunk)));
        }
        if c.get_cur_input_tag() > self.last_req_tag {
            return match c.try_get_req() {
                Some(req) => {
                    self.last_req_tag = req.tag + 1;
                    Some(ProgramMessage::Req(req))
                },
                None => None,
            };
        }
        if self.last_sended_req_tag < self.last_req_tag {
            let current = match c.try_get_req() {
                Some(q) => (q.tag as u64) + 1 == (self.last_req_tag as u64),
                None => false,
            };
            if !current {
                let ack = self.last_req_tag - 1;
                self.last_sended_req_tag = self.last_req_tag;
                return Some(ProgramMessage::AcceptRes(ack));
            }
        }
        None
    }
}

} // verus!
