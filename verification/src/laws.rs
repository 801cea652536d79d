//! The guarantees of the coordination core, stated and proved over the
//! transition functions that the executable operations are specified
//! against.

use vstd::prelude::*;

use crate::api::{
    ConsoleRequest, ProgramCommand, ProgramRequest, ConsoleResponse, Timestamp,
    reason_program_exited,
};
use crate::api::ProgramMessage;
use crate::connector::{request_outcome, try_get_msg_outcome, ConnState};
use crate::console::{
    export_slice, spec_append, spec_begin_wait, spec_on_recv_response, spec_poll, spec_set_exit,
    stale_tag, ConsoleState, PollStatus, WaitError,
};
use crate::hub::{hub_valid, HubState};

verus! {

/// Monotonic log: no transition removes or mutates an appended command, so
/// the log before any transition is a prefix of the log after it.
pub proof fn lemma_log_monotonic(
    s: ConsoleState,
    c: ProgramCommand,
    req: ProgramRequest,
    res: ConsoleResponse,
    tag: u32,
    expire: Option<Timestamp>,
    now: Timestamp,
)
    ensures
        s.commands.is_prefix_of(spec_append(s, c).commands),
        s.commands.is_prefix_of(spec_set_exit(s).commands),
        s.commands.is_prefix_of(spec_on_recv_response(s, res).commands),
        s.commands.is_prefix_of(spec_begin_wait(s, req).0.commands),
        s.commands.is_prefix_of(spec_poll(s, tag, expire, now).0.commands),
{
    assert(s.commands.is_prefix_of(s.commands.push(c))) by {
        assert(s.commands =~= s.commands.push(c).subrange(0, s.commands.len() as int));
    }
    assert(s.commands.is_prefix_of(s.commands));
}

/// A prefix of a prefix is a prefix: snapshots taken at any two moments of
/// a run are ordered by the prefix relation.
pub proof fn lemma_log_prefix_transitive(
    a: Seq<ProgramCommand>,
    b: Seq<ProgramCommand>,
    c: Seq<ProgramCommand>,
)
    requires
        a.is_prefix_of(b),
        b.is_prefix_of(c),
    ensures
        a.is_prefix_of(c),
{
    assert(a =~= c.subrange(0, a.len() as int));
}

/// Monotonic tag: no transition lowers the request-tag counter, and only
/// beginning a wait raises it.
pub proof fn lemma_tag_monotonic(
    s: ConsoleState,
    c: ProgramCommand,
    req: ProgramRequest,
    res: ConsoleResponse,
    tag: u32,
    expire: Option<Timestamp>,
    now: Timestamp,
)
    ensures
        spec_append(s, c).tag == s.tag,
        spec_set_exit(s).tag == s.tag,
        spec_on_recv_response(s, res).tag == s.tag,
        s.tag < u32::MAX ==> spec_begin_wait(s, req).0.tag == s.tag + 1,
        spec_poll(s, tag, expire, now).0.tag == s.tag,
{
}

/// One thing that can happen to a console context.
pub ghost enum ConsoleEvent {
    Append(ProgramCommand),
    SetExit,
    Recv(ConsoleResponse),
    BeginWait(ProgramRequest),
    Poll(u32, Option<Timestamp>, Timestamp),
}

/// The state after one event.
pub open spec fn console_step(s: ConsoleState, ev: ConsoleEvent) -> ConsoleState {
    match ev {
        ConsoleEvent::Append(c) => spec_append(s, c),
        ConsoleEvent::SetExit => spec_set_exit(s),
        ConsoleEvent::Recv(r) => spec_on_recv_response(s, r),
        ConsoleEvent::BeginWait(q) => spec_begin_wait(s, q).0,
        ConsoleEvent::Poll(tag, expire, now) => spec_poll(s, tag, expire, now).0,
    }
}

/// The state after a whole run of events.
pub open spec fn console_run(s: ConsoleState, evs: Seq<ConsoleEvent>) -> ConsoleState
    decreases evs.len(),
{
    if evs.len() == 0 {
        s
    } else {
        console_run(console_step(s, evs[0]), evs.drop_first())
    }
}

/// No wait of the run begins with the tag counter exhausted; every wait the
/// executable context can stamp satisfies this.
pub open spec fn run_in_tag_bounds(s: ConsoleState, evs: Seq<ConsoleEvent>) -> bool
    decreases evs.len(),
{
    evs.len() == 0 || ((evs[0] matches ConsoleEvent::BeginWait(_) ==> s.tag < u32::MAX)
        && run_in_tag_bounds(console_step(s, evs[0]), evs.drop_first()))
}

proof fn lemma_step_extends_log(s: ConsoleState, ev: ConsoleEvent)
    ensures
        s.commands.is_prefix_of(console_step(s, ev).commands),
{
    let post = console_step(s, ev).commands;
    assert(s.commands =~= post.subrange(0, s.commands.len() as int));
}

/// Monotonicity over whole runs: whatever happens to a context, its log
/// only ever grows (every snapshot is a prefix of every later one), its
/// exit flag never falls, and, as long as no wait begins with the counter
/// exhausted, its tag counter never decreases.
pub proof fn lemma_run_monotonic(s: ConsoleState, evs: Seq<ConsoleEvent>)
    ensures
        s.commands.is_prefix_of(console_run(s, evs).commands),
        s.exit ==> console_run(s, evs).exit,
        run_in_tag_bounds(s, evs) ==> s.tag <= console_run(s, evs).tag,
    decreases evs.len(),
{
    if evs.len() > 0 {
        let s1 = console_step(s, evs[0]);
        lemma_step_extends_log(s, evs[0]);
        lemma_run_monotonic(s1, evs.drop_first());
        lemma_log_prefix_transitive(
            s.commands,
            s1.commands,
            console_run(s, evs).commands,
        );
    }
}

/// Monotone exit flag: once the flag is raised, no transition lowers it.
pub proof fn lemma_exit_monotonic(
    s: ConsoleState,
    c: ProgramCommand,
    req: ProgramRequest,
    res: ConsoleResponse,
    tag: u32,
    expire: Option<Timestamp>,
    now: Timestamp,
)
    ensures
        spec_set_exit(s).exit,
        spec_append(s, c).exit == s.exit,
        spec_on_recv_response(s, res).exit == s.exit,
        spec_begin_wait(s, req).0.exit == s.exit,
        spec_poll(s, tag, expire, now).0.exit == s.exit,
{
}

/// Two distinct waits obtain distinct tags: a wait returns the counter's
/// value and bumps it, so a later wait, begun at any state the counter has
/// not decreased in between, is stamped with a strictly larger tag.
pub proof fn lemma_distinct_tags(
    s0: ConsoleState,
    req1: ProgramRequest,
    s1: ConsoleState,
    req2: ProgramRequest,
)
    requires
        s0.tag < u32::MAX,
        s1.tag >= spec_begin_wait(s0, req1).0.tag,
    ensures
        spec_begin_wait(s1, req2).1 > spec_begin_wait(s0, req1).1,
{
}

/// At most one current request: beginning a wait publishes exactly the
/// request it stamped; the wait's own return (with a response, on exit or
/// on expiry) clears the slot; a pending poll and every other transition
/// leave the slot alone. An outdated wait leaves the slot to the later wait
/// that superseded it.
pub proof fn lemma_request_lifecycle(
    s: ConsoleState,
    c: ProgramCommand,
    req: ProgramRequest,
    res: ConsoleResponse,
    tag: u32,
    expire: Option<Timestamp>,
    now: Timestamp,
)
    ensures
        spec_begin_wait(s, req).0.request == Some(ProgramRequest { tag: s.tag, ..req }),
        (spec_poll(s, tag, expire, now).1 matches PollStatus::Finished(o) && o != Err::<
            ConsoleResponse,
            WaitError,
        >(WaitError::Outdated)) ==> spec_poll(s, tag, expire, now).0.request is None,
        spec_poll(s, tag, expire, now).1 == PollStatus::Pending ==> spec_poll(
            s,
            tag,
            expire,
            now,
        ).0.request == s.request,
        spec_poll(s, tag, expire, now).1 == PollStatus::Finished(
            Err::<ConsoleResponse, WaitError>(WaitError::Outdated),
        ) ==> spec_poll(s, tag, expire, now).0.request == s.request,
        spec_append(s, c).request == s.request,
        spec_set_exit(s).request == s.request,
        spec_on_recv_response(s, res).request == s.request,
{
}

/// Response freshness: a response that is stale on arrival is discarded
/// without a trace, and a waiter only ever returns a response the slot
/// held; so a stale response is never observed by any waiter.
pub proof fn lemma_stale_response_invisible(
    s: ConsoleState,
    res: ConsoleResponse,
    tag: u32,
    expire: Option<Timestamp>,
    now: Timestamp,
)
    ensures
        stale_tag(res.tag, s.tag) ==> spec_on_recv_response(s, res) == s,
        spec_poll(s, tag, expire, now).1 matches PollStatus::Finished(Ok(out)) ==> s.response
            == Some(out),
{
}

/// Handoff: a wait that begins with tag T and receives the response tagged
/// T while blocked returns exactly that response on its next poll,
/// whatever the clock reads; and a wait whose context is told to exit
/// before any response arrives returns Exited.
pub proof fn lemma_handoff(
    s0: ConsoleState,
    req: ProgramRequest,
    res: ConsoleResponse,
    expire: Option<Timestamp>,
    now: Timestamp,
)
    requires
        s0.tag < u32::MAX,
        !s0.exit,
        res.tag == spec_begin_wait(s0, req).1,
    ensures
        ({
            let (s1, t) = spec_begin_wait(s0, req);
            let s2 = spec_on_recv_response(s1, res);
            spec_poll(s2, t, expire, now) == (
                ConsoleState { response: None, request: None, ..s2 },
                PollStatus::Finished(Ok::<ConsoleResponse, WaitError>(res)),
            )
        }),
        ({
            let (s1, t) = spec_begin_wait(s0, req);
            spec_poll(spec_set_exit(s1), t, expire, now).1 == PollStatus::Finished(
                Err::<ConsoleResponse, WaitError>(WaitError::Exited),
            )
        }),
{
}

/// Catch-up completeness: a catch-up from offset `from`, issued when the
/// log holds N commands, returns exactly commands [from..N); once the
/// program has exited and `from` has reached the end, it returns the
/// program-exited error instead.
pub proof fn lemma_catch_up(
    c0: ConnState,
    h0: HubState,
    from: u32,
    c1: ConnState,
    h1: HubState,
    reply: Option<crate::api::ProgramResponse>,
)
    requires
        (c0.ctx as int) < h0.ctxs.len(),
        request_outcome(c0, h0, ConsoleRequest::GetState(from), c1, h1, reply),
    ensures
        ({
            let log = h0.ctxs[c0.ctx as int]@.commands;
            if h0.ctxs[c0.ctx as int]@.exit && from as int >= log.len() {
                reply matches Some(crate::api::ProgramResponse::Error { reason, req_type })
                    && reason@ == reason_program_exited()
            } else {
                reply matches Some(crate::api::ProgramResponse::OkGetState(v)) && v@
                    == export_slice(log, from as int) && (from as int <= log.len() ==> v@.len()
                    == log.len() - from)
            }
        }),
        c1 == c0,
        h1 == h0,
{
}

/// Reattach equivalence: after a successful load of `name`, a catch-up on
/// the same connector reads the log of the context published under `name`,
/// not the one the connector was bound to before.
pub proof fn lemma_reattach(
    c0: ConnState,
    h0: HubState,
    name: String,
    c1: ConnState,
    h1: HubState,
    reply1: Option<crate::api::ProgramResponse>,
    from: u32,
    c2: ConnState,
    h2: HubState,
    reply2: Option<crate::api::ProgramResponse>,
)
    requires
        hub_valid(h0),
        h0.shared.contains_key(name@),
        request_outcome(c0, h0, ConsoleRequest::LoadState(name), c1, h1, reply1),
        request_outcome(c1, h1, ConsoleRequest::GetState(from), c2, h2, reply2),
    ensures
        reply1 == Some(crate::api::ProgramResponse::OkLoadState),
        c1.ctx == h0.shared[name@],
        ({
            let loaded = h0.ctxs[h0.shared[name@] as int]@;
            if loaded.exit && from as int >= loaded.commands.len() {
                reply2 matches Some(crate::api::ProgramResponse::Error { reason, req_type })
                    && reason@ == reason_program_exited()
            } else {
                reply2 matches Some(crate::api::ProgramResponse::OkGetState(v)) && v@
                    == export_slice(loaded.commands, from as int)
            }
        }),
{
}

/// Dispatch watermark: a connector never emits a request whose tag lies
/// below its watermark, and emitting one advances the watermark past its
/// tag, so no request is dispatched twice.
pub proof fn lemma_watermark(
    c0: ConnState,
    ctx: ConsoleState,
    c1: ConnState,
    r: Option<ProgramMessage>,
)
    requires
        ctx.wf(),
        try_get_msg_outcome(c0, ctx, c1, r),
    ensures
        r matches Some(ProgramMessage::Req(q)) ==> q.tag >= c0.last_req_tag && c1.last_req_tag
            == q.tag + 1,
{
}

/// Registry uniqueness, without overwrite: sharing under `name` succeeds
/// exactly when `name` is absent, and on success publishes the connector's
/// bound context under it; on conflict the registry is untouched.
pub proof fn lemma_share_uniqueness(
    c0: ConnState,
    h0: HubState,
    name: String,
    c1: ConnState,
    h1: HubState,
    reply: Option<crate::api::ProgramResponse>,
)
    requires
        request_outcome(c0, h0, ConsoleRequest::ShareState(name), c1, h1, reply),
    ensures
        (reply matches Some(crate::api::ProgramResponse::OkShareState(n)) && n@ == name@) <==> !h0
            .shared.contains_key(name@),
        !h0.shared.contains_key(name@) ==> h1.shared == h0.shared.insert(name@, c0.ctx),
        h0.shared.contains_key(name@) ==> h1.shared == h0.shared,
{
}

/// Registry uniqueness, with overwrite: sharing always succeeds and
/// supplants any prior entry under the name.
pub proof fn lemma_share_overwrite(
    c0: ConnState,
    h0: HubState,
    name: String,
    c1: ConnState,
    h1: HubState,
    reply: Option<crate::api::ProgramResponse>,
)
    requires
        request_outcome(c0, h0, ConsoleRequest::ShareStateOverwrite(name), c1, h1, reply),
    ensures
        reply matches Some(crate::api::ProgramResponse::OkShareState(n)) && n@ == name@,
        h1.shared == h0.shared.insert(name@, c0.ctx),
        h1.shared[name@] == c0.ctx,
{
}

} // verus!
