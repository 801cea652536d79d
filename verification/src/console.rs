//! Per-program state: the append-only command log and the tag-based
//! request/response rendezvous between program and console.
//!
//! A wait stamps its request with a fresh tag T by bumping `request_tag`;
//! while the wait is current, `request_tag == T + 1`. A response with tag t
//! is stale when `t + 1 < request_tag` and is discarded on arrival; a
//! response that is not stale is installed in the single rendezvous slot,
//! where a later arrival displaces an earlier one (last-writer-wins). A
//! response that arrives before its matching wait is registered is installed
//! as well: the next wait begins by bumping the tag, and such a leftover is
//! taken by whichever waiter polls next, as the slot semantics tolerate.

use vstd::prelude::*;

use crate::api::{ts_le, ConsoleResponse, ProgramCommand, ProgramRequest, Timestamp};

verus! {

/// Why a wait ended without a response.
#[derive(Clone, Copy, Debug, PartialEq, Eq, Structural)]
pub enum WaitError {
    /// The context's exit flag was set; the program must stop.
    Exited,
    /// The request's wall-clock expiry passed.
    Timeout,
    /// A later wait superseded this one (session transfer).
    Outdated,
}

/// Result codes of a wait, one per outcome, for embedders that need a plain
/// integer code.
#[derive(Copy, Clone, Eq, PartialEq, Structural, Debug)]
pub enum QniWaitResult {
    Success,
    Exited,
    Timeout,
    OutDated,
    Internal,
}

impl QniWaitResult {
    /// The conventional integer code of each outcome.
    pub fn code(&self) -> (r: i32)
        ensures
            *self == QniWaitResult::Success ==> r == 0,
            *self == QniWaitResult::Exited ==> r == 1,
            *self == QniWaitResult::Timeout ==> r == 2,
            *self == QniWaitResult::OutDated ==> r == 3,
            *self == QniWaitResult::Internal ==> r == -1,
    {
        match self {
            QniWaitResult::Success => 0,
            QniWaitResult::Exited => 1,
            QniWaitResult::Timeout => 2,
            QniWaitResult::OutDated => 3,
            QniWaitResult::Internal => -1,
        }
    }

    /// Classifies a finished wait.
    pub fn from_wait(r: &Result<ConsoleResponse, WaitError>) -> (q: QniWaitResult)
        ensures
            r is Ok ==> q == QniWaitResult::Success,
            r == Err::<ConsoleResponse, WaitError>(WaitError::Exited) ==> q
                == QniWaitResult::Exited,
            r == Err::<ConsoleResponse, WaitError>(WaitError::Timeout) ==> q
                == QniWaitResult::Timeout,
            r == Err::<ConsoleResponse, WaitError>(WaitError::Outdated) ==> q
                == QniWaitResult::OutDated,
    {
        match r {
            Ok(_) => QniWaitResult::Success,
            Err(WaitError::Exited) => QniWaitResult::Exited,
            Err(WaitError::Timeout) => QniWaitResult::Timeout,
            Err(WaitError::Outdated) => QniWaitResult::OutDated,
        }
    }
}

/// What one poll of a pending wait produced: a terminal outcome, or nothing
/// yet.
#[derive(Debug, PartialEq)]
pub enum PollStatus {
    Finished(Result<ConsoleResponse, WaitError>),
    Pending,
}

/// The abstract state of a console context.
pub ghost struct ConsoleState {
    /// The append-only command log.
    pub commands: Seq<ProgramCommand>,
    /// Monotone false-to-true stop signal.
    pub exit: bool,
    /// The tag the next wait will be stamped with; a request with tag T is
    /// current while this equals T + 1.
    pub tag: u32,
    /// The published request of the wait in progress, if any.
    pub request: Option<ProgramRequest>,
    /// The rendezvous slot: the installed, not yet consumed response.
    pub response: Option<ConsoleResponse>,
}

impl ConsoleState {
    /// A published request is always the one stamped by the wait in
    /// progress: its tag is one below the counter.
    pub open spec fn wf(self) -> bool {
        match self.request {
            Some(r) => r.tag as int + 1 == self.tag as int,
            None => true,
        }
    }
}

/// The state of a context before any command or wait.
pub open spec fn init_console_state() -> ConsoleState {
    ConsoleState {
        commands: Seq::empty(),
        exit: false,
        tag: 0u32,
        request: None,
        response: None,
    }
}

/// The log slice a catch-up from `from` returns: everything from `from` to
/// the end, and nothing when `from` lies past the end.
pub open spec fn export_slice(cmds: Seq<ProgramCommand>, from: int) -> Seq<ProgramCommand> {
    if from <= cmds.len() {
        cmds.subrange(from, cmds.len() as int)
    } else {
        Seq::empty()
    }
}

/// A response tagged `tag` is stale once the counter has moved past
/// `tag + 1`.
pub open spec fn stale_tag(tag: u32, cur: u32) -> bool {
    tag as int + 1 < cur as int
}

/// Appending never touches anything but the log, which only grows.
pub open spec fn spec_append(s: ConsoleState, c: ProgramCommand) -> ConsoleState {
    ConsoleState { commands: s.commands.push(c), ..s }
}

/// Setting the exit flag is monotone and touches nothing else.
pub open spec fn spec_set_exit(s: ConsoleState) -> ConsoleState {
    ConsoleState { exit: true, ..s }
}

/// A stale response is discarded; any other is installed in the slot,
/// displacing an earlier arrival.
pub open spec fn spec_on_recv_response(s: ConsoleState, res: ConsoleResponse) -> ConsoleState {
    if stale_tag(res.tag, s.tag) {
        s
    } else {
        ConsoleState { response: Some(res), ..s }
    }
}

/// Starting a wait stamps the request with the counter's value, bumps the
/// counter, and publishes the stamped request.
pub open spec fn spec_begin_wait(s: ConsoleState, req: ProgramRequest) -> (ConsoleState, u32) {
    let stamped = ProgramRequest { tag: s.tag, ..req };
    (ConsoleState { tag: (s.tag + 1) as u32, request: Some(stamped), ..s }, s.tag)
}

/// One iteration of the wait loop, checked in this order: the exit flag ends
/// the wait; an installed response is consumed and returned; a reached
/// expiry times the wait out; a counter past `tag + 1` means a later wait
/// superseded this one. The published request is cleared when the wait
/// returns with a response, on exit and on expiry; an outdated waiter leaves
/// the slot alone, as the published request belongs to its successor.
pub open spec fn spec_poll(
    s: ConsoleState,
    tag: u32,
    expire: Option<Timestamp>,
    now: Timestamp,
) -> (ConsoleState, PollStatus) {
    if s.exit {
        (
            ConsoleState { request: None, ..s },
            PollStatus::Finished(Err(WaitError::Exited)),
        )
    } else if s.response is Some {
        (
            ConsoleState { response: None, request: None, ..s },
            PollStatus::Finished(Ok(s.response.unwrap())),
        )
    } else if expire is Some && ts_le(expire.unwrap(), now) {
        (
            ConsoleState { request: None, ..s },
            PollStatus::Finished(Err(WaitError::Timeout)),
        )
    } else if stale_tag(tag, s.tag) {
        (s, PollStatus::Finished(Err(WaitError::Outdated)))
    } else {
        (s, PollStatus::Pending)
    }
}

/// Per-program state: the command log, the exit flag, the request-tag
/// counter, the published current request and the rendezvous slot.
pub struct ConsoleContext {
    commands: Vec<ProgramCommand>,
    exit_flag: bool,
    request_tag: u32,
    request: Option<ProgramRequest>,
    response: Option<ConsoleResponse>,
}

impl View for ConsoleContext {
    type V = ConsoleState;

    closed spec fn view(&self) -> ConsoleState {
        ConsoleState {
            commands: self.commands@,
            exit: self.exit_flag,
            tag: self.request_tag,
            request: self.request,
            response: self.response,
        }
    }
}

impl ConsoleContext {
    /// A fresh context: empty log, no exit, counter at zero, nothing
    /// published, slot empty.
    pub fn new() -> (r: ConsoleContext)
        ensures
            r@ == init_console_state(),
    {
        ConsoleContext {
            commands: Vec::new(),
            exit_flag: false,
            request_tag: 0,
            request: None,
            response: None,
        }
    }

    /// Whether the program must stop.
    pub fn need_exit(&self) -> (r: bool)
        ensures
            r == self@.exit,
    {
        self.exit_flag
    }

    /// Raises the exit flag; any wait in progress observes it on its next
    /// poll.
    pub fn set_exit(&mut self)
        ensures
            final(self)@ == spec_set_exit(old(self)@),
    {
        self.exit_flag = true;
    }

    /// Appends one command to the log. Earlier entries are never mutated or
    /// removed.
    pub fn append_command(&mut self, command: ProgramCommand)
        ensures
            final(self)@ == spec_append(old(self)@, command),
    {
        self.commands.push(command);
    }

    /// A snapshot of the log from `from` to the current end; empty when
    /// `from` lies past the end.
    pub fn export_command(&self, from: usize) -> (r: Vec<ProgramCommand>)
        ensures
            r@ == export_slice(self@.commands, from as int),
    {
        let mut out: Vec<ProgramCommand> = Vec::new();
        if from > self.commands.len() {
            return out;
        }
        let mut i: usize = from;
        while i < self.commands.len()
            invariant
                from <= i <= self.commands.len(),
                out@ == self.commands@.subrange(from as int, i as int),
            decreases self.commands.len() - i,
        {
            out.push(self.commands[i].clone());
            assert(self.commands@.subrange(from as int, i + 1 as int) == self.commands@.subrange(
                from as int,
                i as int,
            ).push(self.commands@[i as int]));
            i = i + 1;
        }
        out
    }

    /// The current length of the log.
    pub fn get_command_count(&self) -> (r: usize)
        ensures
            r == self@.commands.len(),
    {
        self.commands.len()
    }

    /// The tag the next wait will be stamped with.
    pub fn get_cur_input_tag(&self) -> (r: u32)
        ensures
            r == self@.tag,
    {
        self.request_tag
    }

    /// Whether a response or request tagged `tag` is stale.
    pub fn is_outdated_tag(&self, tag: u32) -> (r: bool)
        ensures
            r == stale_tag(tag, self@.tag),
    {
        (tag as u64) + 1 < (self.request_tag as u64)
    }

    /// Installs a response that is not stale; discards a stale one. A
    /// response for a wait not yet registered is installed and left for the
    /// next poller.
    pub fn on_recv_response(&mut self, res: ConsoleResponse)
        ensures
            final(self)@ == spec_on_recv_response(old(self)@, res),
    {
        if !self.is_outdated_tag(res.tag) {
            self.response = Some(res);
        }
    }

    /// The published request of the wait in progress, if any.
    pub fn try_get_req(&self) -> (r: Option<ProgramRequest>)
        ensures
            r == self@.request,
    {
        self.request
    }

    /// Stamps the request with a fresh tag, publishes it, and returns the
    /// tag. The caller then polls until the wait finishes.
    pub fn begin_wait(&mut self, req: ProgramRequest) -> (tag: u32)
        requires
            old(self)@.tag < u32::MAX,
        ensures
            (final(self)@, tag) == spec_begin_wait(old(self)@, req),
            final(self)@.wf(),
    {
        let tag = self.request_tag;
        self.request_tag = self.request_tag + 1;
        let stamped = ProgramRequest { tag, ..req };
        self.request = Some(stamped);
        tag
    }

    /// One iteration of the wait loop for the wait stamped `tag`, given the
    /// request's expiry and the current wall-clock time.
    pub fn poll_wait(&mut self, tag: u32, expire: Option<Timestamp>, now: Timestamp) -> (r:
        PollStatus)
        ensures
            (final(self)@, r) == spec_poll(old(self)@, tag, expire, now),
    {
        if self.exit_flag {
            self.request = None;
            return PollStatus::Finished(Err(WaitError::Exited));
        }
        let taken = self.response.take();
        if let Some(res) = taken {
            self.request = None;
            return PollStatus::Finished(Ok(res));
        }
        if let Some(e) = &expire {
            if now.reached(e) {
                self.request = None;
                return PollStatus::Finished(Err(WaitError::Timeout));
            }
        }
        if self.is_outdated_tag(tag) {
            return PollStatus::Finished(Err(WaitError::Outdated));
        }
        PollStatus::Pending
    }

    /// One iteration of the wait loop against the wall clock: the poll is
    /// taken at whatever time the clock reads now. A caller that loops on
    /// this until the wait finishes, sleeping a short interval between
    /// polls, obtains the blocking wait.
    pub fn poll_wait_now(&mut self, tag: u32, expire: Option<Timestamp>) -> (r: PollStatus)
        ensures
            exists|now: Timestamp|
                (final(self)@, r) == #[trigger] spec_poll(old(self)@, tag, expire, now),
    {
        let now = now_timestamp();
        self.poll_wait(tag, expire, now)
    }
}

/// Relies on `chrono::Utc::now`: the current wall-clock time, read as the
/// non-leap seconds since the Unix epoch and the nanoseconds since the last
/// second boundary, which stay below two billion even in a leap second.
#[verifier::external_body]
fn now_timestamp() -> (r: Timestamp)
    ensures
        r.nanos < 2_000_000_000,
{
    let now = chrono::Utc::now();
    Timestamp { seconds: now.timestamp(), nanos: now.timestamp_subsec_nanos() }
}

} // verus!
