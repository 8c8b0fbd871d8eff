//! The virtual-terminal session of the locker: find a free terminal, note the
//! active one, switch to the free one (optionally forbidding further switches),
//! run the interface there, then undo everything in reverse order and release
//! the terminal.
use vstd::prelude::*;
use crate::vt::{Vt, VtNumber};

verus! {

/// A console request of the Linux virtual-terminal interface (`<linux/vt.h>`).
#[derive(Debug, Clone, Copy, PartialEq, Eq, Structural)]
pub enum VtRequest {
    /// `VT_OPENQRY`: ask for the first terminal that nobody has open.
    OpenQuery,
    /// `VT_GETSTATE`: ask which terminal is active.
    GetState,
    /// `VT_ACTIVATE`: switch to a terminal.
    Activate(VtNumber),
    /// `VT_WAITACTIVE`: wait until a terminal is the active one.
    WaitActive(VtNumber),
    /// `VT_LOCKSWITCH`: forbid switching terminals.
    LockSwitch,
    /// `VT_UNLOCKSWITCH`: allow switching terminals again.
    UnlockSwitch,
    /// `VT_DISALLOCATE`: release a terminal.
    Disallocate(VtNumber),
}

/// The ioctl request number of each request, as `<linux/vt.h>` defines it.
pub open spec fn request_code(r: VtRequest) -> u32 {
    match r {
        VtRequest::OpenQuery => 0x5600,
        VtRequest::GetState => 0x5603,
        VtRequest::Activate(_) => 0x5606,
        VtRequest::WaitActive(_) => 0x5607,
        VtRequest::Disallocate(_) => 0x5608,
        VtRequest::LockSwitch => 0x560B,
        VtRequest::UnlockSwitch => 0x560C,
    }
}

/// The integer argument passed with the request; `None` for the two queries,
/// whose argument is the address of the buffer the kernel writes into.
pub open spec fn request_argument(r: VtRequest) -> Option<i32> {
    match r {
        VtRequest::Activate(n) => Some(n.0),
        VtRequest::WaitActive(n) => Some(n.0),
        VtRequest::Disallocate(n) => Some(n.0),
        VtRequest::LockSwitch => Some(1i32),
        VtRequest::UnlockSwitch => Some(1i32),
        VtRequest::OpenQuery => None,
        VtRequest::GetState => None,
    }
}

impl VtRequest {
    /// The ioctl request number.
    pub fn code(&self) -> (c: u32)
        ensures
            c == request_code(*self),
            *self is OpenQuery ==> c == 0x5600,
            *self is GetState ==> c == 0x5603,
            *self is Activate ==> c == 0x5606,
            *self is WaitActive ==> c == 0x5607,
            *self is Disallocate ==> c == 0x5608,
            *self is LockSwitch ==> c == 0x560B,
            *self is UnlockSwitch ==> c == 0x560C,
    {
        match self {
            VtRequest::OpenQuery => 0x5600,
            VtRequest::GetState => 0x5603,
            VtRequest::Activate(_) => 0x5606,
            VtRequest::WaitActive(_) => 0x5607,
            VtRequest::Disallocate(_) => 0x5608,
            VtRequest::LockSwitch => 0x560B,
            VtRequest::UnlockSwitch => 0x560C,
        }
    }

    /// The integer argument of the request, if it takes one.
    pub fn argument(&self) -> (a: Option<i32>)
        ensures
            a == request_argument(*self),
            *self matches VtRequest::Activate(n) ==> a == Some(n.0),
            *self matches VtRequest::WaitActive(n) ==> a == Some(n.0),
            *self matches VtRequest::Disallocate(n) ==> a == Some(n.0),
            (*self is LockSwitch || *self is UnlockSwitch) ==> a == Some(1i32),
            (*self is OpenQuery || *self is GetState) ==> a is None,
    {
        match self {
            VtRequest::Activate(n) => Some(n.0),
            VtRequest::WaitActive(n) => Some(n.0),
            VtRequest::Disallocate(n) => Some(n.0),
            VtRequest::LockSwitch => Some(1),
            VtRequest::UnlockSwitch => Some(1),
            VtRequest::OpenQuery => None,
            VtRequest::GetState => None,
        }
    }
}

/// Every request carries the request number of `<linux/vt.h>` that names it,
/// whatever terminal it concerns: `VT_OPENQRY` 0x5600, `VT_GETSTATE` 0x5603,
/// `VT_ACTIVATE` 0x5606, `VT_WAITACTIVE` 0x5607, `VT_DISALLOCATE` 0x5608,
/// `VT_LOCKSWITCH` 0x560B, `VT_UNLOCKSWITCH` 0x560C; and no two requests of
/// different kinds share a number.
pub proof fn lemma_request_codes(n: VtNumber, m: VtNumber)
    ensures
        request_code(VtRequest::OpenQuery) == 0x5600,
        request_code(VtRequest::GetState) == 0x5603,
        request_code(VtRequest::Activate(n)) == 0x5606,
        request_code(VtRequest::WaitActive(n)) == 0x5607,
        request_code(VtRequest::Disallocate(n)) == 0x5608,
        request_code(VtRequest::LockSwitch) == 0x560B,
        request_code(VtRequest::UnlockSwitch) == 0x560C,
        request_code(VtRequest::Activate(n)) == request_code(VtRequest::Activate(m)),
        request_code(VtRequest::Disallocate(n)) != request_code(VtRequest::Activate(m)),
{
}

/// A request about a terminal passes that terminal's number as its argument;
/// the switch lock requests pass 1; the two queries pass a buffer instead.
pub proof fn lemma_request_arguments(n: VtNumber)
    ensures
        request_argument(VtRequest::Activate(n)) == Some(n.0),
        request_argument(VtRequest::WaitActive(n)) == Some(n.0),
        request_argument(VtRequest::Disallocate(n)) == Some(n.0),
        request_argument(VtRequest::LockSwitch) == Some(1i32),
        request_argument(VtRequest::UnlockSwitch) == Some(1i32),
        request_argument(VtRequest::OpenQuery) is None,
        request_argument(VtRequest::GetState) is None,
{
}

/// What a terminal asks for when the locker is done with it: a terminal the
/// locker allocated is released, any other is left alone.
pub open spec fn release_spec(vt: Vt) -> Option<VtRequest> {
    if vt.allocated {
        Some(VtRequest::Disallocate(vt.number))
    } else {
        None
    }
}

/// Only a terminal the locker allocated is ever released, and it is
/// released by its own number: a terminal that already existed (made with
/// `with_number`) gives no release request, whatever its number.
pub proof fn lemma_release_only_allocated(n: VtNumber)
    ensures
        release_spec(Vt { number: n, allocated: false }) is None,
        release_spec(Vt { number: n, allocated: true }) == Some(VtRequest::Disallocate(n)),
{
}

impl Vt {
    /// The request that gives the terminal back, if the locker owns it.
    pub fn release_request(&self) -> (r: Option<VtRequest>)
        ensures
            r == release_spec(*self),
            !self.allocated ==> r is None,
            self.allocated ==> r == Some(VtRequest::Disallocate(self.number)),
    {
        if self.allocated {
            Some(VtRequest::Disallocate(self.number))
        } else {
            None
        }
    }
}

/// Where a session stands.
#[derive(Debug, Clone, Copy, PartialEq, Eq, Structural)]
pub enum Stage {
    FindFree,
    ReadActive,
    SwitchTo,
    AwaitTarget,
    Lock,
    Run,
    Unlock,
    SwitchBack,
    AwaitReturn,
    Release,
    Done,
}

/// What the program around the library is to do next.
#[derive(Debug, Clone, Copy, PartialEq, Eq, Structural)]
pub enum SessionAction {
    /// Make this request on the console.
    Console(VtRequest),
    /// Run the work of the session (the lock interface) on this terminal,
    /// whatever its outcome.
    Run(VtNumber),
    /// Nothing is left to do.
    Finished,
}

/// A session on a virtual terminal: switch to it, run the work there, switch
/// back. With `locked`, switching terminals is forbidden while the work runs.
/// A session on a fresh terminal finds the terminal itself and, with
/// `releases_target`, releases it at its end; a session on a terminal the
/// caller has leaves the release to the caller.
#[derive(Debug)]
pub struct VtSession {
    pub locked: bool,
    pub releases_target: bool,
    pub stage: Stage,
    /// The terminal the session runs on (meaningful once it was found).
    pub target: Vt,
    /// The terminal that was active before (meaningful once it was read).
    pub current: Vt,
}

/// The stage after `stage`; the lock stages are skipped when not `locked`,
/// the release when not `releases`.
pub open spec fn next_stage(stage: Stage, locked: bool, releases: bool) -> Stage {
    match stage {
        Stage::FindFree => Stage::ReadActive,
        Stage::ReadActive => Stage::SwitchTo,
        Stage::SwitchTo => Stage::AwaitTarget,
        Stage::AwaitTarget => if locked { Stage::Lock } else { Stage::Run },
        Stage::Lock => Stage::Run,
        Stage::Run => if locked { Stage::Unlock } else { Stage::SwitchBack },
        Stage::Unlock => Stage::SwitchBack,
        Stage::SwitchBack => Stage::AwaitReturn,
        Stage::AwaitReturn => if releases { Stage::Release } else { Stage::Done },
        Stage::Release => Stage::Done,
        Stage::Done => Stage::Done,
    }
}

/// A session on a fresh terminal that has not made any request yet.
pub open spec fn initial_session(locked: bool) -> VtSession {
    VtSession {
        locked,
        releases_target: true,
        stage: Stage::FindFree,
        target: Vt { number: VtNumber(0), allocated: true },
        current: Vt { number: VtNumber(0), allocated: false },
    }
}

/// A session on a terminal the caller already has: it starts by reading which
/// terminal is active and ends once it has switched back; it never releases
/// the target, which stays the caller's.
pub open spec fn session_on(target: Vt, locked: bool) -> VtSession {
    VtSession {
        locked,
        releases_target: false,
        stage: Stage::ReadActive,
        target: Vt { number: target.number, allocated: target.allocated },
        current: Vt { number: VtNumber(0), allocated: false },
    }
}

/// The action a session asks for in its present stage.
pub open spec fn session_action(s: VtSession) -> SessionAction {
    match s.stage {
        Stage::FindFree => SessionAction::Console(VtRequest::OpenQuery),
        Stage::ReadActive => SessionAction::Console(VtRequest::GetState),
        Stage::SwitchTo => SessionAction::Console(VtRequest::Activate(s.target.number)),
        Stage::AwaitTarget => SessionAction::Console(VtRequest::WaitActive(s.target.number)),
        Stage::Lock => SessionAction::Console(VtRequest::LockSwitch),
        Stage::Run => SessionAction::Run(s.target.number),
        Stage::Unlock => SessionAction::Console(VtRequest::UnlockSwitch),
        Stage::SwitchBack => SessionAction::Console(VtRequest::Activate(s.current.number)),
        Stage::AwaitReturn => SessionAction::Console(VtRequest::WaitActive(s.current.number)),
        Stage::Release => match release_spec(s.target) {
            Some(r) => SessionAction::Console(r),
            None => SessionAction::Finished,
        },
        Stage::Done => SessionAction::Finished,
    }
}

/// The session after its present action was carried out. `reply` is what the
/// kernel wrote back for a query (the free terminal, the active terminal); it
/// is not read for any other action.
pub open spec fn session_advance(s: VtSession, reply: VtNumber) -> VtSession {
    VtSession {
        locked: s.locked,
        releases_target: s.releases_target,
        stage: next_stage(s.stage, s.locked, s.releases_target),
        target: if s.stage == Stage::FindFree {
            Vt { number: reply, allocated: true }
        } else {
            s.target
        },
        current: if s.stage == Stage::ReadActive {
            Vt { number: reply, allocated: false }
        } else {
            s.current
        },
    }
}

impl VtSession {
    /// A session that has made no request yet.
    pub fn new(locked: bool) -> (s: VtSession)
        ensures
            s == initial_session(locked),
    {
        VtSession {
            locked,
            releases_target: true,
            stage: Stage::FindFree,
            target: Vt::allocate_with_number(VtNumber(0)),
            current: Vt::with_number(VtNumber(0)),
        }
    }

    /// A session on `target`, which the caller already has and keeps: the
    /// session does not release it.
    pub fn on_vt(target: &Vt, locked: bool) -> (s: VtSession)
        ensures
            s == session_on(*target, locked),
    {
        VtSession {
            locked,
            releases_target: false,
            stage: Stage::ReadActive,
            target: Vt { number: target.number, allocated: target.allocated },
            current: Vt::with_number(VtNumber(0)),
        }
    }

    /// What is to be done next.
    pub fn next_action(&self) -> (a: SessionAction)
        ensures
            a == session_action(*self),
    {
        match self.stage {
            Stage::FindFree => SessionAction::Console(VtRequest::OpenQuery),
            Stage::ReadActive => SessionAction::Console(VtRequest::GetState),
            Stage::SwitchTo => SessionAction::Console(VtRequest::Activate(self.target.number)),
            Stage::AwaitTarget => SessionAction::Console(VtRequest::WaitActive(self.target.number)),
            Stage::Lock => SessionAction::Console(VtRequest::LockSwitch),
            Stage::Run => SessionAction::Run(self.target.number),
            Stage::Unlock => SessionAction::Console(VtRequest::UnlockSwitch),
            Stage::SwitchBack => SessionAction::Console(VtRequest::Activate(self.current.number)),
            Stage::AwaitReturn => SessionAction::Console(VtRequest::WaitActive(self.current.number)),
            Stage::Release => match self.target.release_request() {
                Some(r) => SessionAction::Console(r),
                None => SessionAction::Finished,
            },
            Stage::Done => SessionAction::Finished,
        }
    }

    /// Records that the present action was carried out; `reply` is the number
    /// the kernel wrote back for a query (left 0 if the call failed) and is
    /// not read otherwise.
    pub fn advance(&mut self, reply: VtNumber)
        ensures
            *final(self) == session_advance(*old(self), reply),
    {
        let stage = self.stage;
        if stage == Stage::FindFree {
            self.target = Vt::allocate_with_number(reply);
        } else if stage == Stage::ReadActive {
            self.current = Vt::with_number(reply);
        }
        self.stage = match stage {
            Stage::FindFree => Stage::ReadActive,
            Stage::ReadActive => Stage::SwitchTo,
            Stage::SwitchTo => Stage::AwaitTarget,
            Stage::AwaitTarget => if self.locked { Stage::Lock } else { Stage::Run },
            Stage::Lock => Stage::Run,
            Stage::Run => if self.locked { Stage::Unlock } else { Stage::SwitchBack },
            Stage::Unlock => Stage::SwitchBack,
            Stage::SwitchBack => Stage::AwaitReturn,
            Stage::AwaitReturn => if self.releases_target { Stage::Release } else { Stage::Done },
            Stage::Release => Stage::Done,
            Stage::Done => Stage::Done,
        };
    }

    /// Whether nothing is left to do.
    pub fn is_finished(&self) -> (b: bool)
        ensures
            b == (self.stage == Stage::Done),
    {
        self.stage == Stage::Done
    }
}

/// The action that gives `target` back: its release when the locker
/// allocated it, nothing otherwise.
pub open spec fn release_action(target: Vt) -> SessionAction {
    match release_spec(target) {
        Some(r) => SessionAction::Console(r),
        None => SessionAction::Finished,
    }
}

/// The requests a session on the given `target` makes, in order, when the
/// kernel names `active` as the active terminal. It ends once it has switched
/// back; the target is not released.
pub open spec fn session_plan_on(locked: bool, target: Vt, active: VtNumber) -> Seq<SessionAction> {
    let t = target.number;
    let before = seq![
        SessionAction::Console(VtRequest::GetState),
        SessionAction::Console(VtRequest::Activate(t)),
        SessionAction::Console(VtRequest::WaitActive(t)),
    ];
    let work = if locked {
        seq![
            SessionAction::Console(VtRequest::LockSwitch),
            SessionAction::Run(t),
            SessionAction::Console(VtRequest::UnlockSwitch),
        ]
    } else {
        seq![SessionAction::Run(t)]
    };
    let after = seq![
        SessionAction::Console(VtRequest::Activate(active)),
        SessionAction::Console(VtRequest::WaitActive(active)),
    ];
    before + work + after
}

/// The requests a session on a fresh terminal makes, in order, when the
/// kernel names `free` as the first free terminal and `active` as the active
/// one: the query for a free terminal, the session on it, and its release.
pub open spec fn session_plan(locked: bool, free: VtNumber, active: VtNumber) -> Seq<SessionAction> {
    let target = Vt { number: free, allocated: true };
    seq![SessionAction::Console(VtRequest::OpenQuery)] + session_plan_on(locked, target, active)
        + seq![release_action(target)]
}

/// The actions a session asks for, one per reply, when driven with `replies`.
pub open spec fn session_trace(s: VtSession, replies: Seq<VtNumber>) -> Seq<SessionAction>
    decreases replies.len(),
{
    if replies.len() == 0 {
        Seq::empty()
    } else {
        seq![session_action(s)] + session_trace(session_advance(s, replies[0]), replies.drop_first())
    }
}

/// The session after it was driven with `replies`.
pub open spec fn session_after(s: VtSession, replies: Seq<VtNumber>) -> VtSession
    decreases replies.len(),
{
    if replies.len() == 0 {
        s
    } else {
        session_after(session_advance(s, replies[0]), replies.drop_first())
    }
}

/// What the locker sees of the console: the active terminal, whether
/// switching is forbidden, and which terminals are allocated.
pub struct ConsoleModel {
    pub active: int,
    pub switch_locked: bool,
    pub allocated: Set<int>,
}

/// The console after one action. Queries, waits and the session's own work
/// leave it unchanged; no switch happens while switching is forbidden; the
/// active terminal cannot be released.
pub open spec fn console_after(c: ConsoleModel, a: SessionAction) -> ConsoleModel {
    match a {
        SessionAction::Console(VtRequest::Activate(n)) => if c.switch_locked {
            c
        } else {
            ConsoleModel {
                active: n.0 as int,
                switch_locked: c.switch_locked,
                allocated: c.allocated.insert(n.0 as int),
            }
        },
        SessionAction::Console(VtRequest::LockSwitch) => ConsoleModel {
            active: c.active,
            switch_locked: true,
            allocated: c.allocated,
        },
        SessionAction::Console(VtRequest::UnlockSwitch) => ConsoleModel {
            active: c.active,
            switch_locked: false,
            allocated: c.allocated,
        },
        SessionAction::Console(VtRequest::Disallocate(n)) => if n.0 as int == c.active {
            c
        } else {
            ConsoleModel {
                active: c.active,
                switch_locked: c.switch_locked,
                allocated: c.allocated.remove(n.0 as int),
            }
        },
        _ => c,
    }
}

/// The console after a sequence of actions.
pub open spec fn console_after_all(c: ConsoleModel, actions: Seq<SessionAction>) -> ConsoleModel
    decreases actions.len(),
{
    if actions.len() == 0 {
        c
    } else {
        console_after_all(console_after(c, actions[0]), actions.drop_first())
    }
}

/// The position of the session's own work in the plan of a session on a
/// given terminal.
pub open spec fn run_index_on(locked: bool) -> int {
    if locked { 4 } else { 3 }
}

/// The position of the session's own work in the plan of a session on a
/// fresh terminal.
pub open spec fn run_index(locked: bool) -> int {
    run_index_on(locked) + 1
}

/// A session on a given terminal makes exactly the requests of its plan, one
/// per step, whatever the kernel answers to the requests that are not
/// queries, and then has nothing left to do.
pub proof fn lemma_session_on_follows_plan(locked: bool, target: Vt, replies: Seq<VtNumber>)
    requires
        replies.len() == session_plan_on(locked, target, replies[0]).len(),
    ensures
        session_trace(session_on(target, locked), replies)
            == session_plan_on(locked, target, replies[0]),
        session_after(session_on(target, locked), replies).stage == Stage::Done,
        session_action(session_after(session_on(target, locked), replies))
            == SessionAction::Finished,
{
    reveal_with_fuel(session_trace, 11);
    reveal_with_fuel(session_after, 11);
    let plan = session_plan_on(locked, target, replies[0]);
    assert(session_trace(session_on(target, locked), replies) =~= plan);
}

/// A session on a fresh terminal makes exactly the requests of its plan, one
/// per step, whatever the kernel answers to the requests that are not
/// queries, and then has nothing left to do.
pub proof fn lemma_session_follows_plan(locked: bool, replies: Seq<VtNumber>)
    requires
        replies.len() == session_plan(locked, replies[0], replies[1]).len(),
    ensures
        session_trace(initial_session(locked), replies)
            == session_plan(locked, replies[0], replies[1]),
        session_after(initial_session(locked), replies).stage == Stage::Done,
        session_action(session_after(initial_session(locked), replies))
            == SessionAction::Finished,
{
    reveal_with_fuel(session_trace, 12);
    reveal_with_fuel(session_after, 12);
    let plan = session_plan(locked, replies[0], replies[1]);
    assert(session_trace(initial_session(locked), replies) =~= plan);
}

/// A session on a given terminal leaves the console as it found it, but for
/// the target, which stays allocated: the terminal that was active is active
/// again and switching is allowed again. For a terminal that was allocated
/// before, the console is exactly as it was. This holds when the kernel's
/// answers are truthful: `active` is the active terminal, which is allocated,
/// and switching is allowed.
pub proof fn lemma_session_on_restores_console(
    locked: bool,
    target: Vt,
    active: VtNumber,
    c: ConsoleModel,
)
    requires
        c.active == active.0 as int,
        !c.switch_locked,
        c.allocated.contains(active.0 as int),
    ensures
        console_after_all(c, session_plan_on(locked, target, active)) == (ConsoleModel {
            active: c.active,
            switch_locked: false,
            allocated: c.allocated.insert(target.number.0 as int),
        }),
        c.allocated.contains(target.number.0 as int)
            ==> console_after_all(c, session_plan_on(locked, target, active)) == c,
{
    reveal_with_fuel(console_after_all, 10);
    let plan = session_plan_on(locked, target, active);
    let end = console_after_all(c, plan);
    assert(end.allocated =~= c.allocated.insert(target.number.0 as int));
    if c.allocated.contains(target.number.0 as int) {
        assert(c.allocated.insert(target.number.0 as int) =~= c.allocated);
    }
}

/// A session on a fresh terminal leaves the console as it found it: the
/// terminal that was active is active again, switching is allowed again, and
/// the terminal it borrowed is released. This holds when the kernel's answers
/// are truthful: `active` is the active terminal, which is allocated,
/// switching is allowed, and `free` is a different terminal that is not
/// allocated.
pub proof fn lemma_session_restores_console(
    locked: bool,
    free: VtNumber,
    active: VtNumber,
    c: ConsoleModel,
)
    requires
        c.active == active.0 as int,
        !c.switch_locked,
        c.allocated.contains(active.0 as int),
        !c.allocated.contains(free.0 as int),
        free.0 != active.0,
    ensures
        console_after_all(c, session_plan(locked, free, active)) == c,
{
    reveal_with_fuel(console_after_all, 12);
    let plan = session_plan(locked, free, active);
    let end = console_after_all(c, plan);
    assert(end.allocated =~= c.allocated);
}

/// While the session's own work runs on a given terminal, that terminal is
/// active and, for a locked session, switching terminals is forbidden.
pub proof fn lemma_work_runs_on_given_target(
    locked: bool,
    target: Vt,
    active: VtNumber,
    c: ConsoleModel,
)
    requires
        !c.switch_locked,
    ensures
        session_plan_on(locked, target, active)[run_index_on(locked)]
            == SessionAction::Run(target.number),
        console_after_all(
            c,
            session_plan_on(locked, target, active).take(run_index_on(locked)),
        ).active == target.number.0 as int,
        console_after_all(
            c,
            session_plan_on(locked, target, active).take(run_index_on(locked)),
        ).switch_locked == locked,
{
    reveal_with_fuel(console_after_all, 6);
    let t = target.number;
    let plan = session_plan_on(locked, target, active);
    let pre = plan.take(run_index_on(locked));
    if locked {
        assert(pre =~= seq![
            SessionAction::Console(VtRequest::GetState),
            SessionAction::Console(VtRequest::Activate(t)),
            SessionAction::Console(VtRequest::WaitActive(t)),
            SessionAction::Console(VtRequest::LockSwitch),
        ]);
    } else {
        assert(pre =~= seq![
            SessionAction::Console(VtRequest::GetState),
            SessionAction::Console(VtRequest::Activate(t)),
            SessionAction::Console(VtRequest::WaitActive(t)),
        ]);
    }
}

/// While the session's own work runs on the terminal it found, that terminal
/// is active and, for a locked session, switching terminals is forbidden.
pub proof fn lemma_work_runs_on_target(
    locked: bool,
    free: VtNumber,
    active: VtNumber,
    c: ConsoleModel,
)
    requires
        !c.switch_locked,
    ensures
        session_plan(locked, free, active)[run_index(locked)] == SessionAction::Run(free),
        console_after_all(
            c,
            session_plan(locked, free, active).take(run_index(locked)),
        ).active == free.0 as int,
        console_after_all(
            c,
            session_plan(locked, free, active).take(run_index(locked)),
        ).switch_locked == locked,
{
    let target = Vt { number: free, allocated: true };
    let plan = session_plan(locked, free, active);
    let on = session_plan_on(locked, target, active);
    lemma_work_runs_on_given_target(locked, target, active, c);
    assert(plan.take(run_index(locked)).drop_first() =~= on.take(run_index_on(locked)));
    assert(console_after(c, plan.take(run_index(locked))[0]) == c);
    assert(console_after_all(c, plan.take(run_index(locked)))
        == console_after_all(c, on.take(run_index_on(locked))));
}

} // verus!
