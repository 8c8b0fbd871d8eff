//! Making a terminal the controlling terminal of the calling process: start a
//! new session (`setsid`), then claim the terminal (`ioctl(fd, TIOCSCTTY, 0)`).
use vstd::prelude::*;
use crate::errno::{check_minus_one_errno, SysError};

verus! {

/// A call of the controlling-terminal setup.
#[derive(Debug, Clone, Copy, PartialEq, Eq, Structural)]
pub enum TtyCall {
    /// `setsid()`.
    NewSession,
    /// `ioctl(fd, TIOCSCTTY, 0)`.
    SetControllingTty { fd: i32 },
}

/// The setup in progress. With `check_session`, a failed `setsid` ends the
/// setup with its error; without, its result is not looked at.
#[derive(Debug, Clone, Copy, PartialEq, Eq, Structural)]
pub struct TtySetup {
    pub fd: i32,
    pub check_session: bool,
    pub session_started: bool,
}

/// One step of the setup.
#[derive(Debug, Clone, Copy, PartialEq, Eq, Structural)]
pub enum TtyStep {
    Continue(TtySetup),
    /// The terminal was claimed; the value the claiming call returned.
    Done(i32),
}

/// The call the setup needs next.
pub open spec fn tty_call(s: TtySetup) -> TtyCall {
    if s.session_started {
        TtyCall::SetControllingTty { fd: s.fd }
    } else {
        TtyCall::NewSession
    }
}

impl TtySetup {
    /// A setup that has made no call yet.
    pub fn new(fd: i32, check_session: bool) -> (s: TtySetup)
        ensures
            s == (TtySetup { fd, check_session, session_started: false }),
    {
        TtySetup { fd, check_session, session_started: false }
    }

    /// The call to make next.
    pub fn next_call(&self) -> (c: TtyCall)
        ensures
            c == tty_call(*self),
            !self.session_started ==> c == TtyCall::NewSession,
            self.session_started ==> c == (TtyCall::SetControllingTty { fd: self.fd }),
    {
        if self.session_started {
            TtyCall::SetControllingTty { fd: self.fd }
        } else {
            TtyCall::NewSession
        }
    }

    /// Takes the return value of the call made.
    pub fn advance(self, ret: i32) -> (r: Result<TtyStep, SysError>)
        ensures
            !self.session_started ==> {
                &&& r is Err <==> (self.check_session && ret == -1)
                &&& r matches Ok(step) ==> step == TtyStep::Continue(
                    TtySetup { fd: self.fd, check_session: self.check_session, session_started: true },
                )
            },
            self.session_started ==> {
                &&& r is Err <==> ret == -1
                &&& r matches Ok(step) ==> step == TtyStep::Done(ret)
            },
    {
        if !self.session_started {
            if self.check_session {
                match check_minus_one_errno(ret) {
                    Err(e) => { return Err(e); },
                    Ok(_) => {},
                }
            }
            Ok(TtyStep::Continue(
                TtySetup { fd: self.fd, check_session: self.check_session, session_started: true },
            ))
        } else {
            match check_minus_one_errno(ret) {
                Err(e) => Err(e),
                Ok(v) => Ok(TtyStep::Done(v)),
            }
        }
    }
}

/// Whether or not the result of `setsid` is checked, a setup first starts a
/// new session and only then claims the terminal, and it claims the terminal
/// it was made for: the first call of a fresh setup is `setsid`; once the
/// session step is taken (and, when checked, succeeded), the next call is
/// `TIOCSCTTY` on `fd`.
pub proof fn lemma_session_before_claim(fd: i32, check_session: bool)
    ensures
        tty_call(TtySetup { fd, check_session, session_started: false }) == TtyCall::NewSession,
        tty_call(TtySetup { fd, check_session, session_started: true })
            == (TtyCall::SetControllingTty { fd }),
{
}

} // verus!
