//! Temporarily redirecting a standard stream to another file: the stream's
//! descriptor is first duplicated (so it can be put back), then made to refer
//! to the new file. The guard names the call that puts the saved file back,
//! `restore_call`; the program makes that call when it is done with the
//! redirection.
use vstd::prelude::*;
use std::marker::PhantomData;
use crate::errno::{check_minus_one_errno, SysError};

verus! {

/// A call on file descriptors.
#[derive(Debug, Clone, Copy, PartialEq, Eq, Structural)]
pub enum FdCall {
    /// `dup(fd)`: a new descriptor for the file of `fd`.
    Dup { fd: i32 },
    /// `dup2(src, dst)`: make `dst` refer to the file of `src`.
    Dup2 { src: i32, dst: i32 },
}

/// A redirected stream: `old_fd` refers to another file until the program
/// makes the guard's `restore_call`; `temp_fd` holds the file it referred to
/// before. The redirection
/// belongs to the thread that made it: a guard is neither `Send` nor `Sync`.
pub struct Guard<'sw, T> {
    old_fd: i32,
    temp_fd: i32,
    _m: PhantomData<std::rc::Rc<()>>,
    _m2: PhantomData<&'sw T>,
}

impl<'sw, T> Guard<'sw, T> {
    /// The redirected descriptor.
    pub closed spec fn redirected(self) -> i32 {
        self.old_fd
    }

    /// The descriptor that keeps the original file.
    pub closed spec fn saved(self) -> i32 {
        self.temp_fd
    }

    /// The redirected descriptor.
    pub fn old_fd(&self) -> (fd: i32)
        ensures
            fd == self.redirected(),
    {
        self.old_fd
    }

    /// The descriptor that keeps the original file.
    pub fn temp_fd(&self) -> (fd: i32)
        ensures
            fd == self.saved(),
    {
        self.temp_fd
    }

    /// The call that undoes the redirection: the saved file is put back under
    /// the redirected descriptor.
    pub fn restore_call(&self) -> (c: FdCall)
        ensures
            c == (FdCall::Dup2 { src: self.saved(), dst: self.redirected() }),
    {
        FdCall::Dup2 { src: self.temp_fd, dst: self.old_fd }
    }
}

/// The acquisition of a guard that redirects `old_fd` to the file of
/// `new_fd`; `saved` is the duplicate of `old_fd` once it was made.
#[derive(Debug, Clone, Copy, PartialEq, Eq, Structural)]
pub struct Acquisition {
    pub new_fd: i32,
    pub old_fd: i32,
    pub saved: Option<i32>,
}

/// The call an acquisition needs next: first save the old descriptor, then
/// redirect it.
pub open spec fn acquisition_call(a: Acquisition) -> FdCall {
    match a.saved {
        None => FdCall::Dup { fd: a.old_fd },
        Some(_) => FdCall::Dup2 { src: a.new_fd, dst: a.old_fd },
    }
}

/// One step of an acquisition.
pub enum AcquireStep<'sw, T> {
    /// The old descriptor was saved; the redirection comes next.
    Continue(Acquisition),
    /// The stream is redirected.
    Acquired(Guard<'sw, T>),
}

impl Acquisition {
    /// An acquisition that has made no call yet.
    pub fn new(new_fd: i32, old_fd: i32) -> (a: Acquisition)
        ensures
            a == (Acquisition { new_fd, old_fd, saved: None }),
    {
        Acquisition { new_fd, old_fd, saved: None }
    }

    /// The call to make next.
    pub fn next_call(&self) -> (c: FdCall)
        ensures
            c == acquisition_call(*self),
            self.saved is None ==> c == (FdCall::Dup { fd: self.old_fd }),
            self.saved is Some ==> c == (FdCall::Dup2 { src: self.new_fd, dst: self.old_fd }),
    {
        match self.saved {
            None => FdCall::Dup { fd: self.old_fd },
            Some(_) => FdCall::Dup2 { src: self.new_fd, dst: self.old_fd },
        }
    }

    /// Takes the return value of the call made, failing as soon as a call
    /// reports `-1`. A failed redirection leaves the saved duplicate open.
    pub fn advance<'sw, T>(self, ret: i32) -> (r: Result<AcquireStep<'sw, T>, SysError>)
        ensures
            r is Err <==> ret == -1,
            self.saved is None ==> (r matches Ok(step) ==> step matches AcquireStep::Continue(a)
                && a == (Acquisition { new_fd: self.new_fd, old_fd: self.old_fd, saved: Some(ret) })),
            self.saved matches Some(t) ==> (r matches Ok(step) ==> step matches AcquireStep::Acquired(g)
                && g.redirected() == self.old_fd && g.saved() == t),
    {
        let checked = check_minus_one_errno(ret);
        match checked {
            Err(e) => Err(e),
            Ok(v) => match self.saved {
                None => Ok(AcquireStep::Continue(
                    Acquisition { new_fd: self.new_fd, old_fd: self.old_fd, saved: Some(v) },
                )),
                Some(t) => Ok(AcquireStep::Acquired(
                    Guard { old_fd: self.old_fd, temp_fd: t, _m: PhantomData, _m2: PhantomData },
                )),
            },
        }
    }
}

/// An acquisition first duplicates the descriptor to be redirected, and once
/// that duplicate is saved, whatever its number, it makes the redirected
/// descriptor refer to the new file: `dup(old_fd)`, then
/// `dup2(new_fd, old_fd)`.
pub proof fn lemma_save_then_redirect(new_fd: i32, old_fd: i32, saved: i32)
    ensures
        acquisition_call(Acquisition { new_fd, old_fd, saved: None }) == (FdCall::Dup { fd: old_fd }),
        acquisition_call(Acquisition { new_fd, old_fd, saved: Some(saved) })
            == (FdCall::Dup2 { src: new_fd, dst: old_fd }),
{
}

/// The files that descriptors refer to after a call that returned `ret`:
/// `dup` returns a descriptor that was not open, now for the same file (an
/// answer naming an open descriptor is no such result and changes nothing);
/// `dup2` makes its target refer to the file of its source; a call that
/// returned `-1` changed nothing.
pub open spec fn fd_after(table: Map<int, int>, call: FdCall, ret: int) -> Map<int, int> {
    if ret == -1 {
        table
    } else {
        match call {
            FdCall::Dup { fd } => if table.dom().contains(ret) {
                table
            } else {
                table.insert(ret, table[fd as int])
            },
            FdCall::Dup2 { src, dst } => table.insert(dst as int, table[src as int]),
        }
    }
}

/// Redirecting a stream and then restoring it with the call of the guard that
/// the acquisition produced: while the guard lives the old
/// descriptor refers to the new file and the saved descriptor to the old one;
/// after the restoring call every descriptor refers to the file it referred
/// to before, the saved duplicate aside. This holds when the calls succeed as
/// the kernel defines them: `dup` returns a descriptor `temp` that was not
/// open and `dup2` returns its target.
pub proof fn lemma_switch_then_restore<'sw, T>(
    new_fd: i32,
    old_fd: i32,
    temp: i32,
    table: Map<int, int>,
    guard: Guard<'sw, T>,
)
    requires
        guard.redirected() == old_fd,
        guard.saved() == temp,
        table.dom().contains(new_fd as int),
        table.dom().contains(old_fd as int),
        !table.dom().contains(temp as int),
        temp != -1,
        old_fd != -1,
    ensures
        ({
            let a0 = Acquisition { new_fd, old_fd, saved: None };
            let a1 = Acquisition { new_fd, old_fd, saved: Some(temp) };
            let t1 = fd_after(table, acquisition_call(a0), temp as int);
            let t2 = fd_after(t1, acquisition_call(a1), old_fd as int);
            let t3 = fd_after(t2, FdCall::Dup2 { src: guard.saved(), dst: guard.redirected() }, old_fd as int);
            &&& t2[old_fd as int] == table[new_fd as int]
            &&& t2[temp as int] == table[old_fd as int]
            &&& t3.dom() == table.dom().insert(temp as int)
            &&& forall|fd: int| #[trigger] table.dom().contains(fd) ==> t3[fd] == table[fd]
        }),
{
    let a0 = Acquisition { new_fd, old_fd, saved: None };
    let a1 = Acquisition { new_fd, old_fd, saved: Some(temp) };
    let t1 = fd_after(table, acquisition_call(a0), temp as int);
    let t2 = fd_after(t1, acquisition_call(a1), old_fd as int);
    let t3 = fd_after(t2, FdCall::Dup2 { src: temp, dst: old_fd }, old_fd as int);
    assert(t3.dom() =~= table.dom().insert(temp as int));
}

} // verus!
