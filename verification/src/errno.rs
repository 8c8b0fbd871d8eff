use vstd::prelude::*;

verus! {

/// The error type of the operating system's calls.
#[verifier::external_type_specification]
#[verifier::external_body]
pub struct ExIoError(std::io::Error);

/// An error reported by a system call, as read from `errno`.
pub type SysError = std::io::Error;

/// Reads the calling thread's last operating-system error
/// (`std::io::Error::last_os_error`). What comes back depends on `errno`,
/// which this library does not model, so nothing is stated of it.
#[verifier::external_body]
fn last_os_error() -> (err: std::io::Error) {
    std::io::Error::last_os_error()
}

/// Interprets the return value of a C call that reports failure with `-1`:
/// `-1` becomes the thread's last operating-system error, any other value is
/// handed back unchanged.
pub fn check_minus_one_errno(ret: i32) -> (res: Result<i32, SysError>)
    ensures
        res is Err <==> ret == -1,
        res matches Ok(v) ==> v == ret,
{
    if ret == -1 {
        Err(last_os_error())
    } else {
        Ok(ret)
    }
}

} // verus!
