//! Verified core of a console screen locker: the virtual-terminal session
//! protocol, the standard-stream switch, the controlling-terminal setup and
//! the decisions of the password prompt. The system calls themselves are made
//! by the program around this library. The library decides which call comes
//! next and how a `-1` result is read; for the console requests it also gives
//! the request number and the integer argument. The program supplies the
//! buffers of the two console queries and reads them back, and it passes the
//! `TIOCSCTTY` request number and its argument itself.

pub mod errno;
pub mod prompt;
pub mod session;
pub mod stream_switch;
pub mod tty;
pub mod vt;

pub use errno::{check_minus_one_errno, SysError};
pub use session::VtRequest;
pub use stream_switch::Guard;
pub use vt::{Vt, VtNumber};
