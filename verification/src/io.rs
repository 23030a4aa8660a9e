use vstd::prelude::*;

verus! {

#[verifier::external_type_specification]
#[verifier::external_body]
pub struct ExIoError(std::io::Error);

/// The kinds of I/O failure that the proxy tells apart.
#[derive(Debug, Clone, Copy, PartialEq, Eq, Structural)]
pub enum IoErrorClass {
    TimedOut,
    ConnectionAborted,
    Interrupted,
    Other,
}

/// The kind of an I/O error, as `std::io::Error::kind` gives it, told apart
/// as `IoErrorClass` does (every kind not listed there is `Other`).
pub uninterp spec fn io_error_class(e: std::io::Error) -> IoErrorClass;

/// The message an I/O error was made with by `std::io::Error::new`, which is
/// what it displays.
pub uninterp spec fn io_error_message(e: std::io::Error) -> Seq<char>;

/// Calls `std::io::Error::new` with the `std::io::ErrorKind` that `class`
/// names and with `message` as the payload. Claimed, as std documents it:
/// the error's kind is the one given, and it carries the message given.
#[verifier::external_body]
fn new_io_error(class: IoErrorClass, message: &str) -> (res: std::io::Error)
    ensures
        io_error_class(res) == class,
        io_error_message(res) == message@,
{
    let kind = match class {
        IoErrorClass::TimedOut => std::io::ErrorKind::TimedOut,
        IoErrorClass::ConnectionAborted => std::io::ErrorKind::ConnectionAborted,
        IoErrorClass::Interrupted => std::io::ErrorKind::Interrupted,
        IoErrorClass::Other => std::io::ErrorKind::Other,
    };
    std::io::Error::new(kind, message)
}

/// The error a read reports when its deadline has passed: kind `TimedOut`,
/// message "connection timed out".
pub fn timed_out() -> (e: std::io::Error)
    ensures
        io_error_class(e) == IoErrorClass::TimedOut,
        io_error_message(e) == "connection timed out"@,
{
    new_io_error(IoErrorClass::TimedOut, "connection timed out")
}

} // verus!
