//! Output destinations a status line can be written to, and the trusted
//! edge where bytes leave the library for the standard streams.

use vstd::prelude::*;

verus! {

/// The one error this library surfaces: a write or flush to a standard
/// stream failed.
#[derive(Copy, Clone, Debug, PartialEq, Eq, Structural)]
pub struct IoError;

/// Where a status line goes: standard output, standard error, or a
/// caller-owned capture buffer. Writes to `Custom` append to the buffer and
/// cannot fail; the buffer stays with the caller, who reads it back after
/// printing.
pub enum CarlogStream {
    Stdout,
    Stderr,
    Custom(String),
}

impl Default for CarlogStream {
    /// The default destination is standard output.
    fn default() -> (r: Self)
        ensures
            r is Stdout,
    {
        CarlogStream::Stdout
    }
}

/// Relies on std::io::Write::write_all for std::io::Stdout: writes every
/// byte of `s` to standard output or reports the first failure.
#[verifier::external_body]
pub(crate) fn stdout_write(s: &str) -> (r: Result<(), IoError>) {
    match std::io::Write::write_all(&mut std::io::stdout(), s.as_bytes()) {
        Ok(_) => Ok(()),
        Err(_) => Err(IoError),
    }
}

/// Relies on std::io::Write::flush for std::io::Stdout: flushes standard
/// output or reports the failure.
#[verifier::external_body]
pub(crate) fn stdout_flush() -> (r: Result<(), IoError>) {
    match std::io::Write::flush(&mut std::io::stdout()) {
        Ok(_) => Ok(()),
        Err(_) => Err(IoError),
    }
}

/// Relies on std::io::Write::write_all for std::io::Stderr: writes every
/// byte of `s` to standard error or reports the first failure.
#[verifier::external_body]
pub(crate) fn stderr_write(s: &str) -> (r: Result<(), IoError>) {
    match std::io::Write::write_all(&mut std::io::stderr(), s.as_bytes()) {
        Ok(_) => Ok(()),
        Err(_) => Err(IoError),
    }
}

/// Relies on std::io::Write::flush for std::io::Stderr: flushes standard
/// error or reports the failure.
#[verifier::external_body]
pub(crate) fn stderr_flush() -> (r: Result<(), IoError>) {
    match std::io::Write::flush(&mut std::io::stderr()) {
        Ok(_) => Ok(()),
        Err(_) => Err(IoError),
    }
}

} // verus!
