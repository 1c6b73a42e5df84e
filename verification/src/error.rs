//! What went wrong, and on which line.

use vstd::prelude::*;

verus! {

/// A physical connection to the display: a line of the parallel interface,
/// or the two-wire bus as a whole.
#[derive(Clone, Copy, Debug, PartialEq, Eq, Structural)]
pub enum Port {
    RS,
    EN,
    D0,
    D1,
    D2,
    D3,
    D4,
    D5,
    D6,
    D7,
    I2C,
}

/// A failure of the hardware underneath a transport.
#[derive(Debug)]
pub enum Error<E> {
    /// Driving `port` failed with `error`.
    Io { port: Port, error: E },
}

impl<E> Error<E> {
    /// Tags a hardware error with the port it came from.
    pub fn wrap_io(port: Port, error: E) -> (wrapped: Error<E>)
        ensures
            wrapped == (Error::Io { port, error }),
    {
        Error::Io { port, error }
    }

    /// The port that failed.
    pub fn port(&self) -> (port: Port)
        ensures
            port == self->port,
    {
        match self {
            Error::Io { port, .. } => *port,
        }
    }

    /// The error as the hardware reported it.
    pub fn into_inner(self) -> (error: E)
        ensures
            error == self->error,
    {
        match self {
            Error::Io { error, .. } => error,
        }
    }
}

} // verus!
