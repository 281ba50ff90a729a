use vstd::prelude::*;

verus! {

/// The startup errors of the player. All of them are fatal: none is retried
/// and each is reported once. The `Amplitude` variant carries the bit pattern
/// of the rejected value.
#[derive(Clone, Copy, PartialEq, Eq, Structural, Debug)]
pub enum Error {
    /// The diagnostic filter could not be read from the environment.
    TracingEnv,
    /// The diagnostic subscriber could not be installed.
    TracingInit,
    /// The termination-signal handler could not be registered.
    CtrlC,
    /// The default audio output stream could not be opened.
    Stream,
    /// The requested gain lies outside the accepted numeric domain.
    Amplitude(u32),
}

impl Error {
    /// The human-readable report for this error, one line, without the
    /// offending value.
    pub open spec fn message_spec(self) -> Seq<char> {
        match self {
            Error::TracingEnv => "Could not set up tracing filter"@,
            Error::TracingInit => "Could not set up tracing registry"@,
            Error::CtrlC => "Cannot trap ctrl+C"@,
            Error::Stream => "Could not set up audio stream"@,
            Error::Amplitude(_) => "Unsupported amplitude"@,
        }
    }

    pub fn message(&self) -> (r: &'static str)
        ensures
            r@ == self.message_spec(),
    {
        match self {
            Error::TracingEnv => "Could not set up tracing filter",
            Error::TracingInit => "Could not set up tracing registry",
            Error::CtrlC => "Cannot trap ctrl+C",
            Error::Stream => "Could not set up audio stream",
            Error::Amplitude(_) => "Unsupported amplitude",
        }
    }
}

} // verus!
