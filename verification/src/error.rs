//! Error taxonomy of the engine.

use vstd::prelude::*;

verus! {

/// A typed condition returned to the caller when command processing
/// fails. No failure is silently swallowed and none is retried here;
/// the surrounding pipeline decides what to do with each condition.
#[derive(Clone, Copy, Debug, PartialEq, Eq, Structural)]
pub enum Error {
    /// The command set is empty, the first command's variant does not
    /// match what the handler expects, or a command's wire bytes are
    /// not well-formed for their opcode.
    MalformedInput,
    /// The device has no active session to mutate; the device must
    /// (re)join before its commands can be processed.
    MissingSession,
    /// A recognized wire opcode with no implemented handler, or an
    /// opcode unknown to the decoder.
    UnsupportedCommand,
}

impl Error {
    /// A short description of the condition, for diagnostics.
    pub fn describe(&self) -> (r: &'static str)
        ensures
            self is MalformedInput ==> r@ == "malformed input"@,
            self is MissingSession ==> r@ == "missing device session"@,
            self is UnsupportedCommand ==> r@ == "unsupported command"@,
    {
        match self {
            Error::MalformedInput => "malformed input",
            Error::MissingSession => "missing device session",
            Error::UnsupportedCommand => "unsupported command",
        }
    }
}

} // verus!
