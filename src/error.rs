use vstd::prelude::*;

verus! {

/// Why an annotated function could not be instrumented. Positions count the
/// directive's entries, or the function's parameters, from zero.
#[derive(Clone, Copy, Debug, PartialEq, Eq, Structural)]
pub enum LogcallError {
    /// An entry that is neither `name = value` nor a leading string literal.
    UnexpectedArgument { position: usize },
    /// A `name = value` entry whose name is not one of the directive's own.
    UnknownArgument { position: usize },
    /// A value of the wrong shape for its name.
    InvalidValue { position: usize },
    /// The leading string literal together with `egress = ...`.
    EgressTwice,
    /// The leading string literal together with `ok` or `err`.
    PlainWithOutcome,
    /// Neither an ingress nor an egress level was given.
    NoOp,
    /// A level name outside trace, debug, info, warn and error.
    UnknownLevel { position: usize },
    /// The older wrapper shape that boxes a call of a nested suspending function.
    UnsupportedLegacyWrapper,
    /// A parameter that is a pattern rather than a plain name.
    UnnamedParameter { position: usize },
}

} // verus!
