use vstd::prelude::*;

verus! {

/// Why a run stopped.
///
/// The causes that come from outside the library (a failed read, a failed
/// request, a body that does not parse) are carried as their messages.
#[derive(Debug, Clone, PartialEq, Eq)]
pub enum WpError {
    /// A file could not be read or written, or the command could not run.
    Io(String),
    /// A request could not be sent or its body could not be read.
    Network(String),
    /// A configuration file or a response body is not of the expected shape.
    Parse(String),
    /// The index given on the command line is not an unsigned integer.
    ArgumentParse,
    /// The requested index names no item of the collection.
    OutOfBounds,
}

} // verus!
