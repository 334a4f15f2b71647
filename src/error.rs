use vstd::prelude::*;

verus! {

/// The kinds of failure of the build helpers.
#[derive(Debug, Clone, Copy, PartialEq, Eq, Structural)]
pub enum BuildError {
    /// The input file could not be read.
    IoFailure,
    /// The bytes are not a valid ELF image.
    FormatFailure,
    /// A required symbol is absent, or a symbol name could not be read.
    SymbolResolutionFailure,
    /// The region's end symbol lies before its start symbol.
    RegionInvariantFailure,
    /// An external tool could not be found.
    ToolNotFound,
    /// An external tool failed to start or exited with a failure status.
    ToolExecutionFailure,
}

/// The message of each kind of failure.
pub open spec fn message_text(e: BuildError) -> Seq<char> {
    match e {
        BuildError::IoFailure => "io failure: the file could not be read"@,
        BuildError::FormatFailure => "format failure: not a valid ELF image"@,
        BuildError::SymbolResolutionFailure => "symbol resolution failure: a region symbol is missing or unreadable"@,
        BuildError::RegionInvariantFailure => "region invariant failure: the region ends before it starts"@,
        BuildError::ToolNotFound => "tool not found"@,
        BuildError::ToolExecutionFailure => "tool execution failure"@,
    }
}

impl BuildError {
    /// A short description of the failure, tagged with its kind.
    pub fn message(&self) -> (r: String)
        ensures
            r@ == message_text(*self),
    {
        match self {
            BuildError::IoFailure => "io failure: the file could not be read".to_owned(),
            BuildError::FormatFailure => "format failure: not a valid ELF image".to_owned(),
            BuildError::SymbolResolutionFailure => "symbol resolution failure: a region symbol is missing or unreadable".to_owned(),
            BuildError::RegionInvariantFailure => "region invariant failure: the region ends before it starts".to_owned(),
            BuildError::ToolNotFound => "tool not found".to_owned(),
            BuildError::ToolExecutionFailure => "tool execution failure".to_owned(),
        }
    }
}

} // verus!
