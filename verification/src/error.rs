use vstd::prelude::*;

verus! {

/// Why an analysis step produced no result.
///
/// Every step of the analysis either yields its full result or one of these;
/// there are no partial results.
#[derive(Clone, Copy, Debug, PartialEq, Eq, Structural)]
pub enum AnalysisError {
    /// The file is not an object file that can be read.
    ParseError,
    /// The object file has no section of executable code.
    MissingSectionError,
    /// The signature of the dispatch routine does not occur in the code section.
    DispatchNotFoundError,
    /// The signature of a handler does not occur in the file.
    HandlerNotFoundError,
    /// No run of padding bytes bounds the routine.
    NoMethodBoundaryError,
    /// The instruction decoder could not be set up or run.
    DecodeSetupError,
    /// The dispatch routine holds no load from a jump table.
    JumpTableNotFoundError,
    /// No instruction of the dispatch routine transfers control to the handler.
    XrefNotFoundError,
    /// No scanned entry of the jump table leads to the handler's block.
    EntryNotFoundError,
}

impl AnalysisError {
    /// True for the two errors that report an absent byte signature.
    pub open spec fn pattern_not_found(self) -> bool {
        self == AnalysisError::DispatchNotFoundError || self == AnalysisError::HandlerNotFoundError
    }

    /// True for the errors that end a whole run: without the image, the
    /// dispatch routine and the jump table no handler can be resolved.
    pub open spec fn fatal(self) -> bool {
        !(self == AnalysisError::HandlerNotFoundError || self == AnalysisError::XrefNotFoundError
            || self == AnalysisError::EntryNotFoundError)
    }

    pub fn is_pattern_not_found(&self) -> (b: bool)
        ensures
            b == self.pattern_not_found(),
    {
        match self {
            AnalysisError::DispatchNotFoundError => true,
            AnalysisError::HandlerNotFoundError => true,
            _ => false,
        }
    }

    pub fn is_fatal(&self) -> (b: bool)
        ensures
            b == self.fatal(),
    {
        match self {
            AnalysisError::HandlerNotFoundError => false,
            AnalysisError::XrefNotFoundError => false,
            AnalysisError::EntryNotFoundError => false,
            _ => true,
        }
    }

    /// The text of the message for each error.
    pub open spec fn message_text(self) -> Seq<char> {
        match self {
            AnalysisError::ParseError => "file is not a readable object file"@,
            AnalysisError::MissingSectionError => "no executable code section"@,
            AnalysisError::DispatchNotFoundError => "dispatch routine signature not found"@,
            AnalysisError::HandlerNotFoundError => "handler signature not found"@,
            AnalysisError::NoMethodBoundaryError => "no padding run bounds the routine"@,
            AnalysisError::DecodeSetupError => "instruction decoder could not be set up"@,
            AnalysisError::JumpTableNotFoundError => "jump table load not found"@,
            AnalysisError::XrefNotFoundError => "no call site reaches the handler"@,
            AnalysisError::EntryNotFoundError => "no jump table entry matches"@,
        }
    }

    /// A message that names the step that failed.
    pub fn message(&self) -> (s: &'static str)
        ensures
            s@ == self.message_text(),
    {
        match self {
            AnalysisError::ParseError => "file is not a readable object file",
            AnalysisError::MissingSectionError => "no executable code section",
            AnalysisError::DispatchNotFoundError => "dispatch routine signature not found",
            AnalysisError::HandlerNotFoundError => "handler signature not found",
            AnalysisError::NoMethodBoundaryError => "no padding run bounds the routine",
            AnalysisError::DecodeSetupError => "instruction decoder could not be set up",
            AnalysisError::JumpTableNotFoundError => "jump table load not found",
            AnalysisError::XrefNotFoundError => "no call site reaches the handler",
            AnalysisError::EntryNotFoundError => "no jump table entry matches",
        }
    }
}

} // verus!
