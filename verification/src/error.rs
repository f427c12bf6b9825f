//! The failure taxonomy of a render.

use vstd::prelude::*;

verus! {

/// Which of the two input resources a [`RenderError::ResourceError`] is about.
#[derive(Clone, Copy, Debug, PartialEq, Eq, Structural)]
pub enum ResourceKind {
    /// The instrument bank.
    Bank,
    /// The MIDI performance.
    Performance,
}

/// Why a render was abandoned.
#[derive(Clone, Copy, Debug, PartialEq, Eq, Structural)]
pub enum RenderError {
    /// An input file is missing, unreadable or structurally invalid.
    ResourceError { kind: ResourceKind },
    /// A configuration value is not a valid positive number.
    InputError,
    /// The synthesis engine cannot be built from the bank and configuration.
    EngineError,
    /// The container cannot be produced or written.
    OutputError,
}

/// The text that [`RenderError::message`] returns for each failure.
pub open spec fn message_of(error: RenderError) -> Seq<char> {
    match error {
        RenderError::ResourceError { kind: ResourceKind::Bank } => "the instrument bank could not be loaded"@,
        RenderError::ResourceError { kind: ResourceKind::Performance } => "the performance could not be loaded"@,
        RenderError::InputError => "the sample rate is not a positive number"@,
        RenderError::EngineError => "the synthesis engine could not be configured"@,
        RenderError::OutputError => "the output could not be written"@,
    }
}

impl RenderError {
    /// A single human-readable line for the failure.
    pub fn message(&self) -> (text: &'static str)
        ensures
            text@ == message_of(*self),
    {
        match self {
            RenderError::ResourceError { kind: ResourceKind::Bank } => "the instrument bank could not be loaded",
            RenderError::ResourceError { kind: ResourceKind::Performance } => "the performance could not be loaded",
            RenderError::InputError => "the sample rate is not a positive number",
            RenderError::EngineError => "the synthesis engine could not be configured",
            RenderError::OutputError => "the output could not be written",
        }
    }
}

} // verus!
