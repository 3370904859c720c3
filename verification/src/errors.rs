//! Error taxonomy of the contract compiler.
//!
//! Fatal classes stop a build before any artifact is produced; runtime
//! failures are ordinary values that calling code must branch on and are
//! modelled in `engine` and `bus`, not here.

use vstd::prelude::*;
use vstd::string::StringExecFns;

verus! {

/// The ways an interface or event definition can be malformed.
#[derive(Debug, Clone, Copy, PartialEq, Eq, Structural)]
pub enum DefinitionFault {
    /// Two methods of one interface definition share a name.
    DuplicateMethod,
    /// Two parameters of one method share a name.
    DuplicateParam,
    /// A method declares an implicit receiver parameter.
    ReceiverParam,
    /// A parameter's binding pattern is not a simple name.
    UnsupportedPattern,
    /// Two events of one registry share a name.
    DuplicateEvent,
}

/// A fatal definition error: generation aborts with the offending
/// identifiers named.
#[derive(Debug, Clone, PartialEq, Eq)]
pub struct DefinitionError {
    pub fault: DefinitionFault,
    /// The method or event the fault was found in (for a duplicate method
    /// or event, the duplicated name itself).
    pub item: String,
    /// The offending parameter name or pattern, where one exists.
    pub detail: String,
}

/// The two ways the pair of event-mode build gates can be misconfigured.
#[derive(Debug, Clone, Copy, PartialEq, Eq, Structural)]
pub enum GateFault {
    /// Both the emit-capable and the listen-capable gate are active.
    BothGates,
    /// Neither gate is active.
    NeitherGate,
}

/// A fatal configuration error: the event-mode build gates conflict or are
/// missing.
#[derive(Debug, Clone, Copy, PartialEq, Eq, Structural)]
pub struct ConfigurationError {
    pub fault: GateFault,
}

/// Any fatal error of a generation pass.
#[derive(Debug, Clone, PartialEq, Eq)]
pub enum GenError {
    Configuration(ConfigurationError),
    Definition(DefinitionError),
}

/// The text of a definition error: the fault, the offending method or
/// event, and the offending parameter where one exists.
pub open spec fn definition_error_text(e: DefinitionError) -> Seq<char> {
    match e.fault {
        DefinitionFault::DuplicateMethod => "duplicate method name: "@ + e.item@,
        DefinitionFault::DuplicateEvent => "duplicate event name: "@ + e.item@,
        DefinitionFault::ReceiverParam => "receiver parameter in method "@ + e.item@ + ": "@
            + e.detail@,
        DefinitionFault::UnsupportedPattern => "unsupported parameter pattern in method "@
            + e.item@ + ": "@ + e.detail@,
        DefinitionFault::DuplicateParam => "duplicate parameter name in method "@ + e.item@ + ": "@
            + e.detail@,
    }
}

/// The text of a configuration error: which gate conflicts or is missing.
pub open spec fn configuration_error_text(c: ConfigurationError) -> Seq<char> {
    match c.fault {
        GateFault::BothGates => "both the emit-capable and the listen-capable gate are active; exactly one must be"@,
        GateFault::NeitherGate => "neither the emit-capable nor the listen-capable gate is active; exactly one must be"@,
    }
}

impl DefinitionError {
    /// Renders the error, naming the offending identifiers.
    pub fn message(&self) -> (r: String)
        ensures
            r@ == definition_error_text(*self),
    {
        match self.fault {
            DefinitionFault::DuplicateMethod => String::from_str("duplicate method name: ").concat(
                self.item.as_str(),
            ),
            DefinitionFault::DuplicateEvent => String::from_str("duplicate event name: ").concat(
                self.item.as_str(),
            ),
            DefinitionFault::ReceiverParam => String::from_str(
                "receiver parameter in method ",
            ).concat(self.item.as_str()).concat(": ").concat(self.detail.as_str()),
            DefinitionFault::UnsupportedPattern => String::from_str(
                "unsupported parameter pattern in method ",
            ).concat(self.item.as_str()).concat(": ").concat(self.detail.as_str()),
            DefinitionFault::DuplicateParam => String::from_str(
                "duplicate parameter name in method ",
            ).concat(self.item.as_str()).concat(": ").concat(self.detail.as_str()),
        }
    }
}

impl ConfigurationError {
    /// Renders the error, naming the conflicting or missing gate.
    pub fn message(&self) -> (r: String)
        ensures
            r@ == configuration_error_text(*self),
    {
        match self.fault {
            GateFault::BothGates => String::from_str(
                "both the emit-capable and the listen-capable gate are active; exactly one must be",
            ),
            GateFault::NeitherGate => String::from_str(
                "neither the emit-capable nor the listen-capable gate is active; exactly one must be",
            ),
        }
    }
}

impl GenError {
    /// Renders whichever fatal error stopped the build.
    pub fn message(&self) -> (r: String)
        ensures
            *self matches GenError::Definition(d) ==> r@ == definition_error_text(d),
            *self matches GenError::Configuration(c) ==> r@ == configuration_error_text(c),
    {
        match self {
            GenError::Definition(d) => d.message(),
            GenError::Configuration(c) => c.message(),
        }
    }
}

} // verus!
