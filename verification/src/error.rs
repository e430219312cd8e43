//! The error taxonomy of the engine-invocation layer.
//!
//! Every failure is terminal for its invocation and keeps its kind until the
//! outermost boundary, where [`FriedmanError::message`] flattens it to a
//! display string.

use vstd::prelude::*;

verus! {

#[derive(Debug)]
pub enum FriedmanError {
    /// The engine could not be located or its process could not be created.
    SidecarExec(String),
    /// The engine ran but exited non-zero; the computation failed.
    SidecarExit { code: i32, stderr: String },
    /// The engine exited zero but no JSON value could be extracted from its
    /// output; the payload carries the raw standard output for diagnosis.
    JsonParse(String),
    /// A local filesystem failure during dataset ingestion.
    Io(String),
    /// Invalid parameters detected before any subprocess was spawned.
    InvalidParams(String),
}

impl FriedmanError {
    /// The stable human-readable message shown at the boundary to the
    /// caller; each kind keeps a fixed prefix.
    pub fn message(&self) -> (r: String)
        ensures
            match *self {
                FriedmanError::SidecarExec(ref m) => r@ == "Sidecar execution failed: "@ + m@,
                FriedmanError::SidecarExit { code: _, stderr: ref m } => r@
                    == "Sidecar returned non-zero exit: "@ + m@,
                FriedmanError::JsonParse(ref m) => r@ == "Failed to parse JSON output: "@ + m@,
                FriedmanError::Io(ref m) => r@ == "IO error: "@ + m@,
                FriedmanError::InvalidParams(ref m) => r@ == "Invalid parameters: "@ + m@,
            },
    {
        match self {
            FriedmanError::SidecarExec(m) => {
                let mut s = String::from_str("Sidecar execution failed: ");
                s.append(m.as_str());
                s
            },
            FriedmanError::SidecarExit { code: _, stderr: m } => {
                let mut s = String::from_str("Sidecar returned non-zero exit: ");
                s.append(m.as_str());
                s
            },
            FriedmanError::JsonParse(m) => {
                let mut s = String::from_str("Failed to parse JSON output: ");
                s.append(m.as_str());
                s
            },
            FriedmanError::Io(m) => {
                let mut s = String::from_str("IO error: ");
                s.append(m.as_str());
                s
            },
            FriedmanError::InvalidParams(m) => {
                let mut s = String::from_str("Invalid parameters: ");
                s.append(m.as_str());
                s
            },
        }
    }
}

} // verus!
