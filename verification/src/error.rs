//! The failures that the booster reports.

use crate::text::{decimal, push_decimal};
use vstd::prelude::*;
use vstd::string::StringExecFns;

verus! {

/// What can go wrong while boosting or restoring processes.
#[derive(Debug, PartialEq, Eq)]
pub enum BoosterError {
    /// No handle to the process could be acquired.
    ProcessOpenFailed { pid: u32, reason: String },
    /// The handle was acquired, but the priority class could not be set.
    PrioritySetFailed { pid: u32, reason: String },
    /// The process failed a safety check other than the path whitelist.
    SafetyCheckFailed { pid: u32, reason: String },
    /// The executable of the process lies outside every allowed directory.
    PathValidationFailed { pid: u32, reason: String },
    /// No process was boosted in the whole pass.
    NoProcessesFound,
    /// More candidates than the engine is willing to touch.
    TooManyProcesses { found: usize, max: usize },
}

/// A `BoosterError` with its texts as character sequences.
pub enum BoosterErrorView {
    ProcessOpenFailed { pid: u32, reason: Seq<char> },
    PrioritySetFailed { pid: u32, reason: Seq<char> },
    SafetyCheckFailed { pid: u32, reason: Seq<char> },
    PathValidationFailed { pid: u32, reason: Seq<char> },
    NoProcessesFound,
    TooManyProcesses { found: usize, max: usize },
}

impl View for BoosterError {
    type V = BoosterErrorView;

    open spec fn view(&self) -> BoosterErrorView {
        match *self {
            BoosterError::ProcessOpenFailed { pid, reason } => BoosterErrorView::ProcessOpenFailed {
                pid,
                reason: reason@,
            },
            BoosterError::PrioritySetFailed { pid, reason } => BoosterErrorView::PrioritySetFailed {
                pid,
                reason: reason@,
            },
            BoosterError::SafetyCheckFailed { pid, reason } => BoosterErrorView::SafetyCheckFailed {
                pid,
                reason: reason@,
            },
            BoosterError::PathValidationFailed {
                pid,
                reason,
            } => BoosterErrorView::PathValidationFailed { pid, reason: reason@ },
            BoosterError::NoProcessesFound => BoosterErrorView::NoProcessesFound,
            BoosterError::TooManyProcesses { found, max } => BoosterErrorView::TooManyProcesses {
                found,
                max,
            },
        }
    }
}

impl DeepView for BoosterError {
    type V = BoosterErrorView;

    open spec fn deep_view(&self) -> BoosterErrorView {
        self@
    }
}

impl BoosterErrorView {
    /// The line shown to the user for this error.
    pub open spec fn message(self) -> Seq<char> {
        match self {
            BoosterErrorView::ProcessOpenFailed { pid, reason } => "Failed to open process "@
                + decimal(pid as nat) + ": "@ + reason,
            BoosterErrorView::PrioritySetFailed {
                pid,
                reason,
            } => "Failed to set process priority for PID "@ + decimal(pid as nat) + ": "@ + reason,
            BoosterErrorView::SafetyCheckFailed { pid, reason } => "Safety check failed: "@
                + reason,
            BoosterErrorView::PathValidationFailed {
                pid,
                reason,
            } => "Process path validation failed: "@ + reason,
            BoosterErrorView::NoProcessesFound => "No Roblox processes found"@,
            BoosterErrorView::TooManyProcesses {
                found,
                max,
            } => "Safety check failed: Too many Roblox processes ("@ + decimal(found as nat)
                + " > "@ + decimal(max as nat) + ")"@,
        }
    }
}

impl Clone for BoosterError {
    fn clone(&self) -> (copy: BoosterError)
        ensures
            copy@ == self@,
    {
        match self {
            BoosterError::ProcessOpenFailed { pid, reason } => BoosterError::ProcessOpenFailed {
                pid: *pid,
                reason: reason.clone(),
            },
            BoosterError::PrioritySetFailed { pid, reason } => BoosterError::PrioritySetFailed {
                pid: *pid,
                reason: reason.clone(),
            },
            BoosterError::SafetyCheckFailed { pid, reason } => BoosterError::SafetyCheckFailed {
                pid: *pid,
                reason: reason.clone(),
            },
            BoosterError::PathValidationFailed {
                pid,
                reason,
            } => BoosterError::PathValidationFailed { pid: *pid, reason: reason.clone() },
            BoosterError::NoProcessesFound => BoosterError::NoProcessesFound,
            BoosterError::TooManyProcesses { found, max } => BoosterError::TooManyProcesses {
                found: *found,
                max: *max,
            },
        }
    }
}

impl BoosterError {
    /// The line shown to the user for this error.
    pub fn message(&self) -> (text: String)
        ensures
            text@ == self@.message(),
    {
        match self {
            BoosterError::ProcessOpenFailed { pid, reason } => {
                let mut text = String::from_str("Failed to open process ");
                push_decimal(&mut text, *pid as u64);
                text.append(": ");
                text.append(reason.as_str());
                text
            },
            BoosterError::PrioritySetFailed { pid, reason } => {
                let mut text = String::from_str("Failed to set process priority for PID ");
                push_decimal(&mut text, *pid as u64);
                text.append(": ");
                text.append(reason.as_str());
                text
            },
            BoosterError::SafetyCheckFailed { pid: _, reason } => {
                let mut text = String::from_str("Safety check failed: ");
                text.append(reason.as_str());
                text
            },
            BoosterError::PathValidationFailed { pid: _, reason } => {
                let mut text = String::from_str("Process path validation failed: ");
                text.append(reason.as_str());
                text
            },
            BoosterError::NoProcessesFound => String::from_str("No Roblox processes found"),
            BoosterError::TooManyProcesses { found, max } => {
                let mut text = String::from_str(
                    "Safety check failed: Too many Roblox processes (",
                );
                push_decimal(&mut text, *found as u64);
                text.append(" > ");
                push_decimal(&mut text, *max as u64);
                text.append(")");
                text
            },
        }
    }
}

} // verus!
