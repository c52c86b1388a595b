//! What the tool tells the desktop when a pass ends.
use vstd::prelude::*;
use crate::pipeline::Outcome;

verus! {

/// A desktop notification, ready to be shown.
#[derive(Debug)]
pub struct Notice {
    pub summary: String,
    pub body: String,
    pub icon: String,
    /// Whether the notification is raised with critical urgency.
    pub critical: bool,
}

/// Whether a pass that ended with `outcome` raises a notification: only when
/// notifications are enabled, and never for a program that failed at run time.
pub open spec fn notice_due(outcome: Outcome, enabled: bool) -> bool {
    enabled && outcome != Outcome::RunFailed
}

pub open spec fn summary_text(file: Seq<char>) -> Seq<char> {
    "Rust Script: "@ + file
}

pub open spec fn body_text(outcome: Outcome, file: Seq<char>) -> Seq<char> {
    if outcome == Outcome::Succeeded {
        "Execution successful. File: "@ + file
    } else {
        "Compilation failed. File: "@ + file
    }
}

pub open spec fn icon_text(outcome: Outcome) -> Seq<char> {
    if outcome == Outcome::Succeeded {
        "dialog-information"@
    } else {
        "dialog-error"@
    }
}

/// The notification for a pass over `file` that ended with `outcome`, if one is due.
/// A compile failure is critical; a success is not.
pub fn notice_for(outcome: Outcome, file: &str, enabled: bool) -> (r: Option<Notice>)
    ensures
        r is Some <==> notice_due(outcome, enabled),
        r matches Some(n) ==> {
            &&& n.summary@ == summary_text(file@)
            &&& n.body@ == body_text(outcome, file@)
            &&& n.icon@ == icon_text(outcome)
            &&& n.critical == (outcome == Outcome::CompileFailed)
        },
{
    if !enabled {
        return None;
    }
    match outcome {
        Outcome::RunFailed => None,
        Outcome::Succeeded => {
            Some(
                Notice {
                    summary: String::from_str("Rust Script: ").concat(file),
                    body: String::from_str("Execution successful. File: ").concat(file),
                    icon: String::from_str("dialog-information"),
                    critical: false,
                },
            )
        },
        Outcome::CompileFailed => {
            Some(
                Notice {
                    summary: String::from_str("Rust Script: ").concat(file),
                    body: String::from_str("Compilation failed. File: ").concat(file),
                    icon: String::from_str("dialog-error"),
                    critical: true,
                },
            )
        },
    }
}

/// With notifications disabled, no pass raises one, whatever the outcomes and
/// however many passes run.
pub proof fn lemma_disabled_is_silent(outcomes: Seq<Outcome>)
    ensures
        forall|i: int| 0 <= i < outcomes.len() ==> !notice_due(#[trigger] outcomes[i], false),
{
}

} // verus!
