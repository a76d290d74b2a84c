//! One-shot status lines, drawn without a percentage.
use vstd::prelude::*;
use crate::layout::{is_notice, notice};
use crate::paint::Tone;
use crate::run::DEFAULT_PADDING;

verus! {

/// The status line of a success message: `action` in green, right-aligned to
/// `padding`, then `description`.
pub fn success_padded(action: &str, description: &str, padding: usize) -> (r: String)
    ensures
        is_notice(r@, Tone::Success, action@, padding as nat, description@),
{
    notice(Tone::Success, action, padding, description)
}

/// The status line of a success message, with the label in a column of the
/// default width.
pub fn success(action: &str, description: &str) -> (r: String)
    ensures
        is_notice(r@, Tone::Success, action@, DEFAULT_PADDING as nat, description@),
{
    success_padded(action, description, DEFAULT_PADDING)
}

/// The status line of an error message: `action` in red, right-aligned to
/// `padding`, then `description`.
pub fn error_padded(action: &str, description: &str, padding: usize) -> (r: String)
    ensures
        is_notice(r@, Tone::Failure, action@, padding as nat, description@),
{
    notice(Tone::Failure, action, padding, description)
}

/// The status line of an error message, with the label in a column of the
/// default width.
pub fn error(action: &str, description: &str) -> (r: String)
    ensures
        is_notice(r@, Tone::Failure, action@, DEFAULT_PADDING as nat, description@),
{
    error_padded(action, description, DEFAULT_PADDING)
}

/// The status line of a warning message: `action` in yellow, right-aligned to
/// `padding`, then `description`.
pub fn warning_padded(action: &str, description: &str, padding: usize) -> (r: String)
    ensures
        is_notice(r@, Tone::Warning, action@, padding as nat, description@),
{
    notice(Tone::Warning, action, padding, description)
}

/// The status line of a warning message, with the label in a column of the
/// default width.
pub fn warning(action: &str, description: &str) -> (r: String)
    ensures
        is_notice(r@, Tone::Warning, action@, DEFAULT_PADDING as nat, description@),
{
    warning_padded(action, description, DEFAULT_PADDING)
}

/// The status line of an informational message: `action` in cyan, right-aligned to
/// `padding`, then `description`.
pub fn info_padded(action: &str, description: &str, padding: usize) -> (r: String)
    ensures
        is_notice(r@, Tone::Info, action@, padding as nat, description@),
{
    notice(Tone::Info, action, padding, description)
}

/// The status line of an informational message, with the label in a column of the
/// default width.
pub fn info(action: &str, description: &str) -> (r: String)
    ensures
        is_notice(r@, Tone::Info, action@, DEFAULT_PADDING as nat, description@),
{
    info_padded(action, description, DEFAULT_PADDING)
}

} // verus!
