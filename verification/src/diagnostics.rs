//! The bridge from the driver's diagnostics to the host's log.
//!
//! The driver calls back for every diagnostic whose severity was asked for at
//! registration. The bridge only observes: it hands the message on as a line
//! for the log and never claims to have handled what triggered it.

use crate::bindings::{
    debug_report_error_bits, debug_report_performance_warning_bits, debug_report_warning_bits,
};
use vstd::prelude::*;

verus! {

/// The severity bit of a warning.
pub const SEVERITY_WARNING: u32 = 0x2;

/// The severity bit of a performance warning.
pub const SEVERITY_PERFORMANCE_WARNING: u32 = 0x4;

/// The severity bit of an error.
pub const SEVERITY_ERROR: u32 = 0x8;

/// The severities that the bridge is registered for: errors, warnings and
/// performance warnings, and nothing else.
pub open spec fn spec_debug_report_flags() -> u32 {
    SEVERITY_ERROR | SEVERITY_WARNING | SEVERITY_PERFORMANCE_WARNING
}

/// Computes [`spec_debug_report_flags`], which comes to `0xe`.
pub fn debug_report_flags() -> (flags: u32)
    ensures
        flags == spec_debug_report_flags(),
        flags == 0xe,
{
    proof {
        lemma_debug_report_flags_value();
    }
    debug_report_error_bits() | debug_report_warning_bits()
        | debug_report_performance_warning_bits()
}

/// The registered severities as a number: bits 1, 2 and 3, and so neither
/// plain information nor debug output.
pub proof fn lemma_debug_report_flags_value()
    ensures
        spec_debug_report_flags() == 0xe,
        spec_debug_report_flags() & 0x1 == 0,
        spec_debug_report_flags() & 0x10 == 0,
{
    assert(0x8u32 | 0x2u32 | 0x4u32 == 0xe) by (bit_vector);
    assert(0xeu32 & 0x1 == 0) by (bit_vector);
    assert(0xeu32 & 0x10 == 0) by (bit_vector);
}

/// What the bridge makes of one diagnostic.
#[derive(Clone, Debug)]
pub struct DiagnosticReport {
    /// The line to write to the log.
    pub line: String,
    /// Whether the driver is told that the diagnostic was handled, which would
    /// make it give up the call that triggered it.
    pub handled: bool,
}

/// The mathematical content of a [`DiagnosticReport`].
pub struct DiagnosticReportView {
    pub line: Seq<char>,
    pub handled: bool,
}

impl View for DiagnosticReport {
    type V = DiagnosticReportView;

    open spec fn view(&self) -> DiagnosticReportView {
        DiagnosticReportView { line: self.line@, handled: self.handled }
    }
}

/// Receives one diagnostic of the driver. The line for the log is the
/// driver's message, unchanged, and the diagnostic is never reported back as
/// handled.
pub fn vulkan_debug_callback(message: &str) -> (report: DiagnosticReport)
    ensures
        report@ == (DiagnosticReportView { line: message@, handled: false }),
{
    DiagnosticReport { line: message.to_owned(), handled: false }
}

} // verus!
