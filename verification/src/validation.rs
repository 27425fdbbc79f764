//! How validation-layer messages are logged.

use vstd::prelude::*;

verus! {

/// The `VkDebugUtilsMessageSeverityFlagBitsEXT` bit of verbose messages.
pub const SEVERITY_VERBOSE: u32 = 0x1;

/// The `VkDebugUtilsMessageSeverityFlagBitsEXT` bit of warnings.
pub const SEVERITY_WARNING: u32 = 0x100;

/// The `VkDebugUtilsMessageSeverityFlagBitsEXT` bit of errors.
pub const SEVERITY_ERROR: u32 = 0x1000;

/// The log level a validation message is reported at.
#[derive(Debug, Clone, Copy, PartialEq, Eq)]
pub enum ValidationLogLevel {
    Error,
    Warn,
    Trace,
    Debug,
}

/// The raw value of `ash::vk::DebugUtilsMessageSeverityFlagsEXT::VERBOSE`,
/// which ash defines as `0b1`.
#[verifier::external_body]
fn verbose_bit() -> (r: u32)
    ensures
        r == SEVERITY_VERBOSE,
{
    ash::vk::DebugUtilsMessageSeverityFlagsEXT::VERBOSE.as_raw()
}

/// The raw value of `ash::vk::DebugUtilsMessageSeverityFlagsEXT::WARNING`,
/// which ash defines as `0b1_0000_0000`.
#[verifier::external_body]
fn warning_bit() -> (r: u32)
    ensures
        r == SEVERITY_WARNING,
{
    ash::vk::DebugUtilsMessageSeverityFlagsEXT::WARNING.as_raw()
}

/// The raw value of `ash::vk::DebugUtilsMessageSeverityFlagsEXT::ERROR`,
/// which ash defines as `0b1_0000_0000_0000`.
#[verifier::external_body]
fn error_bit() -> (r: u32)
    ensures
        r == SEVERITY_ERROR,
{
    ash::vk::DebugUtilsMessageSeverityFlagsEXT::ERROR.as_raw()
}

/// Calls `ash::vk::DebugUtilsMessageSeverityFlagsEXT::contains` on the flags
/// with raw values `severity` and `bit`; ash's `contains` is true exactly
/// when every bit of `bit` is set in `severity`.
#[verifier::external_body]
fn severity_contains(severity: u32, bit: u32) -> (r: bool)
    ensures
        r == (severity & bit == bit),
{
    ash::vk::DebugUtilsMessageSeverityFlagsEXT::from_raw(severity).contains(
        ash::vk::DebugUtilsMessageSeverityFlagsEXT::from_raw(bit),
    )
}

/// The log level of a validation message with the given severity bits: an
/// error is logged as an error, else a warning as a warning, else a verbose
/// message at trace level, and anything else at debug level.
pub fn validation_log_level(severity: u32) -> (r: ValidationLogLevel)
    ensures
        r == (if severity & SEVERITY_ERROR == SEVERITY_ERROR {
            ValidationLogLevel::Error
        } else if severity & SEVERITY_WARNING == SEVERITY_WARNING {
            ValidationLogLevel::Warn
        } else if severity & SEVERITY_VERBOSE == SEVERITY_VERBOSE {
            ValidationLogLevel::Trace
        } else {
            ValidationLogLevel::Debug
        }),
        (severity & 0x1000u32 == 0x1000u32) ==> r == ValidationLogLevel::Error,
        (severity & 0x1000u32 != 0x1000u32 && severity & 0x100u32 == 0x100u32) ==> r == ValidationLogLevel::Warn,
        (severity & 0x1000u32 != 0x1000u32 && severity & 0x100u32 != 0x100u32 && severity & 1u32 == 1u32)
            ==> r == ValidationLogLevel::Trace,
        (severity & 0x1000u32 != 0x1000u32 && severity & 0x100u32 != 0x100u32 && severity & 1u32 != 1u32)
            ==> r == ValidationLogLevel::Debug,
{
    if severity_contains(severity, error_bit()) {
        ValidationLogLevel::Error
    } else if severity_contains(severity, warning_bit()) {
        ValidationLogLevel::Warn
    } else if severity_contains(severity, verbose_bit()) {
        ValidationLogLevel::Trace
    } else {
        ValidationLogLevel::Debug
    }
}

} // verus!
