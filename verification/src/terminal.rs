//! What the terminal can show.

use vstd::prelude::*;

verus! {

/// `std::io::Error`, the error of the operating system's calls. Nothing is
/// said of what a value of it holds; it is only handed on.
#[verifier::external_type_specification]
#[verifier::external_body]
pub struct ExIoError(std::io::Error);

/// `atty::is` for the standard output: whether it is a terminal. The answer
/// depends on where the process writes to, so nothing is claimed of it.
#[verifier::external_body]
fn stdout_is_terminal() -> (tty: bool) {
    atty::is(atty::Stream::Stdout)
}

/// Turns on the processing of escape sequences. The terminals of the
/// platforms this library is built for process them without being asked, so
/// there is nothing to turn on and nothing that can fail.
pub fn enable_virtual_terminal_processing() -> (outcome: Result<(), std::io::Error>)
    ensures
        outcome is Ok,
{
    Ok(())
}

/// Whether escape sequences are processed: on the platforms this library is
/// built for they always are.
pub fn is_vt_enabled() -> (enabled: bool)
    ensures
        enabled,
{
    true
}

/// Returns `true` if the standard output is a terminal and escape
/// sequences are processed. What it returns depends on where the process
/// writes to; `ansi_supported_on` says what it is for each answer to that.
pub fn is_ansi_supported() -> (supported: bool) {
    ansi_supported_on(stdout_is_terminal(), is_vt_enabled())
}

/// The rule by which bright colours are chosen: they are in order where the
/// output is a terminal and escape sequences are processed.
pub open spec fn ansi_supported(tty: bool, vt_enabled: bool) -> bool {
    tty && vt_enabled
}

/// Decides whether bright colours are in order, from whether the output is a
/// terminal and whether escape sequences are processed.
pub fn ansi_supported_on(tty: bool, vt_enabled: bool) -> (supported: bool)
    ensures
        supported == ansi_supported(tty, vt_enabled),
{
    tty && vt_enabled
}

} // verus!
