//! The calls that the module makes into its host.

use vstd::prelude::*;

verus! {

/// Text of the notification that the greeting export shows.
pub const GREETING_TEXT: &'static str
    = "MEOW MEOW MEOW MEOW MEOW MEOW MEOW MEOW MEOW MEOW MEOW MEOW MEOW MEOW";

/// Text of the notification shown once the module is loaded.
pub const STARTUP_TEXT: &'static str = "MEOW";

/// Argument of the diagnostic echo call made at startup.
pub const ECHO_ARGUMENT: i32 = 5;

/// The greeting text as a character sequence.
pub open spec fn greeting_text() -> Seq<char> {
    "MEOW MEOW MEOW MEOW MEOW MEOW MEOW MEOW MEOW MEOW MEOW MEOW MEOW MEOW"@
}

/// The startup text as a character sequence.
pub open spec fn startup_text() -> Seq<char> {
    "MEOW"@
}

/// A call from the module into a function that the host provides.
#[derive(Debug)]
pub enum HostCall {
    /// Show a notification with the given text; returns nothing.
    Alert(String),
    /// Diagnostic echo with an integer argument; returns an integer.
    Echo(i32),
}

/// What a host call is, with its text as a character sequence.
pub ghost enum HostCallView {
    Alert(Seq<char>),
    Echo(i32),
}

impl View for HostCall {
    type V = HostCallView;

    open spec fn view(&self) -> HostCallView {
        match self {
            HostCall::Alert(s) => HostCallView::Alert(s@),
            HostCall::Echo(n) => HostCallView::Echo(*n),
        }
    }
}

/// The alert shown once the module is loaded.
pub fn startup_alert() -> (r: HostCall)
    ensures
        r@ == HostCallView::Alert(startup_text()),
{
    HostCall::Alert(String::from_str(STARTUP_TEXT))
}

/// The echo call made once the module is loaded.
pub fn startup_echo() -> (r: HostCall)
    ensures
        r@ == HostCallView::Echo(5),
{
    HostCall::Echo(ECHO_ARGUMENT)
}

/// The host calls of the greeting export: one alert with the greeting text
/// and nothing else. The export keeps no state, so each invocation yields
/// the same single call.
pub fn greet() -> (r: Vec<HostCall>)
    ensures
        r@.len() == 1,
        r@[0]@ == HostCallView::Alert(greeting_text()),
{
    let mut calls: Vec<HostCall> = Vec::new();
    calls.push(HostCall::Alert(String::from_str(GREETING_TEXT)));
    calls
}

} // verus!
