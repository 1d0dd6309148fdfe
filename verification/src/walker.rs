//! The stack walker: captures the live call stack at failure time and hands
//! it on as plain data — an address and zero or more resolved symbols per
//! frame — so that everything downstream of the capture is verified.

use vstd::prelude::*;
use crate::report::{StackFrame, Symbol};

verus! {

/// How many innermost frames a capture from inside the installed hook
/// skips, so the first frame shown is the failing user code: the backtrace
/// library's own entry frames, this crate's hook-invocation frames, and the
/// runtime's panic-dispatch frames. The value is tuned empirically to that
/// interception call chain; recompute it when the hook's call depth or the
/// runtime changes, and pass the new value to [`capture`].
pub const DEFAULT_SKIP_FRAMES: usize = 8;

/// Relies on `backtrace::Backtrace::new` to walk and symbolize the live
/// call stack, and on `BacktraceFrame::{ip, symbols}` and
/// `BacktraceSymbol::{name, filename, lineno}` to read each frame out;
/// the body only converts what they return into plain values. Nothing can
/// be promised of the result: it depends on the live stack at call time.
#[verifier::external_body]
fn capture_symbolized(skip: usize) -> (frames: Vec<StackFrame>) {
    backtrace::Backtrace::new().frames().iter().skip(skip).map(|f| StackFrame {
        address: f.ip() as u64,
        symbols: f.symbols().iter().map(|s| Symbol {
            name: s.name().map(|n| n.to_string()),
            filename: s.filename().map(|p| p.display().to_string()),
            lineno: s.lineno(),
        }).collect(),
    }).collect()
}

/// Captures the current call stack, innermost first, skipping the `skip`
/// innermost frames. Not restartable: each call re-walks the live stack, so
/// nothing relates the result to previous calls — downstream rendering is
/// verified for every frame sequence this may return.
pub fn capture(skip: usize) -> Vec<StackFrame> {
    capture_symbolized(skip)
}

} // verus!
