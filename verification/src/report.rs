//! The failure report: plain-data records for what the runtime hands a
//! failure interceptor (message, source location, symbolized stack frames)
//! and the deterministic rendering of those records into the text block that
//! is appended to the crash log.
//!
//! The layout is fixed, since log consumers may grep it:
//!
//! ```text
//! Panic occurred in file '<file>' at line <line>    (or "Panic location unknown.")
//!
//!    <message>                                      ("Unknown" if absent)
//!    <idx>: <hex-address> - <symbol-name>
//!                            at <file>:<line>       (only if resolved)
//! ```
//!
//! A frame with no resolved symbols renders an explicit `<unresolved>`
//! marker, never a blank, so no frame is silently lost.

use vstd::prelude::*;
use vstd::string::StringExecFns;
use crate::text::{
    dec_text, hex_fixed_text, pad_left, spaces, append_dec_u64, append_hex_fixed, append_spaces,
    append_dec_padded4,
};

verus! {

/// Where in the source the failure was raised.
pub struct SourceLocation {
    /// Path of the source file, as the runtime reports it.
    pub file: String,
    /// 1-based line within that file.
    pub line: u32,
}

/// What the language runtime hands the interceptor at the moment of failure:
/// an optional human message (absent when the failure payload is not
/// message-like) and an optional source location.
pub struct FailureRecord {
    /// The failure message, if the payload was a string.
    pub message: Option<String>,
    /// Where the failure was raised, if the runtime knows.
    pub location: Option<SourceLocation>,
}

/// One resolved symbol of a stack frame. Every field is best-effort: absent
/// debug info leaves it `None`, which is rendered explicitly, never blank.
pub struct Symbol {
    /// Demangled function name, if known.
    pub name: Option<String>,
    /// Source file of the symbol, if known.
    pub filename: Option<String>,
    /// Source line of the symbol, if known.
    pub lineno: Option<u32>,
}

/// One captured stack frame: the instruction address and zero or more
/// symbols resolved for it.
pub struct StackFrame {
    /// The frame's instruction pointer.
    pub address: u64,
    /// The symbols resolved at that address; may be empty.
    pub symbols: Vec<Symbol>,
}

/// Mathematical view of [`SourceLocation`].
pub ghost struct LocationView {
    pub file: Seq<char>,
    pub line: u32,
}

/// Mathematical view of [`FailureRecord`].
pub ghost struct RecordView {
    pub message: Option<Seq<char>>,
    pub location: Option<LocationView>,
}

/// Mathematical view of [`Symbol`].
pub ghost struct SymbolView {
    pub name: Option<Seq<char>>,
    pub filename: Option<Seq<char>>,
    pub lineno: Option<u32>,
}

/// Mathematical view of [`StackFrame`].
pub ghost struct FrameView {
    pub address: u64,
    pub symbols: Seq<SymbolView>,
}

impl View for SourceLocation {
    type V = LocationView;

    open spec fn view(&self) -> LocationView {
        LocationView { file: self.file@, line: self.line }
    }
}

impl View for FailureRecord {
    type V = RecordView;

    open spec fn view(&self) -> RecordView {
        RecordView {
            message: match self.message {
                Option::Some(m) => Option::Some(m@),
                Option::None => Option::None,
            },
            location: match self.location {
                Option::Some(l) => Option::Some(l@),
                Option::None => Option::None,
            },
        }
    }
}

impl View for Symbol {
    type V = SymbolView;

    open spec fn view(&self) -> SymbolView {
        SymbolView {
            name: match self.name {
                Option::Some(n) => Option::Some(n@),
                Option::None => Option::None,
            },
            filename: match self.filename {
                Option::Some(f) => Option::Some(f@),
                Option::None => Option::None,
            },
            lineno: self.lineno,
        }
    }
}

impl View for StackFrame {
    type V = FrameView;

    open spec fn view(&self) -> FrameView {
        FrameView {
            address: self.address,
            symbols: self.symbols@.map_values(|s: Symbol| s@),
        }
    }
}

/// The views of a sequence of captured frames.
pub open spec fn frames_view(frames: Seq<StackFrame>) -> Seq<FrameView> {
    frames.map_values(|f: StackFrame| f@)
}

/// Width of the rendered address column: two hexadecimal digits per pointer
/// byte. With the `0x` prefix the column is `ADDR_HEX_DIGITS + 2` wide, so
/// addresses align in multi-line output.
pub const ADDR_HEX_DIGITS: usize = 16;

/// Indentation of a symbol continuation line, chosen so the continuation
/// aligns under the symbol-name column: newline + 4 (index) + 2 (": ") +
/// 18 (address column) characters.
pub const SYMBOL_CONTINUATION_PAD: usize = 24;

/// The ` - <name>` part of a symbol line; `<unknown>` when no name resolved.
pub open spec fn symbol_name_text(name: Option<Seq<char>>) -> Seq<char> {
    match name {
        Option::Some(n) => " - "@ + n,
        Option::None => " - <unknown>"@,
    }
}

/// The `at <file>:<line>` continuation of a symbol, present only when both
/// the file and the line resolved.
pub open spec fn symbol_source_text(sym: SymbolView) -> Seq<char> {
    match (sym.filename, sym.lineno) {
        (Option::Some(f), Option::Some(l)) => "\n"@ + spaces(24) + "at "@ + f + ":"@ + dec_text(
            l as nat,
        ),
        _ => Seq::<char>::empty(),
    }
}

/// One symbol's full rendering. Every symbol after the first of its frame
/// starts on a continuation line aligned under the name column.
pub open spec fn symbol_text(sym: SymbolView, first: bool) -> Seq<char> {
    (if first {
        Seq::<char>::empty()
    } else {
        "\n"@ + spaces(24)
    }) + symbol_name_text(sym.name) + symbol_source_text(sym)
}

/// The rendering of the first `k` symbols of a frame, in order.
pub open spec fn symbols_text_prefix(syms: Seq<SymbolView>, k: int) -> Seq<char>
    decreases k,
{
    if k <= 0 {
        Seq::<char>::empty()
    } else {
        symbols_text_prefix(syms, k - 1) + symbol_text(syms[k - 1], k == 1)
    }
}

/// The frame header: newline, the 0-based index right-aligned in four
/// columns, `: `, and the address as `0x` + 16 zero-padded hex digits.
pub open spec fn frame_header_text(idx: nat, address: u64) -> Seq<char> {
    "\n"@ + pad_left(dec_text(idx), 4) + ": 0x"@ + hex_fixed_text(address as nat, 16)
}

/// One frame's full rendering: the header, then either the explicit
/// `<unresolved>` marker (zero symbols) or every resolved symbol in order.
pub open spec fn frame_text(f: FrameView, idx: nat) -> Seq<char> {
    frame_header_text(idx, f.address) + (if f.symbols.len() == 0 {
        " - <unresolved>"@
    } else {
        symbols_text_prefix(f.symbols, f.symbols.len() as int)
    })
}

/// The rendering of the first `k` frames, each under its capture index.
pub open spec fn backtrace_prefix(frames: Seq<FrameView>, k: int) -> Seq<char>
    decreases k,
{
    if k <= 0 {
        Seq::<char>::empty()
    } else {
        backtrace_prefix(frames, k - 1) + frame_text(frames[k - 1], (k - 1) as nat)
    }
}

/// The full stack block: every captured frame, indices 0-based and
/// increasing in capture order.
pub open spec fn backtrace_text(frames: Seq<FrameView>) -> Seq<char> {
    backtrace_prefix(frames, frames.len() as int)
}

/// The location line of the report; an explicit sentence when the runtime
/// reported no location.
pub open spec fn location_text(loc: Option<LocationView>) -> Seq<char> {
    match loc {
        Option::Some(l) => "Panic occurred in file '"@ + l.file + "' at line "@ + dec_text(
            l.line as nat,
        ) + "\n"@,
        Option::None => "Panic location unknown.\n"@,
    }
}

/// The cause line's text: the message, or `Unknown` when the payload was
/// not message-like.
pub open spec fn cause_text(message: Option<Seq<char>>) -> Seq<char> {
    match message {
        Option::Some(m) => m,
        Option::None => "Unknown"@,
    }
}

/// The whole report: location line, blank line, indented cause, and the
/// stack block.
pub open spec fn report_text(rec: RecordView, frames: Seq<FrameView>) -> Seq<char> {
    location_text(rec.location) + "\n   "@ + cause_text(rec.message) + "\n"@ + backtrace_text(
        frames,
    )
}

/// One log record: the severity tag, then the report.
pub open spec fn log_record_text(rec: RecordView, frames: Seq<FrameView>) -> Seq<char> {
    "Panic! :: "@ + report_text(rec, frames)
}

/// Appends one symbol's rendering; `first` says whether it is the first
/// symbol of its frame.
fn append_symbol(out: &mut String, sym: &Symbol, first: bool)
    ensures
        final(out)@ == old(out)@ + symbol_text(sym@, first),
{
    if !first {
        out.append("\n");
        append_spaces(out, SYMBOL_CONTINUATION_PAD);
    }
    match &sym.name {
        Option::Some(n) => {
            out.append(" - ");
            out.append(n.as_str());
        },
        Option::None => {
            out.append(" - <unknown>");
        },
    }
    match (&sym.filename, &sym.lineno) {
        (Option::Some(f), Option::Some(l)) => {
            out.append("\n");
            append_spaces(out, SYMBOL_CONTINUATION_PAD);
            out.append("at ");
            out.append(f.as_str());
            out.append(":");
            append_dec_u64(out, *l as u64);
        },
        _ => {},
    }
    assert(final(out)@ =~= old(out)@ + symbol_text(sym@, first));
}

/// Appends one frame's rendering under capture index `idx`.
fn append_frame(out: &mut String, frame: &StackFrame, idx: usize)
    ensures
        final(out)@ == old(out)@ + frame_text(frame@, idx as nat),
{
    out.append("\n");
    append_dec_padded4(out, idx as u64);
    out.append(": 0x");
    append_hex_fixed(out, frame.address, ADDR_HEX_DIGITS);
    assert(out@ =~= old(out)@ + frame_header_text(idx as nat, frame.address));
    let ghost header: Seq<char> = old(out)@ + frame_header_text(idx as nat, frame.address);
    if frame.symbols.len() == 0 {
        out.append(" - <unresolved>");
    } else {
        let n = frame.symbols.len();
        let mut j: usize = 0;
        assert(out@ =~= header + symbols_text_prefix(frame@.symbols, 0));
        while j < n
            invariant
                j <= n,
                n == frame.symbols@.len(),
                frame@.symbols == frame.symbols@.map_values(|s: Symbol| s@),
                out@ == header + symbols_text_prefix(frame@.symbols, j as int),
            decreases n - j,
        {
            append_symbol(out, &frame.symbols[j], j == 0);
            assert(frame@.symbols[j as int] == frame.symbols@[j as int]@);
            j = j + 1;
            assert(out@ =~= header + symbols_text_prefix(frame@.symbols, j as int));
        }
    }
    assert(final(out)@ =~= old(out)@ + frame_text(frame@, idx as nat));
}

/// Renders the stack block for an already-captured, already-symbolized
/// frame sequence. Pure: the result is a function of the frames alone.
pub fn format_backtrace(frames: &Vec<StackFrame>) -> (r: String)
    ensures
        r@ == backtrace_text(frames_view(frames@)),
{
    let mut out = String::new();
    let n = frames.len();
    let mut i: usize = 0;
    assert(out@ =~= backtrace_prefix(frames_view(frames@), 0));
    while i < n
        invariant
            i <= n,
            n == frames@.len(),
            out@ == backtrace_prefix(frames_view(frames@), i as int),
        decreases n - i,
    {
        append_frame(&mut out, &frames[i], i);
        assert(frames_view(frames@)[i as int] == frames@[i as int]@);
        i = i + 1;
        assert(out@ =~= backtrace_prefix(frames_view(frames@), i as int));
    }
    assert(out@ =~= backtrace_text(frames_view(frames@)));
    out
}

/// Renders the whole report for a failure record and a captured stack.
/// Pure and deterministic: the result is pinned down, character for
/// character, by the record and the frames.
pub fn format_panic(record: &FailureRecord, frames: &Vec<StackFrame>) -> (r: String)
    ensures
        r@ == report_text(record@, frames_view(frames@)),
{
    let mut out = String::new();
    match &record.location {
        Option::Some(loc) => {
            out.append("Panic occurred in file '");
            out.append(loc.file.as_str());
            out.append("' at line ");
            append_dec_u64(&mut out, loc.line as u64);
            out.append("\n");
        },
        Option::None => {
            out.append("Panic location unknown.\n");
        },
    }
    assert(out@ =~= location_text(record@.location));
    out.append("\n   ");
    match &record.message {
        Option::Some(m) => {
            out.append(m.as_str());
        },
        Option::None => {
            out.append("Unknown");
        },
    }
    out.append("\n");
    let bt = format_backtrace(frames);
    out.append(bt.as_str());
    assert(out@ =~= report_text(record@, frames_view(frames@)));
    out
}

/// `whole` is `a`, then `mid`, then `b`: `mid` occurs inside `whole`.
pub open spec fn splits_as(whole: Seq<char>, a: Seq<char>, mid: Seq<char>, b: Seq<char>) -> bool {
    whole == a + mid + b
}

/// `whole` opens with `head` and continues with `rest`.
pub open spec fn begins_with(whole: Seq<char>, head: Seq<char>, rest: Seq<char>) -> bool {
    whole == head + rest
}

/// With a present message and a present location, the report contains the
/// message verbatim, and opens with the location line rendering that file
/// and line.
pub proof fn lemma_report_contains_message_and_location(rec: RecordView, frames: Seq<FrameView>)
    requires
        rec.message is Some,
        rec.location is Some,
    ensures
        exists|a: Seq<char>, b: Seq<char>| #[trigger] splits_as(report_text(rec, frames), a, rec.message->Some_0, b),
        exists|b: Seq<char>| #[trigger] begins_with(
                report_text(rec, frames),
                "Panic occurred in file '"@ + rec.location->Some_0.file + "' at line "@ + dec_text(
                    rec.location->Some_0.line as nat,
                ) + "\n"@,
                b,
            ),
{
    let msg = rec.message->Some_0;
    let head = location_text(rec.location) + "\n   "@;
    let tail = "\n"@ + backtrace_text(frames);
    assert(report_text(rec, frames) =~= head + msg + tail);
    assert(splits_as(report_text(rec, frames), head, msg, tail));
    let line = "Panic occurred in file '"@ + rec.location->Some_0.file + "' at line "@ + dec_text(
        rec.location->Some_0.line as nat,
    ) + "\n"@;
    let rest = "\n   "@ + cause_text(rec.message) + ("\n"@ + backtrace_text(frames));
    assert(report_text(rec, frames) =~= line + rest);
    assert(begins_with(report_text(rec, frames), line, rest));
}

/// A missing message renders as the explicit `Unknown`; a missing location
/// renders as the explicit `Panic location unknown.` line — neither is ever
/// omitted silently.
pub proof fn lemma_report_explicit_absences(rec: RecordView, frames: Seq<FrameView>)
    ensures
        rec.message is None ==> exists|a: Seq<char>, b: Seq<char>| #[trigger] splits_as(report_text(rec, frames), a, "Unknown"@, b),
        rec.location is None ==> exists|b: Seq<char>| #[trigger] begins_with(report_text(rec, frames), "Panic location unknown.\n"@, b),
{
    if rec.message is None {
        let head = location_text(rec.location) + "\n   "@;
        let tail = "\n"@ + backtrace_text(frames);
        assert(report_text(rec, frames) =~= head + "Unknown"@ + tail);
        assert(splits_as(report_text(rec, frames), head, "Unknown"@, tail));
    }
    if rec.location is None {
        let rest = "\n   "@ + cause_text(rec.message) + ("\n"@ + backtrace_text(frames));
        assert(report_text(rec, frames) =~= "Panic location unknown.\n"@ + rest);
        assert(begins_with(report_text(rec, frames), "Panic location unknown.\n"@, rest));
    }
}

/// The stack block of the first `k` frames splits around the rendering of
/// any earlier frame `i`, which appears under the index `i` itself.
proof fn lemma_backtrace_prefix_split(frames: Seq<FrameView>, i: int, k: int)
    requires
        0 <= i < k <= frames.len(),
    ensures
        exists|b: Seq<char>| #[trigger] splits_as(
                backtrace_prefix(frames, k),
                backtrace_prefix(frames, i),
                frame_text(frames[i], i as nat),
                b,
            ),
    decreases k,
{
    let head = backtrace_prefix(frames, i);
    let mid = frame_text(frames[i], i as nat);
    if k == i + 1 {
        assert(backtrace_prefix(frames, k) =~= head + mid + Seq::<char>::empty());
        assert(splits_as(backtrace_prefix(frames, k), head, mid, Seq::<char>::empty()));
    } else {
        lemma_backtrace_prefix_split(frames, i, k - 1);
        let b0 = choose|b: Seq<char>| #[trigger] splits_as(backtrace_prefix(frames, k - 1), head, mid, b);
        assert(backtrace_prefix(frames, k) =~= head + mid + (b0 + frame_text(
            frames[k - 1],
            (k - 1) as nat,
        )));
        assert(splits_as(
            backtrace_prefix(frames, k),
            head,
            mid,
            b0 + frame_text(frames[k - 1], (k - 1) as nat),
        ));
    }
}

/// Every captured frame is rendered, none dropped: the stack block splits
/// around frame `i`'s rendering, and that rendering opens with a line break
/// and the frame's own 0-based capture index — so indices increase from
/// zero in capture order.
pub proof fn lemma_backtrace_renders_every_frame(frames: Seq<FrameView>, i: int)
    requires
        0 <= i < frames.len(),
    ensures
        exists|a: Seq<char>, b: Seq<char>| #[trigger] splits_as(backtrace_text(frames), a, frame_text(frames[i], i as nat), b),
        exists|rest: Seq<char>| #[trigger] begins_with(
                frame_text(frames[i], i as nat),
                "\n"@ + pad_left(dec_text(i as nat), 4) + ": 0x"@ + hex_fixed_text(
                    frames[i].address as nat,
                    16,
                ),
                rest,
            ),
{
    lemma_backtrace_prefix_split(frames, i, frames.len() as int);
    let head = backtrace_prefix(frames, i);
    let mid = frame_text(frames[i], i as nat);
    let b0 = choose|b: Seq<char>| #[trigger] splits_as(backtrace_prefix(frames, frames.len() as int), head, mid, b);
    assert(splits_as(backtrace_text(frames), head, mid, b0));
    let body = if frames[i].symbols.len() == 0 {
        " - <unresolved>"@
    } else {
        symbols_text_prefix(frames[i].symbols, frames[i].symbols.len() as int)
    };
    assert(mid =~= ("\n"@ + pad_left(dec_text(i as nat), 4) + ": 0x"@ + hex_fixed_text(
        frames[i].address as nat,
        16,
    )) + body);
    assert(begins_with(
        mid,
        "\n"@ + pad_left(dec_text(i as nat), 4) + ": 0x"@ + hex_fixed_text(
            frames[i].address as nat,
            16,
        ),
        body,
    ));
}

/// A frame with no resolved symbols renders its header, the explicit
/// `<unresolved>` marker, and nothing more — no symbol-name line.
pub proof fn lemma_unresolved_frame_rendering(f: FrameView, idx: nat)
    requires
        f.symbols.len() == 0,
    ensures
        frame_text(f, idx) == frame_header_text(idx, f.address) + " - <unresolved>"@,
{
}

/// Rendering is a pure function of the record and the frames: two renderings
/// of identical inputs are byte-identical. Together with the contract of
/// [`format_panic`], two calls on equal inputs return equal strings.
pub proof fn lemma_report_deterministic(
    rec1: RecordView,
    frames1: Seq<FrameView>,
    rec2: RecordView,
    frames2: Seq<FrameView>,
)
    requires
        rec1 == rec2,
        frames1 == frames2,
    ensures
        report_text(rec1, frames1) == report_text(rec2, frames2),
{
}

/// Renders the log record that one failure appends to the log sink: the
/// severity tag, then the report.
pub fn format_log_record(record: &FailureRecord, frames: &Vec<StackFrame>) -> (r: String)
    ensures
        r@ == log_record_text(record@, frames_view(frames@)),
{
    let mut out = String::from_str("Panic! :: ");
    let body = format_panic(record, frames);
    out.append(body.as_str());
    assert(out@ =~= log_record_text(record@, frames_view(frames@)));
    out
}

} // verus!
