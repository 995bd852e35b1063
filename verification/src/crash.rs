use vstd::prelude::*;
use crate::ffi::ucs2::{decode_text, decode_utf16_with, ucs2_text_len};
use crate::logger::{decimal_digits, padded_int, push_padded, push_str, zero_pad, digit_value, numeral_value, lemma_zero_pad_reads_back};
use crate::strings::push_char;

verus! {

/// What the panic handler does, by how far an earlier panic got.
#[derive(Debug, Clone, Copy, PartialEq, Eq, Structural)]
pub enum PanicAction {
    /// First panic: write the crash report, then unwind to the protected entry point.
    ReportThenUnwind,
    /// A panic while reporting: give the report up and unwind.
    Unwind,
    /// A panic while unwinding: nothing is safe any more; reset the phone.
    Reset,
}

/// The stage after a panic at `stage`, and what the handler does:
/// stage 0 reports and moves to 1, stage 1 moves to 2, stage 2 or more resets.
pub open spec fn spec_panic_step(stage: u8) -> (u8, PanicAction) {
    if stage >= 2 {
        (stage, PanicAction::Reset)
    } else if stage == 0 {
        (1, PanicAction::ReportThenUnwind)
    } else {
        (2, PanicAction::Unwind)
    }
}

/// The panic handler's decision for a panic at `stage`.
pub fn panic_step(stage: u8) -> (res: (u8, PanicAction))
    ensures
        res == spec_panic_step(stage),
{
    if stage >= 2 {
        (stage, PanicAction::Reset)
    } else if stage == 0 {
        (1, PanicAction::ReportThenUnwind)
    } else {
        (2, PanicAction::Unwind)
    }
}

/// The crash report is written at most once: only the first panic writes
/// it, the stage never goes down, and from the third panic on the phone resets.
pub proof fn lemma_report_written_once(stage: u8)
    ensures
        spec_panic_step(stage).0 >= stage,
        spec_panic_step(stage).1 == PanicAction::ReportThenUnwind <==> stage == 0,
        spec_panic_step(spec_panic_step(spec_panic_step(stage).0).0).1 == PanicAction::Reset,
{
}

/// The stage at which the crash viewer is started after unwinding.
pub const PANIC_STAGE_VIEWER: u8 = 2;

/// Deepest backtrace the report walks.
pub const MAX_BACKTRACE_DEPTH: u32 = 64;

/// One step of the walk along the frame-pointer chain.
#[derive(Debug, Clone, Copy, PartialEq, Eq, Structural)]
pub enum BacktraceStep {
    /// The frame pointer left the stack: the walk is over.
    End,
    /// The frame pointer is null or misaligned: report it and stop.
    Corrupted,
    /// The walk went as deep as it may: report it and stop.
    Truncated,
    /// Report the frame's return address and follow the chain.
    Frame,
}

/// The walk's decision at frame pointer `fp`, `depth` frames deep, on a
/// stack that ends at `limit`.
pub open spec fn spec_backtrace_step(fp: usize, limit: usize, depth: u32) -> BacktraceStep {
    if fp >= limit {
        BacktraceStep::End
    } else if fp == 0 || fp % 4 != 0 {
        BacktraceStep::Corrupted
    } else if depth >= MAX_BACKTRACE_DEPTH {
        BacktraceStep::Truncated
    } else {
        BacktraceStep::Frame
    }
}

/// The walk's decision at frame pointer `fp`.
pub fn backtrace_step(fp: usize, limit: usize, depth: u32) -> (res: BacktraceStep)
    ensures
        res == spec_backtrace_step(fp, limit, depth),
{
    if fp >= limit {
        BacktraceStep::End
    } else if fp == 0 || fp % 4 != 0 {
        BacktraceStep::Corrupted
    } else if depth >= MAX_BACKTRACE_DEPTH {
        BacktraceStep::Truncated
    } else {
        BacktraceStep::Frame
    }
}

/// The walk reports at most `MAX_BACKTRACE_DEPTH` frames: past that depth
/// it never asks to follow the chain.
pub proof fn lemma_backtrace_is_bounded(fp: usize, limit: usize, depth: u32)
    requires
        depth >= MAX_BACKTRACE_DEPTH,
    ensures
        spec_backtrace_step(fp, limit, depth) != BacktraceStep::Frame,
{
}

/// The walk follows every frame pointer that lies below the stack's end, is
/// not null and is word-aligned (a multiple of 4), as long as it is less than
/// `MAX_BACKTRACE_DEPTH` frames deep; it reports a frame pointer as corrupted
/// only when that pointer is null or not a multiple of 4, and ends only when
/// the pointer has reached the stack's end.
pub proof fn lemma_backtrace_classifies(fp: usize, limit: usize, depth: u32)
    ensures
        fp < limit && fp != 0 && fp % 4 == 0 && depth < 64
            ==> spec_backtrace_step(fp, limit, depth) == BacktraceStep::Frame,
        spec_backtrace_step(fp, limit, depth) == BacktraceStep::Corrupted
            ==> fp < limit && (fp == 0 || fp % 4 != 0),
        fp < limit && (fp == 0 || fp % 4 != 0)
            ==> spec_backtrace_step(fp, limit, depth) == BacktraceStep::Corrupted,
        spec_backtrace_step(fp, limit, depth) == BacktraceStep::End <==> fp >= limit,
        spec_backtrace_step(fp, limit, depth) == BacktraceStep::Truncated
            ==> fp < limit && fp != 0 && fp % 4 == 0 && depth >= 64,
{
}

/// The upper-case hexadecimal digit of `d`.
pub open spec fn hex_digit_char(d: nat) -> char {
    if d < 10 {
        ((d + 48) as u32) as char
    } else {
        ((d + 55) as u32) as char
    }
}

/// The upper-case hexadecimal digits of `n`, without leading zeros.
pub open spec fn hex_digits(n: nat) -> Seq<char>
    decreases n,
{
    if n < 16 {
        seq![hex_digit_char(n)]
    } else {
        hex_digits(n / 16).push(hex_digit_char(n % 16))
    }
}

proof fn lemma_hex_digit_char_value(d: nat)
    requires
        d < 16,
    ensures
        digit_value(hex_digit_char(d)) == d,
        d > 0 ==> hex_digit_char(d) != '0',
{
    let c = hex_digit_char(d);
    if d < 10 {
        assert(c as int == d + 48);
    } else {
        assert(c as int == d + 55);
    }
}

/// An address as the report writes it (`{:08X}`): upper-case hexadecimal, at least eight digits.
pub open spec fn hex08(n: nat) -> Seq<char> {
    zero_pad(hex_digits(n), 8)
}

/// A number written in hexadecimal reads back as itself: the digits are
/// '0' to '9' and 'A' to 'F', there is at least one, and none leads with '0'.
pub proof fn lemma_hex_reads_back(n: nat)
    ensures
        numeral_value(hex_digits(n), 16) == n,
        hex_digits(n).len() >= 1,
        n > 0 ==> hex_digits(n)[0] != '0',
    decreases n,
{
    lemma_hex_digit_char_value(n % 16);
    let d = hex_digits(n);
    if n < 16 {
        assert(d == seq![hex_digit_char(n)]);
        assert(d.drop_last() =~= Seq::<char>::empty());
        assert(numeral_value(d.drop_last(), 16) == 0);
        assert(n % 16 == n);
    } else {
        lemma_hex_reads_back(n / 16);
        assert(d == hex_digits(n / 16).push(hex_digit_char(n % 16)));
        assert(d.drop_last() =~= hex_digits(n / 16));
        assert(d.last() == hex_digit_char(n % 16));
        assert(n == 16 * (n / 16) + n % 16);
        assert(d[0] == hex_digits(n / 16)[0]);
    }
}

/// An address in the report reads back as itself, in at least eight
/// hexadecimal digits, with leading zeros only to fill the eight.
pub proof fn lemma_hex08_reads_back(n: nat)
    ensures
        numeral_value(hex08(n), 16) == n,
        hex08(n).len() >= 8,
        hex08(n).len() > 8 ==> hex08(n)[0] != '0',
{
    lemma_hex_reads_back(n);
    lemma_zero_pad_reads_back(hex_digits(n), 8, 16);
    if hex_digits(n).len() > 8 {
        assert(n > 0);
    }
}

fn hex_digit(d: u64) -> (res: char)
    requires
        d < 16,
    ensures
        res == hex_digit_char(d as nat),
{
    broadcast use vstd::utf8::char_u32_cast;
    let v: u32 = if d < 10 { d as u32 + 48 } else { d as u32 + 55 };
    let c = crate::strings::char_from_u32(v).unwrap();
    proof {
        vstd::utf8::char_u32_cast(c, v);
    }
    c
}

fn hex(n: u64) -> (res: Vec<char>)
    ensures
        res@ == hex_digits(n as nat),
    decreases n,
{
    if n < 16 {
        let mut v: Vec<char> = Vec::new();
        v.push(hex_digit(n));
        v
    } else {
        let mut v = hex(n / 16);
        v.push(hex_digit(n % 16));
        v
    }
}

fn push_hex08(out: &mut String, n: usize)
    ensures
        final(out)@ == old(out)@ + hex08(n as nat),
{
    let digits = hex(n as u64);
    let ghost start = out@;
    let mut k: usize = digits.len();
    while k < 8
        invariant
            out@ == start + Seq::new((k - digits@.len()) as nat, |i: int| '0'),
            digits@.len() <= k,
            k == digits@.len() || k <= 8,
        decreases 8 - k,
    {
        push_char(out, '0');
        assert(out@ =~= start + Seq::new((k + 1 - digits@.len()) as nat, |i: int| '0'));
        k = k + 1;
    }
    let ghost zeros = out@;
    let mut i: usize = 0;
    while i < digits.len()
        invariant
            i <= digits@.len(),
            out@ == zeros + digits@.take(i as int),
        decreases digits@.len() - i,
    {
        push_char(out, digits[i]);
        assert(digits@.take(i + 1) =~= digits@.take(i as int).push(digits@[i as int]));
        i = i + 1;
    }
    assert(digits@.take(digits@.len() as int) =~= digits@);
    let ghost pad: nat = if digits@.len() < 8 { (8 - digits@.len()) as nat } else { 0 };
    assert(zeros =~= start + Seq::new(pad, |i: int| '0'));
    assert(out@ =~= start + hex08(n as nat));
}

/// The first lines of the crash report: where the panic happened, the
/// application, the architecture and where the runtime starts in memory.
pub open spec fn spec_report_head(location: Option<(Seq<char>, u32)>, app_path: Seq<char>, arch: Seq<char>, runtime_start: usize) -> Seq<char> {
    (match location {
        Some((file, line)) => "File:"@ + file + "\nLine:"@ + decimal_digits(line as nat) + "\n"@,
        None => "File:unknown\nLine:0\n"@,
    }) + "App:"@ + app_path + "\n"@ + "Arch:"@ + arch + "\n"@ + "RuntimeStart:0x"@ + hex08(runtime_start as nat) + "\n"@
}

/// Writes the first lines of the crash report (see `spec_report_head`).
pub fn crash_report_head(location: Option<(&str, u32)>, app_path: &str, arch: &str, runtime_start: usize) -> (res: String)
    ensures
        res@ == spec_report_head(match location {
            Some((f, l)) => Some((f@, l)),
            None => None,
        }, app_path@, arch@, runtime_start),
{
    let mut out = String::new();
    match location {
        Some((file, line)) => {
            push_str(&mut out, "File:");
            push_str(&mut out, file);
            push_str(&mut out, "\nLine:");
            push_padded(&mut out, line as i64, 0);
            assert(padded_int(line as int, 0) =~= decimal_digits(line as nat));
            push_str(&mut out, "\n");
        },
        None => {
            push_str(&mut out, "File:unknown\nLine:0\n");
        },
    }
    push_str(&mut out, "App:");
    push_str(&mut out, app_path);
    push_str(&mut out, "\n");
    push_str(&mut out, "Arch:");
    push_str(&mut out, arch);
    push_str(&mut out, "\n");
    push_str(&mut out, "RuntimeStart:0x");
    push_hex08(&mut out, runtime_start);
    push_str(&mut out, "\n");
    let ghost loc = match location {
        Some((f, l)) => Some((f@, l)),
        None => None,
    };
    assert(out@ =~= spec_report_head(loc, app_path@, arch@, runtime_start));
    out
}

/// The report's line when no backtrace can be walked: frame pointers do
/// not work, or the stack's end is not known (zero); none when it can.
pub fn backtrace_unavailable(frame_pointers_work: bool, limit: usize) -> (res: Option<String>)
    ensures
        !frame_pointers_work ==> (res matches Some(s) && s@ == "Backtrace:Unavailable (Frame Pointers disabled)\n"@),
        frame_pointers_work && limit == 0 ==> (res matches Some(s) && s@ == "Backtrace:Unavailable (Stack limit unknown)\n"@),
        frame_pointers_work && limit != 0 ==> res is None,
{
    if !frame_pointers_work {
        Some("Backtrace:Unavailable (Frame Pointers disabled)\n".to_owned())
    } else if limit == 0 {
        Some("Backtrace:Unavailable (Stack limit unknown)\n".to_owned())
    } else {
        None
    }
}

/// The report's line for a frame: `Backtrace:<depth>:0x<return address>`.
pub fn backtrace_frame_line(depth: u32, ret_addr: usize) -> (res: String)
    ensures
        res@ == "Backtrace:"@ + decimal_digits(depth as nat) + ":0x"@ + hex08(ret_addr as nat) + "\n"@,
{
    let mut out = String::new();
    push_str(&mut out, "Backtrace:");
    push_padded(&mut out, depth as i64, 0);
    assert(padded_int(depth as int, 0) =~= decimal_digits(depth as nat));
    push_str(&mut out, ":0x");
    push_hex08(&mut out, ret_addr);
    push_str(&mut out, "\n");
    out
}

/// The report's line for a broken chain: `Backtrace:<depth>:Corrupted (FP=0x<fp>)`.
pub fn backtrace_corrupted_line(depth: u32, fp: usize) -> (res: String)
    ensures
        res@ == "Backtrace:"@ + decimal_digits(depth as nat) + ":Corrupted (FP=0x"@ + hex08(fp as nat) + ")\n"@,
{
    let mut out = String::new();
    push_str(&mut out, "Backtrace:");
    push_padded(&mut out, depth as i64, 0);
    assert(padded_int(depth as int, 0) =~= decimal_digits(depth as nat));
    push_str(&mut out, ":Corrupted (FP=0x");
    push_hex08(&mut out, fp);
    push_str(&mut out, ")\n");
    out
}

/// The report's line when the walk went as deep as it may.
pub fn backtrace_truncated_line() -> (res: String)
    ensures
        res@ == "Backtrace:Truncated (Max depth reached)\n"@,
{
    "Backtrace:Truncated (Max depth reached)\n".to_owned()
}

/// The report's last line: the panic's message.
pub fn crash_message_line(message: &str) -> (res: String)
    ensures
        res@ == "Msg:"@ + message@ + "\n"@,
{
    let mut out = String::new();
    push_str(&mut out, "Msg:");
    push_str(&mut out, message);
    push_str(&mut out, "\n");
    out
}

/// The application's path as the report names it, from the platform's
/// answer: `unknown_path` when it failed (negative), otherwise the
/// UTF-16 text before the first zero, with `?` for each unpaired surrogate.
pub fn app_path_text(result: i32, buffer: &[u16]) -> (res: String)
    ensures
        result < 0 ==> res@ == "unknown_path"@,
        result >= 0 ==> res@ == decode_utf16_with(buffer@.take(ucs2_text_len(buffer@) as int), '?'),
{
    if result < 0 {
        return "unknown_path".to_owned();
    }
    decode_text(buffer, '?')
}

} // verus!
