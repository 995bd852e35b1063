use vstd::prelude::*;
use crate::strings::push_char;
use crate::time::DateTime;

verus! {

/// `log::Record`, one message handed to the logger; opaque here.
#[verifier::external_type_specification]
#[verifier::external_body]
pub struct ExRecord<'a>(log::Record<'a>);

/// Severity of a log message.
#[derive(Debug, Clone, Copy, PartialEq, Eq, Structural)]
pub enum LogLevel {
    Error,
    Warn,
    Info,
    Debug,
    Trace,
}

/// The platform's number for a severity.
pub open spec fn spec_level_number(level: LogLevel) -> nat {
    match level {
        LogLevel::Error => 2,
        LogLevel::Warn => 3,
        LogLevel::Info => 4,
        LogLevel::Debug => 5,
        LogLevel::Trace => 6,
    }
}

/// The platform's number for a severity: 2 for errors up to 6 for tracing.
pub fn level_number(level: LogLevel) -> (res: u8)
    ensures
        res as nat == spec_level_number(level),
{
    match level {
        LogLevel::Error => 2,
        LogLevel::Warn => 3,
        LogLevel::Info => 4,
        LogLevel::Debug => 5,
        LogLevel::Trace => 6,
    }
}

/// The severity that `log::Record::level` reports for a record.
pub uninterp spec fn record_level_of(record: log::Record) -> LogLevel;

/// The source file that `log::Record::file` reports for a record, if any.
pub uninterp spec fn record_file_of(record: log::Record) -> Option<Seq<char>>;

/// The source line that `log::Record::line` reports for a record, if any.
pub uninterp spec fn record_line_of(record: log::Record) -> Option<u32>;

/// The severity of a record (`log::Record::level`), variant for variant.
/// The contract claims only that the result is the record's severity: the
/// accessor reads a field of the record and nothing else.
#[verifier::external_body]
fn record_level(record: &log::Record) -> (res: LogLevel)
    ensures
        res == record_level_of(*record),
{
    match record.level() {
        log::Level::Error => LogLevel::Error,
        log::Level::Warn => LogLevel::Warn,
        log::Level::Info => LogLevel::Info,
        log::Level::Debug => LogLevel::Debug,
        log::Level::Trace => LogLevel::Trace,
    }
}

/// The source file of a record, if known (`log::Record::file`). The contract
/// claims only that the result is the record's file field.
#[verifier::external_body]
fn record_file<'a>(record: &log::Record<'a>) -> (res: Option<&'a str>)
    ensures
        match res {
            Some(f) => record_file_of(*record) == Some(f@),
            None => record_file_of(*record) is None,
        },
{
    record.file()
}

/// The source line of a record, if known (`log::Record::line`). The contract
/// claims only that the result is the record's line field.
#[verifier::external_body]
fn record_line(record: &log::Record) -> (res: Option<u32>)
    ensures
        res == record_line_of(*record),
{
    record.line()
}

/// The message of a record, rendered (`log::Record::args` through its
/// `Display`). Nothing is stated of the text: it is whatever the caller's
/// format arguments render to.
#[verifier::external_body]
fn record_message(record: &log::Record) -> String {
    format!("{}", record.args())
}

/// The character of a decimal digit.
pub open spec fn digit_char(d: nat) -> char {
    if d == 0 { '0' }
    else if d == 1 { '1' }
    else if d == 2 { '2' }
    else if d == 3 { '3' }
    else if d == 4 { '4' }
    else if d == 5 { '5' }
    else if d == 6 { '6' }
    else if d == 7 { '7' }
    else if d == 8 { '8' }
    else { '9' }
}

/// The decimal digits of `n`, without leading zeros.
pub open spec fn decimal_digits(n: nat) -> Seq<char>
    decreases n,
{
    if n < 10 {
        seq![digit_char(n)]
    } else {
        decimal_digits(n / 10).push(digit_char(n % 10))
    }
}

/// The value of a digit character: '0' to '9' are 0 to 9, 'A' to 'F' are
/// 10 to 15; any other character is -1.
pub open spec fn digit_value(c: char) -> int {
    if '0' <= c && c <= '9' {
        c as int - '0' as int
    } else if 'A' <= c && c <= 'F' {
        c as int - 'A' as int + 10
    } else {
        -1
    }
}

/// The number that a string of digits in `base` reads as, most significant
/// first; -1 when a character is not a digit of that base.
pub open spec fn numeral_value(s: Seq<char>, base: int) -> int
    decreases s.len(),
{
    if s.len() == 0 {
        0
    } else {
        let v = digit_value(s.last());
        if 0 <= v < base && numeral_value(s.drop_last(), base) >= 0 {
            base * numeral_value(s.drop_last(), base) + v
        } else {
            -1
        }
    }
}

/// A number written in decimal reads back as itself: the digits are
/// '0' to '9', there is at least one, and there is no leading zero.
pub proof fn lemma_decimal_reads_back(n: nat)
    ensures
        numeral_value(decimal_digits(n), 10) == n,
        decimal_digits(n).len() >= 1,
        n > 0 ==> decimal_digits(n)[0] != '0',
    decreases n,
{
    lemma_digit_char_value(n % 10);
    if n < 10 {
        let d = decimal_digits(n);
        assert(d == seq![digit_char(n)]);
        assert(d.drop_last() =~= Seq::<char>::empty());
        assert(numeral_value(d.drop_last(), 10) == 0);
        assert(d.last() == digit_char(n));
        assert(n % 10 == n);
    } else {
        lemma_decimal_reads_back(n / 10);
        let d = decimal_digits(n);
        assert(d == decimal_digits(n / 10).push(digit_char(n % 10)));
        assert(d.drop_last() =~= decimal_digits(n / 10));
        assert(d.last() == digit_char(n % 10));
        assert(n == 10 * (n / 10) + n % 10);
        assert(d[0] == decimal_digits(n / 10)[0]);
    }
}

/// Zeros in front do not change what digits read as, and the padded text
/// is at least `width` long and no longer than it needs to be.
pub proof fn lemma_zero_pad_reads_back(s: Seq<char>, width: nat, base: int)
    requires
        numeral_value(s, base) >= 0,
        base > 0,
    ensures
        numeral_value(zero_pad(s, width), base) == numeral_value(s, base),
        zero_pad(s, width).len() == (if s.len() < width { width } else { s.len() }),
        zero_pad(s, width).skip(zero_pad(s, width).len() - s.len()) == s,
{
    if s.len() < width {
        let z = Seq::new((width - s.len()) as nat, |i: int| '0');
        lemma_leading_zeros(z, s, base);
        assert((z + s).skip(z.len() as int) =~= s);
    } else {
        assert(s.skip(0) =~= s);
    }
}

proof fn lemma_digit_char_value(d: nat)
    requires
        d < 10,
    ensures
        digit_value(digit_char(d)) == d,
        d > 0 ==> digit_char(d) != '0',
{
    assert('0' as int == 48);
    assert('9' as int == 57);
    if d == 0 { assert('0' as int == 48); }
    else if d == 1 { assert('1' as int == 49); }
    else if d == 2 { assert('2' as int == 50); }
    else if d == 3 { assert('3' as int == 51); }
    else if d == 4 { assert('4' as int == 52); }
    else if d == 5 { assert('5' as int == 53); }
    else if d == 6 { assert('6' as int == 54); }
    else if d == 7 { assert('7' as int == 55); }
    else if d == 8 { assert('8' as int == 56); }
    else { assert('9' as int == 57); }
}

proof fn lemma_leading_zeros(z: Seq<char>, s: Seq<char>, base: int)
    requires
        forall|i: int| 0 <= i < z.len() ==> z[i] == '0',
        numeral_value(s, base) >= 0,
        base > 0,
    ensures
        numeral_value(z + s, base) == numeral_value(s, base),
    decreases s.len(),
{
    if s.len() == 0 {
        assert(z + s =~= z);
        lemma_all_zeros(z, base);
    } else {
        lemma_leading_zeros(z, s.drop_last(), base);
        assert((z + s).drop_last() =~= z + s.drop_last());
        assert((z + s).last() == s.last());
    }
}

proof fn lemma_all_zeros(z: Seq<char>, base: int)
    requires
        forall|i: int| 0 <= i < z.len() ==> z[i] == '0',
        base > 0,
    ensures
        numeral_value(z, base) == 0,
    decreases z.len(),
{
    if z.len() > 0 {
        lemma_all_zeros(z.drop_last(), base);
        assert(digit_value(z.last()) == 0);
    }
}

/// `s` with zeros in front, up to `width` characters.
pub open spec fn zero_pad(s: Seq<char>, width: nat) -> Seq<char> {
    if s.len() < width {
        Seq::new((width - s.len()) as nat, |i: int| '0') + s
    } else {
        s
    }
}

/// An integer written in decimal at least `width` characters wide, zeros
/// after the sign: how `{:0width$}` writes it.
pub open spec fn padded_int(v: int, width: nat) -> Seq<char> {
    if v >= 0 {
        zero_pad(decimal_digits(v as nat), width)
    } else {
        seq!['-'] + zero_pad(decimal_digits((-v) as nat), if width > 0 { (width - 1) as nat } else { 0 })
    }
}

fn digit(d: u64) -> (res: char)
    requires
        d < 10,
    ensures
        res == digit_char(d as nat),
{
    if d == 0 { '0' }
    else if d == 1 { '1' }
    else if d == 2 { '2' }
    else if d == 3 { '3' }
    else if d == 4 { '4' }
    else if d == 5 { '5' }
    else if d == 6 { '6' }
    else if d == 7 { '7' }
    else if d == 8 { '8' }
    else { '9' }
}

fn decimal(n: u64) -> (res: Vec<char>)
    ensures
        res@ == decimal_digits(n as nat),
        res@.len() >= 1,
    decreases n,
{
    if n < 10 {
        let mut v: Vec<char> = Vec::new();
        v.push(digit(n));
        v
    } else {
        let mut v = decimal(n / 10);
        v.push(digit(n % 10));
        v
    }
}

pub(crate) fn push_padded(out: &mut String, v: i64, width: usize)
    requires
        v > i64::MIN,
    ensures
        final(out)@ == old(out)@ + padded_int(v as int, width as nat),
{
    let ghost start = out@;
    let w: usize = if v < 0 {
        push_char(out, '-');
        if width > 0 { width - 1 } else { 0 }
    } else {
        width
    };
    let mag: u64 = if v < 0 { (-v) as u64 } else { v as u64 };
    let digits = decimal(mag);
    let ghost after_sign = out@;
    let mut k: usize = digits.len();
    while k < w
        invariant
            after_sign.len() <= out@.len(),
            out@ == after_sign + Seq::new((k - digits@.len()) as nat, |i: int| '0'),
            digits@.len() <= k,
            k == digits@.len() || k <= w,
        decreases w - k,
    {
        push_char(out, '0');
        assert(out@ =~= after_sign + Seq::new((k + 1 - digits@.len()) as nat, |i: int| '0'));
        k = k + 1;
    }
    let ghost zeros = out@;
    let mut i: usize = 0;
    while i < digits.len()
        invariant
            i <= digits@.len(),
            out@ == zeros + digits@.take(i as int),
        decreases digits@.len() - i,
    {
        push_char(out, digits[i]);
        assert(digits@.take(i + 1) =~= digits@.take(i as int).push(digits@[i as int]));
        i = i + 1;
    }
    assert(digits@.take(digits@.len() as int) =~= digits@);
    let ghost pad = if digits@.len() < w { (w - digits@.len()) as nat } else { 0 };
    assert(zeros =~= after_sign + Seq::new(pad, |i: int| '0'));
    if v < 0 {
        assert(out@ =~= start + (seq!['-'] + zero_pad(decimal_digits((-v) as nat), w as nat)));
    } else {
        assert(out@ =~= start + zero_pad(decimal_digits(v as nat), w as nat));
    }
}

pub(crate) fn push_str(out: &mut String, s: &str)
    ensures
        final(out)@ == old(out)@ + s@,
{
    let ghost start = out@;
    let mut i: usize = 0;
    let v = crate::strings::chars_of(s);
    while i < v.len()
        invariant
            v@ == s@,
            i <= v@.len(),
            out@ == start + v@.take(i as int),
        decreases v@.len() - i,
    {
        push_char(out, v[i]);
        assert(v@.take(i + 1) =~= v@.take(i as int).push(v@[i as int]));
        i = i + 1;
    }
    assert(v@.take(v@.len() as int) =~= v@);
}

/// The date part of a log line: `YYYY-MM-DD`.
pub open spec fn spec_ymd_part(date: DateTime) -> Seq<char> {
    padded_int(date.year as int, 4) + seq!['-'] + padded_int(date.month as int, 2) + seq!['-']
        + padded_int(date.day as int, 2)
}

/// The time part of a log line: `hh:mm:ss`.
pub open spec fn spec_hms_part(date: DateTime) -> Seq<char> {
    padded_int(date.hour as int, 2) + seq![':'] + padded_int(date.minute as int, 2) + seq![':']
        + padded_int(date.second as int, 2)
}

/// The date and time part of a log line: `YYYY-MM-DD hh:mm:ss`.
pub open spec fn spec_date_part(date: DateTime) -> Seq<char> {
    spec_ymd_part(date) + seq![' '] + spec_hms_part(date)
}

/// The source part of a log line: `file:line`, with `unknown` and `0` for what is not known.
pub open spec fn spec_location_part(file: Option<Seq<char>>, line: Option<u32>) -> Seq<char> {
    (match file {
        Some(f) => f,
        None => seq!['u', 'n', 'k', 'n', 'o', 'w', 'n'],
    }) + seq![':'] + decimal_digits(
        match line {
            Some(l) => l as nat,
            None => 0,
        },
    )
}

/// One line of the application log:
/// `YYYY-MM-DD hh:mm:ss<TAB>level<TAB>file:line<TAB>message`, then a NUL.
pub open spec fn spec_log_line(date: DateTime, level: LogLevel, file: Option<Seq<char>>, line: Option<u32>, message: Seq<char>) -> Seq<char> {
    spec_date_part(date) + seq!['\t'] + decimal_digits(spec_level_number(level)) + seq!['\t']
        + spec_location_part(file, line) + seq!['\t'] + message + seq!['\0']
}

/// Ten to the power `k`.
pub open spec fn ten_pow(k: nat) -> nat
    decreases k,
{
    if k == 0 { 1 } else { 10 * ten_pow((k - 1) as nat) }
}

proof fn lemma_decimal_len(n: nat, k: nat)
    requires
        k >= 1,
        n < ten_pow(k),
    ensures
        decimal_digits(n).len() <= k,
    decreases k,
{
    if n >= 10 {
        assert(k >= 2) by {
            if k == 1 { assert(ten_pow(1) == 10 * ten_pow(0)); }
        }
        let t = ten_pow((k - 1) as nat);
        assert(n / 10 < t) by (nonlinear_arith)
            requires n < 10 * t, t >= 1;
        lemma_decimal_len(n / 10, (k - 1) as nat);
    }
}

/// A value below ten to the `width` is written in exactly `width` digits,
/// zeros in front, and reads back as itself.
pub proof fn lemma_padded_int_fixed(v: int, width: nat)
    requires
        width >= 1,
        0 <= v < ten_pow(width),
    ensures
        padded_int(v, width).len() == width,
        numeral_value(padded_int(v, width), 10) == v,
{
    lemma_decimal_len(v as nat, width);
    lemma_decimal_reads_back(v as nat);
    lemma_zero_pad_reads_back(decimal_digits(v as nat), width, 10);
}

/// Reading a log line: for a date whose year has at most four digits and
/// whose other fields at most two, the line starts with the year, month,
/// day, hour, minute and second in fixed columns (`YYYY-MM-DD hh:mm:ss`),
/// each reading back as the date's field, then a tab, the level's number
/// (2 for errors to 6 for tracing) and a tab; it ends with a tab, the
/// message and a NUL.
#[verifier::spinoff_prover]
#[verifier::rlimit(40)]
pub proof fn lemma_log_line_fields(date: DateTime, level: LogLevel, file: Option<Seq<char>>, line: Option<u32>, message: Seq<char>)
    requires
        0 <= date.year < 10000,
        0 <= date.month < 100,
        0 <= date.day < 100,
        0 <= date.hour < 100,
        0 <= date.minute < 100,
        0 <= date.second < 100,
    ensures
        ({
            let l = spec_log_line(date, level, file, line, message);
            &&& l.len() >= 24 + message.len()
            &&& numeral_value(l.subrange(0, 4), 10) == date.year
            &&& l[4] == '-'
            &&& numeral_value(l.subrange(5, 7), 10) == date.month
            &&& l[7] == '-'
            &&& numeral_value(l.subrange(8, 10), 10) == date.day
            &&& l[10] == ' '
            &&& numeral_value(l.subrange(11, 13), 10) == date.hour
            &&& l[13] == ':'
            &&& numeral_value(l.subrange(14, 16), 10) == date.minute
            &&& l[16] == ':'
            &&& numeral_value(l.subrange(17, 19), 10) == date.second
            &&& l[19] == '\t'
            &&& numeral_value(l.subrange(20, 21), 10) == (match level {
                LogLevel::Error => 2int,
                LogLevel::Warn => 3int,
                LogLevel::Info => 4int,
                LogLevel::Debug => 5int,
                LogLevel::Trace => 6int,
            })
            &&& l[21] == '\t'
            &&& l.last() == '\0'
            &&& l[l.len() - 2 - message.len()] == '\t'
            &&& l.subrange(l.len() - 1 - message.len(), l.len() - 1) == message
        }),
{
    assert(ten_pow(2) == 100) by { reveal_with_fuel(ten_pow, 3); }
    assert(ten_pow(4) == 10000) by { reveal_with_fuel(ten_pow, 5); }
    lemma_padded_int_fixed(date.year as int, 4);
    lemma_padded_int_fixed(date.month as int, 2);
    lemma_padded_int_fixed(date.day as int, 2);
    lemma_padded_int_fixed(date.hour as int, 2);
    lemma_padded_int_fixed(date.minute as int, 2);
    lemma_padded_int_fixed(date.second as int, 2);
    let lv = spec_level_number(level);
    lemma_decimal_reads_back(lv);
    assert(decimal_digits(lv) == seq![digit_char(lv)]);
    let head = spec_date_part(date) + seq!['\t'] + decimal_digits(lv) + seq!['\t'];
    lemma_head_columns(
        padded_int(date.year as int, 4),
        padded_int(date.month as int, 2),
        padded_int(date.day as int, 2),
        padded_int(date.hour as int, 2),
        padded_int(date.minute as int, 2),
        padded_int(date.second as int, 2),
        decimal_digits(lv),
    );
    assert(head =~= padded_int(date.year as int, 4) + seq!['-'] + padded_int(date.month as int, 2) + seq!['-']
        + padded_int(date.day as int, 2) + seq![' '] + padded_int(date.hour as int, 2) + seq![':']
        + padded_int(date.minute as int, 2) + seq![':'] + padded_int(date.second as int, 2)
        + seq!['\t'] + decimal_digits(lv) + seq!['\t']);
    let loc = spec_location_part(file, line);
    let tail = loc + seq!['\t'] + message + seq!['\0'];
    let l = spec_log_line(date, level, file, line, message);
    assert(l =~= head + tail);
    assert(l.subrange(0, 4) =~= head.subrange(0, 4));
    assert(l.subrange(5, 7) =~= head.subrange(5, 7));
    assert(l.subrange(8, 10) =~= head.subrange(8, 10));
    assert(l.subrange(11, 13) =~= head.subrange(11, 13));
    assert(l.subrange(14, 16) =~= head.subrange(14, 16));
    assert(l.subrange(17, 19) =~= head.subrange(17, 19));
    assert(l.subrange(20, 21) =~= head.subrange(20, 21));
    assert(l[4] == head[4] && l[7] == head[7] && l[10] == head[10] && l[13] == head[13]);
    assert(l[16] == head[16] && l[19] == head[19] && l[21] == head[21]);
    assert(loc.len() >= 2);
    assert(l.subrange(l.len() - 1 - message.len(), l.len() - 1) =~= message);
}

/// The columns of `YYYY-MM-DD hh:mm:ss<TAB>L<TAB>` built from fields of those widths.
#[verifier::spinoff_prover]
proof fn lemma_head_columns(y: Seq<char>, mo: Seq<char>, d: Seq<char>, h: Seq<char>, mi: Seq<char>, se: Seq<char>, lv: Seq<char>)
    requires
        y.len() == 4,
        mo.len() == 2,
        d.len() == 2,
        h.len() == 2,
        mi.len() == 2,
        se.len() == 2,
        lv.len() == 1,
    ensures
        ({
            let head = y + seq!['-'] + mo + seq!['-'] + d + seq![' '] + h + seq![':'] + mi + seq![':'] + se
                + seq!['\t'] + lv + seq!['\t'];
            &&& head.len() == 22
            &&& head.subrange(0, 4) == y
            &&& head[4] == '-'
            &&& head.subrange(5, 7) == mo
            &&& head[7] == '-'
            &&& head.subrange(8, 10) == d
            &&& head[10] == ' '
            &&& head.subrange(11, 13) == h
            &&& head[13] == ':'
            &&& head.subrange(14, 16) == mi
            &&& head[16] == ':'
            &&& head.subrange(17, 19) == se
            &&& head[19] == '\t'
            &&& head.subrange(20, 21) == lv
            &&& head[21] == '\t'
        }),
{
    let head = y + seq!['-'] + mo + seq!['-'] + d + seq![' '] + h + seq![':'] + mi + seq![':'] + se
        + seq!['\t'] + lv + seq!['\t'];
    assert(head.subrange(0, 4) =~= y);
    assert(head.subrange(5, 7) =~= mo);
    assert(head.subrange(8, 10) =~= d);
    assert(head.subrange(11, 13) =~= h);
    assert(head.subrange(14, 16) =~= mi);
    assert(head.subrange(17, 19) =~= se);
    assert(head.subrange(20, 21) =~= lv);
}

fn push_three(out: &mut String, a: i64, wa: usize, sep: char, b: i64, c: i64)
    requires
        a > i64::MIN,
        b > i64::MIN,
        c > i64::MIN,
    ensures
        final(out)@ == old(out)@ + padded_int(a as int, wa as nat) + seq![sep] + padded_int(b as int, 2)
            + seq![sep] + padded_int(c as int, 2),
{
    let ghost s0 = out@;
    push_padded(out, a, wa);
    let ghost s1 = out@;
    push_char(out, sep);
    push_padded(out, b, 2);
    let ghost s2 = out@;
    push_char(out, sep);
    push_padded(out, c, 2);
    assert(s2 =~= s1 + seq![sep] + padded_int(b as int, 2));
    assert(out@ =~= s2 + seq![sep] + padded_int(c as int, 2));
    assert(out@ =~= s0 + padded_int(a as int, wa as nat) + seq![sep] + padded_int(b as int, 2)
        + seq![sep] + padded_int(c as int, 2));
}

fn push_date(out: &mut String, date: DateTime)
    ensures
        final(out)@ == old(out)@ + spec_date_part(date),
{
    let ghost s0 = out@;
    push_three(out, date.year as i64, 4, '-', date.month as i64, date.day as i64);
    let ghost s1 = out@;
    push_char(out, ' ');
    let ghost s2 = out@;
    push_three(out, date.hour as i64, 2, ':', date.minute as i64, date.second as i64);
    assert(s1 =~= s0 + spec_ymd_part(date));
    assert(out@ =~= s2 + spec_hms_part(date));
    assert(out@ =~= s0 + spec_date_part(date));
}

fn push_location(out: &mut String, file: Option<&str>, line: Option<u32>)
    ensures
        final(out)@ == old(out)@ + spec_location_part(match file { Some(f) => Some(f@), None => None }, line),
{
    let ghost s0 = out@;
    match file {
        Some(f) => push_str(out, f),
        None => {
            let unknown = "unknown";
            proof {
                reveal_strlit("unknown");
            }
            push_str(out, unknown);
        },
    }
    push_char(out, ':');
    let ln: u64 = match line {
        Some(l) => l as u64,
        None => 0,
    };
    let ld = decimal(ln);
    let ghost before = out@;
    let mut i: usize = 0;
    while i < ld.len()
        invariant
            i <= ld@.len(),
            out@ == before + ld@.take(i as int),
        decreases ld@.len() - i,
    {
        push_char(out, ld[i]);
        assert(ld@.take(i + 1) =~= ld@.take(i as int).push(ld@[i as int]));
        i = i + 1;
    }
    assert(ld@.take(ld@.len() as int) =~= ld@);
    assert(out@ =~= s0 + spec_location_part(match file { Some(f) => Some(f@), None => None }, line));
}

/// Writes one line of the application log (see `spec_log_line`).
pub fn format_log_line(date: DateTime, level: LogLevel, file: Option<&str>, line: Option<u32>, message: &str) -> (res: String)
    ensures
        res@ == spec_log_line(date, level, match file { Some(f) => Some(f@), None => None }, line, message@),
{
    let mut out = String::new();
    push_date(&mut out, date);
    let ghost d = out@;
    push_char(&mut out, '\t');
    let digits = decimal(level_number(level) as u64);
    push_char(&mut out, digits[0]);
    proof {
        assert(decimal_digits(spec_level_number(level)) =~= seq![digits@[0]]);
    }
    push_char(&mut out, '\t');
    let ghost l = out@;
    push_location(&mut out, file, line);
    let ghost m = out@;
    push_char(&mut out, '\t');
    push_str(&mut out, message);
    push_char(&mut out, '\0');
    assert(d =~= spec_date_part(date));
    assert(l =~= spec_date_part(date) + seq!['\t'] + decimal_digits(spec_level_number(level)) + seq!['\t']);
    assert(out@ =~= m + seq!['\t'] + message@ + seq!['\0']);
    out
}

/// The log line of a record written at `date`: the record's severity, file
/// and line, and its message as the record renders it.
pub fn app_log_record(record: &log::Record, date: DateTime) -> (res: String)
    ensures
        exists|message: Seq<char>|
            res@ == spec_log_line(
                date,
                record_level_of(*record),
                record_file_of(*record),
                record_line_of(*record),
                message,
            ),
{
    let level = record_level(record);
    let file = record_file(record);
    let line = record_line(record);
    let message = record_message(record);
    let res = format_log_line(date, level, file, line, message.as_str());
    proof {
        let f = match file { Some(f) => Some(f@), None => None };
        assert(res@ == spec_log_line(date, level, f, line, message@));
    }
    res
}

/// The text handed to the platform's log call: `msg` itself when it already
/// ends with a NUL, otherwise `msg` followed by a NUL.
pub fn app_log(msg: &str) -> (res: String)
    ensures
        res@ == (if msg@.len() > 0 && msg@.last() == '\0' { msg@ } else { msg@.push('\0') }),
{
    let mut out = String::new();
    push_str(&mut out, msg);
    assert(out@ =~= msg@);
    let v = crate::strings::chars_of(msg);
    if v.len() > 0 && v[v.len() - 1] == '\0' {
        out
    } else {
        push_char(&mut out, '\0');
        out
    }
}

} // verus!
