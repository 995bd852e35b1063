use vstd::prelude::*;
use crate::strings::{push_char, char_from_u32};

verus! {

/// The UTF-16 code units of one character.
pub open spec fn utf16_units(c: char) -> Seq<u16> {
    let v = c as u32;
    if v < 0x10000 {
        seq![v as u16]
    } else {
        let w = v - 0x10000;
        seq![(0xD800 + w / 0x400) as u16, (0xDC00 + w % 0x400) as u16]
    }
}

/// The UTF-16 encoding of a character sequence.
pub open spec fn encode_utf16(chars: Seq<char>) -> Seq<u16>
    decreases chars.len(),
{
    if chars.len() == 0 {
        seq![]
    } else {
        utf16_units(chars[0]) + encode_utf16(chars.drop_first())
    }
}

/// What `to_ucs2` produces: the UTF-16 encoding followed by a terminating zero unit.
pub open spec fn spec_to_ucs2(chars: Seq<char>) -> Seq<u16> {
    encode_utf16(chars).push(0u16)
}

pub fn to_ucs2(s: &str) -> (res: Vec<u16>)
    ensures
        res@ == spec_to_ucs2(s@),
{
    broadcast use vstd::string::group_string_axioms;
    let mut res: Vec<u16> = Vec::new();
    assert(s@.skip(0) =~= s@);
    for c in it: s.chars()
        invariant
            it.seq() == s@,
            encode_utf16(s@) == res@ + encode_utf16(s@.skip(it.index() as int)),
    {
        assert(s@.skip(it.index() as int).drop_first() == s@.skip(it.index() + 1));
        let v = c as u32;
        if v < 0x10000 {
            res.push(v as u16);
        } else {
            let w = v - 0x10000;
            res.push((0xD800 + w / 0x400) as u16);
            res.push((0xDC00 + w % 0x400) as u16);
        }
    }
    res.push(0);
    res
}


/// A unit that opens a surrogate pair.
pub open spec fn is_high_surrogate(u: u16) -> bool {
    0xD800 <= u && u <= 0xDBFF
}

/// A unit that closes a surrogate pair.
pub open spec fn is_low_surrogate(u: u16) -> bool {
    0xDC00 <= u && u <= 0xDFFF
}

/// The scalar value that a surrogate pair stands for.
pub open spec fn surrogate_pair_value(hi: u16, lo: u16) -> u32 {
    (0x10000 + (hi - 0xD800) * 0x400 + (lo - 0xDC00)) as u32
}

/// UTF-16 decoding in which each unpaired surrogate becomes `replacement`.
pub open spec fn decode_utf16_with(units: Seq<u16>, replacement: char) -> Seq<char>
    decreases units.len(),
{
    if units.len() == 0 {
        seq![]
    } else if is_high_surrogate(units[0]) && units.len() >= 2 && is_low_surrogate(units[1]) {
        seq![surrogate_pair_value(units[0], units[1]) as char] + decode_utf16_with(units.skip(2), replacement)
    } else if is_high_surrogate(units[0]) || is_low_surrogate(units[0]) {
        seq![replacement] + decode_utf16_with(units.drop_first(), replacement)
    } else {
        seq![(units[0] as u32) as char] + decode_utf16_with(units.drop_first(), replacement)
    }
}

/// Lossy UTF-16 decoding: each unpaired surrogate becomes U+FFFD.
pub open spec fn decode_utf16_lossy(units: Seq<u16>) -> Seq<char> {
    decode_utf16_with(units, '\u{FFFD}')
}

/// Number of units before the first zero unit (all of them when there is none).
pub open spec fn ucs2_text_len(units: Seq<u16>) -> nat
    decreases units.len(),
{
    if units.len() == 0 || units[0] == 0 {
        0
    } else {
        1 + ucs2_text_len(units.drop_first())
    }
}

/// What `from_ucs2` produces: the lossy decoding of the units before the first zero.
pub open spec fn spec_from_ucs2(units: Seq<u16>) -> Seq<char> {
    decode_utf16_lossy(units.take(ucs2_text_len(units) as int))
}

proof fn lemma_text_len_char(units: Seq<u16>, k: int)
    requires
        0 <= k <= units.len(),
        forall|i: int| 0 <= i < k ==> units[i] != 0,
        k == units.len() || units[k] == 0,
    ensures
        ucs2_text_len(units) == k,
    decreases units.len(),
{
    if units.len() > 0 && units[0] != 0 {
        lemma_text_len_char(units.drop_first(), k - 1);
    }
}

pub(crate) fn decode_text(ucs2: &[u16], replacement: char) -> (res: String)
    ensures
        res@ == decode_utf16_with(ucs2@.take(ucs2_text_len(ucs2@) as int), replacement),
{
    broadcast use vstd::utf8::char_u32_cast;
    let n = ucs2.len();
    let mut len: usize = 0;
    while len < n && ucs2[len] != 0
        invariant
            n == ucs2@.len(),
            len <= n,
            forall|i: int| 0 <= i < len ==> ucs2@[i] != 0,
        decreases n - len,
    {
        len = len + 1;
    }
    proof {
        lemma_text_len_char(ucs2@, len as int);
    }
    let ghost text = ucs2@.take(len as int);
    let mut res = String::new();
    let mut i: usize = 0;
    assert(text.subrange(0, len as int) =~= text);
    while i < len
        invariant
            len <= n,
            n == ucs2@.len(),
            i <= len,
            text == ucs2@.take(len as int),
            decode_utf16_with(text, replacement) == res@ + decode_utf16_with(text.subrange(i as int, len as int), replacement),
        decreases len - i,
    {
        let ghost rest = text.subrange(i as int, len as int);
        let u = ucs2[i];
        if 0xD800 <= u && u <= 0xDBFF && i + 1 < len && 0xDC00 <= ucs2[i + 1] && ucs2[i + 1] <= 0xDFFF {
            let lo = ucs2[i + 1];
            let v: u32 = 0x10000 + ((u - 0xD800) as u32) * 0x400 + ((lo - 0xDC00) as u32);
            let c = char_from_u32(v).unwrap();
            assert(rest.skip(2) =~= text.subrange(i + 2, len as int));
            assert(rest[0] == u && rest[1] == lo);
            assert(v == surrogate_pair_value(u, lo));
            proof { vstd::utf8::char_u32_cast(c, v); }
            assert(decode_utf16_with(rest, replacement) == seq![c] + decode_utf16_with(rest.skip(2), replacement));
            push_char(&mut res, c);
            i = i + 2;
        } else if 0xD800 <= u && u <= 0xDFFF {
            assert(rest.drop_first() =~= text.subrange(i + 1, len as int));
            assert(rest[0] == u);
            assert(decode_utf16_with(rest, replacement) == seq![replacement] + decode_utf16_with(rest.drop_first(), replacement));
            push_char(&mut res, replacement);
            i = i + 1;
        } else {
            let c = char_from_u32(u as u32).unwrap();
            assert(rest.drop_first() =~= text.subrange(i + 1, len as int));
            assert(rest[0] == u);
            proof { vstd::utf8::char_u32_cast(c, u as u32); }
            assert(decode_utf16_with(rest, replacement) == seq![c] + decode_utf16_with(rest.drop_first(), replacement));
            push_char(&mut res, c);
            i = i + 1;
        }
    }
    assert(text.subrange(len as int, len as int) =~= Seq::<u16>::empty());
    res
}

/// The text of a zero-terminated UTF-16 string: the units before the first
/// zero, each unpaired surrogate replaced by U+FFFD.
pub fn from_ucs2(ucs2: &[u16]) -> (res: String)
    ensures
        res@ == spec_from_ucs2(ucs2@),
{
    decode_text(ucs2, '\u{FFFD}')
}

proof fn lemma_decode_encode_utf16(chars: Seq<char>)
    ensures
        decode_utf16_lossy(encode_utf16(chars)) == chars,
    decreases chars.len(),
{
    if chars.len() > 0 {
        let c = chars[0];
        let v = c as u32;
        vstd::utf8::char_is_scalar(c);
        vstd::utf8::char_u32_cast(c, v);
        let e = encode_utf16(chars);
        let rest = chars.drop_first();
        lemma_decode_encode_utf16(rest);
        assert(vstd::utf8::is_scalar(v));
        if v < 0x10000 {
            assert(e.drop_first() =~= encode_utf16(rest));
            assert((e[0] as u32) == v);
            assert(decode_utf16_lossy(e) =~= seq![c] + rest);
        } else {
            let w = v - 0x10000;
            assert(w == (w / 0x400) * 0x400 + w % 0x400) by (nonlinear_arith);
            assert(w / 0x400 < 0x400) by (nonlinear_arith) requires w < 0x100000;
            assert(e.skip(2) =~= encode_utf16(rest));
            assert(surrogate_pair_value(e[0], e[1]) == v);
            assert(decode_utf16_lossy(e) =~= seq![c] + rest);
        }
        assert(seq![c] + rest =~= chars);
    }
}

proof fn lemma_encode_utf16_no_zero(chars: Seq<char>)
    requires
        forall|i: int| 0 <= i < chars.len() ==> chars[i] != '\0',
    ensures
        forall|i: int| 0 <= i < encode_utf16(chars).len() ==> encode_utf16(chars)[i] != 0,
    decreases chars.len(),
{
    if chars.len() > 0 {
        let rest = chars.drop_first();
        lemma_encode_utf16_no_zero(rest);
        let c = chars[0];
        vstd::utf8::char_u32_cast(c, c as u32);
        assert(c as u32 != 0);
        let e = encode_utf16(chars);
        assert(e =~= utf16_units(c) + encode_utf16(rest));
    }
}

/// Round trip: a string without NUL characters comes back unchanged from
/// A character below U+10000 is written as one unit, its own code; any
/// other as a high surrogate followed by a low surrogate, which together
/// carry its code.
pub proof fn lemma_utf16_units_shape(c: char)
    ensures
        (c as u32) < 0x10000 ==> utf16_units(c) == seq![(c as u32) as u16] && (utf16_units(c)[0] as int) == c as int,
        (c as u32) >= 0x10000 ==> {
            &&& utf16_units(c).len() == 2
            &&& 0xD800 <= utf16_units(c)[0] <= 0xDBFF
            &&& 0xDC00 <= utf16_units(c)[1] <= 0xDFFF
            &&& 0x10000 + (utf16_units(c)[0] - 0xD800) * 0x400 + (utf16_units(c)[1] - 0xDC00) == c as int
        },
{
    let v = c as u32;
    if v >= 0x10000 {
        let w = (v - 0x10000) as int;
        assert(w / 0x400 < 0x400 && w == 0x400 * (w / 0x400) + w % 0x400 && w % 0x400 < 0x400) by (nonlinear_arith)
            requires 0 <= w < 0x100000;
    }
}

/// A single unit decodes to its own character, unless it is half of a
/// surrogate pair standing alone, which decodes to U+FFFD.
pub proof fn lemma_lone_unit_decodes(u: u16)
    ensures
        0xD800 <= u <= 0xDFFF ==> decode_utf16_lossy(seq![u]) == seq!['\u{FFFD}'],
        !(0xD800 <= u <= 0xDFFF) ==> decode_utf16_lossy(seq![u]) == seq![(u as u32) as char],
{
    let s = seq![u];
    assert(s.drop_first() =~= Seq::<u16>::empty());
    assert(decode_utf16_with(s.drop_first(), '\u{FFFD}') == Seq::<char>::empty());
    assert(seq!['\u{FFFD}'] + Seq::<char>::empty() =~= seq!['\u{FFFD}']);
    assert(seq![(u as u32) as char] + Seq::<char>::empty() =~= seq![(u as u32) as char]);
}

/// `from_ucs2` applied to what `to_ucs2` made of it.
pub proof fn lemma_ucs2_round_trip(chars: Seq<char>)
    requires
        forall|i: int| 0 <= i < chars.len() ==> chars[i] != '\0',
    ensures
        spec_from_ucs2(spec_to_ucs2(chars)) == chars,
{
    let e = encode_utf16(chars);
    lemma_encode_utf16_no_zero(chars);
    lemma_text_len_char(e.push(0u16), e.len() as int);
    assert(e.push(0u16).take(e.len() as int) =~= e);
    lemma_decode_encode_utf16(chars);
}

} // verus!
