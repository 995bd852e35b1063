use vstd::prelude::*;
use vstd::string::StringSliceAdditionalSpecFns;

verus! {

/// Appends one character to a `String` (std's `String::push`).
/// Trusted: the text of the string becomes its old text followed by `c`,
/// as std documents.
#[verifier::external_body]
pub(crate) fn push_char(s: &mut String, c: char)
    ensures
        final(s)@ == old(s)@.push(c),
{
    s.push(c);
}

/// The character whose scalar value is `v` (std's `char::from_u32`).
/// Trusted: `Some` exactly for Unicode scalar values, as std documents.
#[verifier::external_body]
pub(crate) fn char_from_u32(v: u32) -> (r: Option<char>)
    ensures
        r is Some <==> (v <= 0x10FFFF && !(0xD800 <= v <= 0xDFFF)),
        r matches Some(c) ==> c as u32 == v,
{
    char::from_u32(v)
}

} // verus!

verus! {

use vstd::utf8::*;

/// UTF-8 encoding distributes over concatenation.
pub proof fn lemma_encode_utf8_concat(a: Seq<char>, b: Seq<char>)
    ensures
        encode_utf8(a + b) == encode_utf8(a) + encode_utf8(b),
    decreases a.len(),
{
    if a.len() == 0 {
        assert(a + b =~= b);
        assert(encode_utf8(a) + encode_utf8(b) =~= encode_utf8(b));
    } else {
        lemma_encode_utf8_concat(a.drop_first(), b);
        assert((a + b).drop_first() =~= a.drop_first() + b);
        assert((a + b)[0] == a[0]);
        assert(encode_utf8(a + b) =~= encode_utf8(a) + encode_utf8(b));
    }
}

/// The UTF-8 encoding of a one-character sequence is the encoding of that scalar.
pub proof fn lemma_encode_single_char(c: char)
    ensures
        encode_utf8(seq![c]) == encode_scalar(c as u32),
{
    assert(seq![c][0] == c);
    assert(seq![c].drop_first() =~= Seq::<char>::empty());
    assert(encode_utf8(Seq::<char>::empty()) =~= Seq::<u8>::empty());
    assert(encode_utf8(seq![c]) =~= encode_scalar(c as u32));
}

/// The UTF-8 encoding of a single ASCII character is that character's code.
pub proof fn lemma_encode_ascii_char(c: char)
    requires
        (c as u32) < 0x80,
    ensures
        encode_utf8(seq![c]) == seq![c as u32 as u8],
{
    let v = c as u32;
    assert(v & 0x7F == v) by (bit_vector)
        requires
            v < 0x80,
    ;
    lemma_encode_single_char(c);
    assert(encode_utf8(seq![c]) =~= seq![c as u32 as u8]);
}

/// The UTF-8 encoding of an all-ASCII character sequence is the sequence of their codes.
pub proof fn lemma_encode_ascii_seq(s: Seq<char>)
    requires
        forall|i: int| 0 <= i < s.len() ==> (s[i] as u32) < 0x80,
    ensures
        encode_utf8(s) == s.map_values(|c: char| c as u32 as u8),
    decreases s.len(),
{
    if s.len() > 0 {
        let rest = s.drop_first();
        lemma_encode_ascii_seq(rest);
        lemma_encode_ascii_char(s[0]);
        assert(s =~= seq![s[0]] + rest);
        lemma_encode_utf8_concat(seq![s[0]], rest);
        assert(encode_utf8(s) =~= s.map_values(|c: char| c as u32 as u8));
    } else {
        assert(encode_utf8(s) =~= s.map_values(|c: char| c as u32 as u8));
    }
}

/// Around an ASCII byte of a valid UTF-8 sequence both positions are character boundaries.
pub proof fn lemma_ascii_byte_boundaries(b: Seq<u8>, i: int)
    requires
        valid_utf8(b),
        0 <= i < b.len(),
        b[i] < 0x80,
    ensures
        is_char_boundary(b, i),
        is_char_boundary(b, i + 1),
{
    is_char_boundary_iff_not_is_continuation_byte(b, i);
    if i + 1 == b.len() {
        is_char_boundary_start_end_of_seq(b);
    } else {
        valid_utf8_split(b, i);
        let s = b.subrange(i, b.len() as int);
        assert(s[0] == b[i]);
        assert(pop_first_scalar(s) =~= b.subrange(i + 1, b.len() as int));
        let t = b.subrange(i + 1, b.len() as int);
        assert(valid_utf8(t));
        assert(t.len() > 0);
        assert(valid_first_scalar(t));
        assert(t[0] == b[i + 1]);
        is_char_boundary_iff_not_is_continuation_byte(b, i + 1);
    }
}

/// Position of the last occurrence of byte `x` in `b`, or -1 when there is none.
pub open spec fn last_index_of(b: Seq<u8>, x: u8) -> int
    decreases b.len(),
{
    if b.len() == 0 {
        -1
    } else if b.last() == x {
        b.len() - 1
    } else {
        last_index_of(b.drop_last(), x)
    }
}

/// `last_index_of` is the one position holding `x` with no `x` after it.
pub proof fn lemma_last_index_of(b: Seq<u8>, x: u8, j: int)
    requires
        -1 <= j < b.len(),
        j >= 0 ==> b[j] == x,
        forall|k: int| j < k < b.len() ==> b[k] != x,
    ensures
        last_index_of(b, x) == j,
    decreases b.len(),
{
    if b.len() > 0 && j != b.len() - 1 {
        assert(b.last() != x);
        lemma_last_index_of(b.drop_last(), x, j);
    }
}

/// Where `last_index_of` points, the byte is there.
pub proof fn lemma_last_index_bounds(b: Seq<u8>, x: u8)
    ensures
        -1 <= last_index_of(b, x) < b.len(),
        last_index_of(b, x) >= 0 ==> b[last_index_of(b, x)] == x,
        forall|k: int| last_index_of(b, x) < k < b.len() ==> b[k] != x,
    decreases b.len(),
{
    if b.len() > 0 && b.last() != x {
        let d = b.drop_last();
        lemma_last_index_bounds(d, x);
        assert forall|k: int| last_index_of(b, x) < k < b.len() implies b[k] != x by {
            if k < b.len() - 1 {
                assert(b[k] == d[k]);
            }
        }
    }
}

/// The last position of byte `x` in `b`.
pub fn rfind_byte(b: &[u8], x: u8) -> (r: Option<usize>)
    ensures
        match r {
            Some(i) => i as int == last_index_of(b@, x) && 0 <= i < b@.len() && b@[i as int] == x,
            None => last_index_of(b@, x) == -1,
        },
{
    let mut i = b.len();
    while i > 0
        invariant
            i <= b@.len(),
            forall|k: int| i <= k < b@.len() ==> b@[k] != x,
        decreases i,
    {
        if b[i - 1] == x {
            proof {
                lemma_last_index_of(b@, x, i - 1);
            }
            return Some(i - 1);
        }
        i = i - 1;
    }
    proof {
        lemma_last_index_of(b@, x, -1);
    }
    None
}

/// Bytes with every '/' turned into '\'.
pub open spec fn normalize_separators(b: Seq<u8>) -> Seq<u8> {
    b.map_values(|x: u8| if x == 0x2F { 0x5Cu8 } else { x })
}

/// The character that replaces '/' when separators are normalised.
pub open spec fn normalize_char(c: char) -> char {
    if c == '/' {
        '\\'
    } else {
        c
    }
}

proof fn lemma_normalize_one_char(c: char)
    ensures
        normalize_separators(encode_utf8(seq![c])) == encode_utf8(seq![normalize_char(c)]),
{
    let v = c as u32;
    char_is_scalar(c);
    assert(seq![c].drop_first() =~= Seq::<char>::empty());
    assert(seq![normalize_char(c)].drop_first() =~= Seq::<char>::empty());
    if c == '/' {
        lemma_encode_ascii_char(c);
        lemma_encode_ascii_char('\\');
        assert(normalize_separators(encode_utf8(seq![c])) =~= encode_utf8(seq!['\\']));
    } else if v < 0x80 {
        lemma_encode_ascii_char(c);
        assert(v != 0x2F) by {
            char_u32_cast(c, v);
            if v == 0x2F {
                assert(0x2Fu32 as char == '/');
            }
        }
        assert(normalize_separators(encode_utf8(seq![c])) =~= encode_utf8(seq![c]));
    } else {
        let e = encode_utf8(seq![c]);
        lemma_encode_single_char(c);
        assert(forall|y: u32| #![auto] (0xC0u8 | ((y >> 6) & 0x1F) as u8) >= 0x80) by (bit_vector);
        assert(forall|y: u32| #![auto] (0xE0u8 | ((y >> 12) & 0x0F) as u8) >= 0x80) by (bit_vector);
        assert(forall|y: u32| #![auto] (0xF0u8 | ((y >> 18) & 0x7) as u8) >= 0x80) by (bit_vector);
        assert(forall|y: u32| #![auto] (0x80u8 | (y & 0x3F) as u8) >= 0x80) by (bit_vector);
        assert(forall|y: u32| #![auto] (0x80u8 | ((y >> 6) & 0x3F) as u8) >= 0x80) by (bit_vector);
        assert(forall|y: u32| #![auto] (0x80u8 | ((y >> 12) & 0x3F) as u8) >= 0x80) by (bit_vector);
        assert(forall|k: int| 0 <= k < e.len() ==> e[k] >= 0x80);
        assert(normalize_separators(e) =~= e);
    }
}

/// Normalising separators commutes with UTF-8 encoding.
pub proof fn lemma_normalize_encode(chars: Seq<char>)
    ensures
        normalize_separators(encode_utf8(chars)) == encode_utf8(chars.map_values(|c: char| normalize_char(c))),
    decreases chars.len(),
{
    let m = chars.map_values(|c: char| normalize_char(c));
    if chars.len() == 0 {
        assert(normalize_separators(encode_utf8(chars)) =~= encode_utf8(m));
    } else {
        let c = chars[0];
        let rest = chars.drop_first();
        lemma_normalize_encode(rest);
        assert(chars =~= seq![c] + rest);
        assert(m =~= seq![normalize_char(c)] + rest.map_values(|c: char| normalize_char(c)));
        lemma_encode_utf8_concat(seq![c], rest);
        lemma_encode_utf8_concat(seq![normalize_char(c)], rest.map_values(|c: char| normalize_char(c)));
        lemma_normalize_one_char(c);
        let e1 = encode_utf8(seq![c]);
        let e2 = encode_utf8(rest);
        assert(normalize_separators(e1 + e2) =~= normalize_separators(e1) + normalize_separators(e2));
    }
}

/// A copy of `s` with every '/' replaced by '\'.
pub fn replace_slashes(s: &str) -> (res: String)
    ensures
        res@ == s@.map_values(|c: char| normalize_char(c)),
        encode_utf8(res@) == normalize_separators(s.spec_bytes()),
{
    let mut res = String::new();
    assert(s@.skip(0) =~= s@);
    for c in it: s.chars()
        invariant
            it.seq() == s@,
            res@ == s@.take(it.index() as int).map_values(|c: char| normalize_char(c)),
    {
        let n = if c == '/' { '\\' } else { c };
        push_char(&mut res, n);
        assert(s@.take(it.index() + 1) =~= s@.take(it.index() as int).push(c));
        assert(res@ =~= s@.take(it.index() + 1).map_values(|c: char| normalize_char(c)));
    }
    assert(s@.take(s@.len() as int) =~= s@);
    proof {
        lemma_normalize_encode(s@);
    }
    res
}

} // verus!

verus! {

use vstd::utf8::{valid_utf8, encode_utf8};

/// The text whose UTF-8 encoding is `bytes` (std's `String::from_utf8`).
/// Trusted: `Some` exactly when the bytes are valid UTF-8, and then the
/// text encodes back to those bytes, as std documents.
#[verifier::external_body]
pub(crate) fn string_from_utf8(bytes: Vec<u8>) -> (res: Option<String>)
    ensures
        res is Some <==> valid_utf8(bytes@),
        res matches Some(s) ==> encode_utf8(s@) == bytes@,
{
    String::from_utf8(bytes).ok()
}

/// The characters that `trim` removes: Unicode's White_Space set, which is
/// what `char::is_whitespace` tests.
pub open spec fn is_unicode_whitespace(c: char) -> bool {
    let v = c as u32;
    (0x09 <= v && v <= 0x0D) || v == 0x20 || v == 0x85 || v == 0xA0 || v == 0x1680
        || (0x2000 <= v && v <= 0x200A) || v == 0x2028 || v == 0x2029 || v == 0x202F
        || v == 0x205F || v == 0x3000
}

/// Which characters a trim removes.
#[derive(Debug, Clone, Copy, PartialEq, Eq, Structural)]
pub enum TrimSet {
    /// The NUL character only.
    Nul,
    /// White space, as `is_unicode_whitespace` says.
    Whitespace,
}

pub open spec fn spec_trimmed_char(set: TrimSet, c: char) -> bool {
    match set {
        TrimSet::Nul => c == '\0',
        TrimSet::Whitespace => is_unicode_whitespace(c),
    }
}

/// True when `c` belongs to the set.
pub fn is_trimmed_char(set: TrimSet, c: char) -> (res: bool)
    ensures
        res == spec_trimmed_char(set, c),
{
    match set {
        TrimSet::Nul => c == '\0',
        TrimSet::Whitespace => {
            let v = c as u32;
            (0x09 <= v && v <= 0x0D) || v == 0x20 || v == 0x85 || v == 0xA0 || v == 0x1680
                || (0x2000 <= v && v <= 0x200A) || v == 0x2028 || v == 0x2029 || v == 0x202F
                || v == 0x205F || v == 0x3000
        },
    }
}

/// `s` without the characters of the set at its start.
pub open spec fn trim_start_by(s: Seq<char>, set: TrimSet) -> Seq<char>
    decreases s.len(),
{
    if s.len() > 0 && spec_trimmed_char(set, s[0]) {
        trim_start_by(s.drop_first(), set)
    } else {
        s
    }
}

/// `s` without the characters of the set at its end.
pub open spec fn trim_end_by(s: Seq<char>, set: TrimSet) -> Seq<char>
    decreases s.len(),
{
    if s.len() > 0 && spec_trimmed_char(set, s.last()) {
        trim_end_by(s.drop_last(), set)
    } else {
        s
    }
}

/// `s` without the characters of the set at either end.
pub open spec fn trim_by(s: Seq<char>, set: TrimSet) -> Seq<char> {
    trim_end_by(trim_start_by(s, set), set)
}

proof fn lemma_trim_start(s: Seq<char>, set: TrimSet, i: int)
    requires
        0 <= i <= s.len(),
        forall|k: int| 0 <= k < i ==> spec_trimmed_char(set, s[k]),
        i == s.len() || !spec_trimmed_char(set, s[i]),
    ensures
        trim_start_by(s, set) == s.skip(i),
    decreases i,
{
    if i == 0 {
        assert(s.skip(0) =~= s);
    } else {
        lemma_trim_start(s.drop_first(), set, i - 1);
        assert(s.drop_first().skip(i - 1) =~= s.skip(i));
    }
}

proof fn lemma_trim_end(s: Seq<char>, set: TrimSet, j: int)
    requires
        0 <= j <= s.len(),
        forall|k: int| j <= k < s.len() ==> spec_trimmed_char(set, s[k]),
        j == 0 || !spec_trimmed_char(set, s[j - 1]),
    ensures
        trim_end_by(s, set) == s.take(j),
    decreases s.len() - j,
{
    if j == s.len() {
        assert(s.take(j) =~= s);
    } else {
        lemma_trim_end(s.drop_last(), set, j);
        assert(s.drop_last().take(j) =~= s.take(j));
    }
}

proof fn trim_start_index(s: Seq<char>, set: TrimSet) -> (i: int)
    ensures
        0 <= i <= s.len(),
        forall|k: int| 0 <= k < i ==> spec_trimmed_char(set, s[k]),
        i == s.len() || !spec_trimmed_char(set, s[i]),
    decreases s.len(),
{
    if s.len() > 0 && spec_trimmed_char(set, s[0]) {
        let t = s.drop_first();
        let i = trim_start_index(t, set);
        assert forall|k: int| 0 <= k < i + 1 implies spec_trimmed_char(set, s[k]) by {
            if k > 0 {
                assert(s[k] == t[k - 1]);
            }
        }
        if i + 1 < s.len() {
            assert(s[i + 1] == t[i]);
        }
        i + 1
    } else {
        0
    }
}

proof fn trim_end_index(s: Seq<char>, set: TrimSet) -> (j: int)
    ensures
        0 <= j <= s.len(),
        forall|k: int| j <= k < s.len() ==> spec_trimmed_char(set, s[k]),
        j == 0 || !spec_trimmed_char(set, s[j - 1]),
    decreases s.len(),
{
    if s.len() > 0 && spec_trimmed_char(set, s.last()) {
        let t = s.drop_last();
        let j = trim_end_index(t, set);
        assert forall|k: int| j <= k < s.len() implies spec_trimmed_char(set, s[k]) by {
            if k < s.len() - 1 {
                assert(s[k] == t[k]);
            }
        }
        if j > 0 {
            assert(s[j - 1] == t[j - 1]);
        }
        j
    } else {
        s.len() as int
    }
}

/// Trimming keeps a stretch of the text, in place: what it removes in front
/// and behind are characters of the set, and what it keeps neither begins
/// nor ends with one.
pub proof fn lemma_trim_keeps_middle(s: Seq<char>, set: TrimSet)
    ensures
        trim_by(s, set).len() <= s.len(),
        trim_by(s, set).len() > 0 ==> !spec_trimmed_char(set, trim_by(s, set)[0])
            && !spec_trimmed_char(set, trim_by(s, set).last()),
        exists|i: int|
            0 <= i && i + trim_by(s, set).len() <= s.len()
            && #[trigger] s.subrange(i, i + trim_by(s, set).len()) == trim_by(s, set)
            && (forall|k: int| 0 <= k < i ==> spec_trimmed_char(set, s[k]))
            && (forall|k: int| i + trim_by(s, set).len() <= k < s.len() ==> spec_trimmed_char(set, s[k])),
{
    let i = trim_start_index(s, set);
    lemma_trim_start(s, set, i);
    let t = s.skip(i);
    let j = trim_end_index(t, set);
    lemma_trim_end(t, set, j);
    let r = trim_by(s, set);
    assert(r == t.take(j));
    assert(s.subrange(i, i + j) =~= r);
    assert forall|k: int| i + j <= k < s.len() implies spec_trimmed_char(set, s[k]) by {
        assert(s[k] == t[k - i]);
    }
    if j > 0 {
        assert(r[0] == s[i]);
        assert(r.last() == t[j - 1]);
    }
}

/// The characters of `s`, in order.
pub fn chars_of(s: &str) -> (res: Vec<char>)
    ensures
        res@ == s@,
{
    let mut v: Vec<char> = Vec::new();
    for c in it: s.chars()
        invariant
            it.seq() == s@,
            v@ == s@.take(it.index() as int),
    {
        v.push(c);
        assert(s@.take(it.index() + 1) =~= s@.take(it.index() as int).push(c));
    }
    assert(s@.take(s@.len() as int) =~= s@);
    v
}

/// `s` without the characters of `set` at either end.
pub fn trim_chars(s: &str, set: TrimSet) -> (res: String)
    ensures
        res@ == trim_by(s@, set),
{
    let v = chars_of(s);
    let n = v.len();
    let mut i: usize = 0;
    while i < n && is_trimmed_char(set, v[i])
        invariant
            n == v@.len(),
            i <= n,
            forall|k: int| 0 <= k < i ==> spec_trimmed_char(set, v@[k]),
        decreases n - i,
    {
        i = i + 1;
    }
    proof {
        lemma_trim_start(s@, set, i as int);
    }
    let mut j: usize = n;
    while j > i && is_trimmed_char(set, v[j - 1])
        invariant
            n == v@.len(),
            i <= j <= n,
            forall|k: int| j <= k < n ==> spec_trimmed_char(set, v@[k]),
        decreases j,
    {
        j = j - 1;
    }
    let ghost t = s@.skip(i as int);
    proof {
        assert forall|k: int| j - i <= k < t.len() implies spec_trimmed_char(set, t[k]) by {
            assert(t[k] == v@[i + k]);
        }
        if j > i {
            assert(t[j - i - 1] == v@[j - 1]);
        }
        lemma_trim_end(t, set, j - i);
    }
    let mut res = String::new();
    let mut k: usize = i;
    while k < j
        invariant
            n == v@.len(),
            i <= k <= j <= n,
            res@ == v@.subrange(i as int, k as int),
        decreases j - k,
    {
        push_char(&mut res, v[k]);
        assert(v@.subrange(i as int, k + 1) =~= v@.subrange(i as int, k as int).push(v@[k as int]));
        k = k + 1;
    }
    assert(res@ =~= t.take(j - i));
    res
}

/// Length of a zero-terminated byte string: the bytes before the first
/// zero, or all of them when there is none.
pub open spec fn c_str_len(b: Seq<u8>) -> nat
    decreases b.len(),
{
    if b.len() == 0 || b[0] == 0 {
        0
    } else {
        1 + c_str_len(b.drop_first())
    }
}

/// The length of a zero-terminated string counts the bytes before the
/// first zero: none of them is zero, and the byte after them, if any, is.
pub proof fn lemma_c_str_len_stops_at_zero(b: Seq<u8>)
    ensures
        c_str_len(b) <= b.len(),
        forall|i: int| 0 <= i < c_str_len(b) ==> b[i] != 0,
        c_str_len(b) < b.len() ==> b[c_str_len(b) as int] == 0,
    decreases b.len(),
{
    if b.len() > 0 && b[0] != 0 {
        let t = b.drop_first();
        lemma_c_str_len_stops_at_zero(t);
        assert forall|i: int| 0 <= i < c_str_len(b) implies b[i] != 0 by {
            if i > 0 {
                assert(b[i] == t[i - 1]);
            }
        }
        if c_str_len(b) < b.len() {
            assert(b[c_str_len(b) as int] == t[c_str_len(t) as int]);
        }
    }
}

proof fn lemma_c_str_len(b: Seq<u8>, k: int)
    requires
        0 <= k <= b.len(),
        forall|i: int| 0 <= i < k ==> b[i] != 0,
        k == b.len() || b[k] == 0,
    ensures
        c_str_len(b) == k,
    decreases b.len(),
{
    if b.len() > 0 && b[0] != 0 {
        lemma_c_str_len(b.drop_first(), k - 1);
    }
}

/// The bytes of `b` before its first zero, as a vector.
pub fn c_str_bytes(b: &[u8]) -> (res: Vec<u8>)
    ensures
        res@ == b@.take(c_str_len(b@) as int),
        res@.len() == c_str_len(b@),
        c_str_len(b@) <= b@.len(),
{
    let mut out: Vec<u8> = Vec::new();
    let mut i: usize = 0;
    while i < b.len() && b[i] != 0
        invariant
            i <= b@.len(),
            forall|k: int| 0 <= k < i ==> b@[k] != 0,
            out@ == b@.take(i as int),
        decreases b@.len() - i,
    {
        out.push(b[i]);
        assert(b@.take(i + 1) =~= b@.take(i as int).push(b@[i as int]));
        i = i + 1;
    }
    proof {
        lemma_c_str_len(b@, i as int);
    }
    out
}

} // verus!

verus! {

/// The lowercase form of a text under Unicode's case mapping, as
/// `str::to_lowercase` computes it.
pub uninterp spec fn lowercase(s: Seq<char>) -> Seq<char>;

/// The lowercase form of `s` (std's `str::to_lowercase`). Trusted: the
/// result depends on the text alone; what the mapping is, the contract does not say.
#[verifier::external_body]
pub(crate) fn to_lowercase(s: &str) -> (res: String)
    ensures
        res@ == lowercase(s@),
{
    s.to_lowercase()
}

/// The bytes of `s` followed by a zero, as C takes a string; none when
/// `s` itself holds a zero byte.
pub fn c_string(s: &str) -> (res: Option<Vec<u8>>)
    ensures
        s.spec_bytes().contains(0u8) ==> res is None,
        !s.spec_bytes().contains(0u8) ==> (res matches Some(v) && v@ == s.spec_bytes().push(0u8)),
{
    let b = s.as_bytes();
    let mut bytes: Vec<u8> = Vec::new();
    let mut i: usize = 0;
    while i < b.len()
        invariant
            b@ == s.spec_bytes(),
            i <= b@.len(),
            bytes@ == b@.take(i as int),
            forall|k: int| 0 <= k < i ==> b@[k] != 0u8,
        decreases b@.len() - i,
    {
        if b[i] == 0 {
            assert(b@.contains(0u8)) by {
                assert(b@[i as int] == 0u8);
            }
            return None;
        }
        bytes.push(b[i]);
        assert(b@.take(i + 1) =~= b@.take(i as int).push(b@[i as int]));
        i = i + 1;
    }
    bytes.push(0);
    assert(b@.take(b@.len() as int) =~= b@);
    Some(bytes)
}

} // verus!
