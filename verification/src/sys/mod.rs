pub mod file;
pub mod fs;

use vstd::prelude::*;
use vstd::utf8::{valid_utf8, encode_utf8};
use crate::strings::{string_from_utf8, c_str_bytes, c_str_len, trim_chars, trim_by, TrimSet, chars_of,
    push_char, to_lowercase, lowercase};

verus! {

/// System properties the platform can report.
#[derive(Debug, Clone, Copy, PartialEq, Eq, Structural)]
pub enum SysProperty {
    SubscriberId,
    EquipmentId,
    MreVersion,
    HostVersion,
    MaxMemory,
    HomeDir,
    BuildDateTime,
    ReleaseBranch,
}

impl SysProperty {
    /// The platform's number for this property.
    pub fn code(self) -> (res: i32)
        ensures
            1 <= res <= 8,
            res == match self {
                SysProperty::SubscriberId => 1i32,
                SysProperty::EquipmentId => 2i32,
                SysProperty::MreVersion => 3i32,
                SysProperty::HostVersion => 4i32,
                SysProperty::MaxMemory => 5i32,
                SysProperty::HomeDir => 6i32,
                SysProperty::BuildDateTime => 7i32,
                SysProperty::ReleaseBranch => 8i32,
            },
    {
        match self {
            SysProperty::SubscriberId => 1,
            SysProperty::EquipmentId => 2,
            SysProperty::MreVersion => 3,
            SysProperty::HostVersion => 4,
            SysProperty::MaxMemory => 5,
            SysProperty::HomeDir => 6,
            SysProperty::BuildDateTime => 7,
            SysProperty::ReleaseBranch => 8,
        }
    }
}

/// Device facts the platform can report.
#[derive(Debug, Clone, Copy, PartialEq, Eq, Structural)]
pub enum DevInfo {
    ModelNumber,
    FirmwareNumber,
    LanguagePack,
}

impl DevInfo {
    /// The platform's number for this fact.
    pub fn code(self) -> (res: i32)
        ensures
            res == match self {
                DevInfo::ModelNumber => 0i32,
                DevInfo::FirmwareNumber => 1i32,
                DevInfo::LanguagePack => 2i32,
            },
    {
        match self {
            DevInfo::ModelNumber => 0,
            DevInfo::FirmwareNumber => 1,
            DevInfo::LanguagePack => 2,
        }
    }
}

/// The text of a zero-terminated UTF-8 byte string: none when it is not valid UTF-8.
pub open spec fn spec_c_text(b: Seq<u8>) -> Option<Seq<char>> {
    let clean = b.take(c_str_len(b) as int);
    if valid_utf8(clean) {
        Some(vstd::utf8::decode_utf8(clean))
    } else {
        None
    }
}

fn c_text(b: &[u8]) -> (res: Option<String>)
    ensures
        match res {
            Some(s) => spec_c_text(b@) == Some(s@),
            None => spec_c_text(b@) is None,
        },
{
    let clean = c_str_bytes(b);
    let res = string_from_utf8(clean);
    proof {
        if res is Some {
            vstd::utf8::encode_utf8_decode_utf8(res->0@);
        }
    }
    res
}

/// A system property, from the number of bytes the platform wrote into
/// `buffer`: none when it wrote nothing; otherwise the text before the first
/// zero, if that is valid UTF-8.
pub fn get_sys_property(written_len: u32, buffer: &[u8]) -> (res: Option<String>)
    requires
        written_len <= buffer@.len(),
    ensures
        written_len == 0 ==> res is None,
        written_len > 0 ==> match res {
            Some(s) => spec_c_text(buffer@.take(written_len as int)) == Some(s@),
            None => spec_c_text(buffer@.take(written_len as int)) is None,
        },
{
    if written_len == 0 {
        return None;
    }
    let valid = vstd::slice::slice_subrange(buffer, 0, written_len as usize);
    assert(valid@ =~= buffer@.take(written_len as int));
    c_text(valid)
}

/// The release version the firmware first shipped with, read as `get_sys_property` reads a property.
pub fn get_origin_release_verno(written_len: u32, buffer: &[u8]) -> (res: Option<String>)
    requires
        written_len <= buffer@.len(),
    ensures
        written_len == 0 ==> res is None,
        written_len > 0 ==> match res {
            Some(s) => spec_c_text(buffer@.take(written_len as int)) == Some(s@),
            None => spec_c_text(buffer@.take(written_len as int)) is None,
        },
{
    get_sys_property(written_len, buffer)
}

/// A device fact, from the platform's status (non-zero is the error) and
/// the buffer it filled: the text before the first zero, none when empty or not UTF-8.
pub fn get_dev_info(result: i32, buffer: &[u8]) -> (res: Option<String>)
    ensures
        result != 0 ==> res is None,
        result == 0 && c_str_len(buffer@) == 0 ==> res is None,
        result == 0 && c_str_len(buffer@) > 0 ==> match res {
            Some(s) => spec_c_text(buffer@) == Some(s@),
            None => spec_c_text(buffer@) is None,
        },
{
    if result != 0 {
        return None;
    }
    let clean = c_str_bytes(buffer);
    if clean.len() == 0 {
        return None;
    }
    c_text(buffer)
}

/// The language and country code, from the bytes the platform points to
/// (none for a null pointer): none when empty or not UTF-8.
pub fn get_country_code(code: Option<&[u8]>) -> (res: Option<String>)
    ensures
        code is None ==> res is None,
        code matches Some(b) ==> (c_str_len(b@) == 0 ==> res is None),
        code matches Some(b) ==> (c_str_len(b@) > 0 ==> match res {
            Some(s) => spec_c_text(b@) == Some(s@),
            None => spec_c_text(b@) is None,
        }),
{
    match code {
        None => None,
        Some(b) => {
            let clean = c_str_bytes(b);
            if clean.len() == 0 {
                return None;
            }
            c_text(b)
        },
    }
}

/// A reported text cleaned for display: NUL characters, then white space, removed from both ends.
pub open spec fn spec_clean(s: Seq<char>) -> Seq<char> {
    trim_by(trim_by(s, TrimSet::Nul), TrimSet::Whitespace)
}

fn clean(s: &str) -> (res: String)
    ensures
        res@ == spec_clean(s@),
{
    let t = trim_chars(s, TrimSet::Nul);
    trim_chars(t.as_str(), TrimSet::Whitespace)
}

/// The device's model, from its model number (or, when that is unknown,
/// its equipment id): cleaned, or "Unknown" when neither is known.
pub fn get_device_model(reported: Option<String>) -> (res: String)
    ensures
        reported matches Some(s) ==> res@ == spec_clean(s@),
        reported is None ==> res@ == "Unknown"@,
{
    match reported {
        Some(s) => clean(s.as_str()),
        None => "Unknown".to_owned(),
    }
}

/// The firmware's version, from its firmware number (or, when that is
/// unknown, its release branch): cleaned, or "Unknown" when neither is known.
pub fn get_system_version(reported: Option<String>) -> (res: String)
    ensures
        reported matches Some(s) ==> res@ == spec_clean(s@),
        reported is None ==> res@ == "Unknown"@,
{
    match reported {
        Some(s) => clean(s.as_str()),
        None => "Unknown".to_owned(),
    }
}

/// The locale, from the reported language and country code: cleaned, or
/// "en-US" when unknown or empty once cleaned.
pub fn get_system_locale(code: Option<String>) -> (res: String)
    ensures
        code matches Some(s) ==> (spec_clean(s@).len() > 0 ==> res@ == spec_clean(s@)),
        code matches Some(s) ==> (spec_clean(s@).len() == 0 ==> res@ == "en-US"@),
        code is None ==> res@ == "en-US"@,
{
    match code {
        Some(s) => {
            let c = clean(s.as_str());
            if c.as_str().unicode_len() == 0 {
                "en-US".to_owned()
            } else {
                c
            }
        },
        None => "en-US".to_owned(),
    }
}

/// Length of the language part of a locale: the characters before the first '-' or '_'.
pub open spec fn lang_part_len(s: Seq<char>) -> nat
    decreases s.len(),
{
    if s.len() == 0 || s[0] == '-' || s[0] == '_' {
        0
    } else {
        1 + lang_part_len(s.drop_first())
    }
}

proof fn lemma_lang_part_len(s: Seq<char>, k: int)
    requires
        0 <= k <= s.len(),
        forall|i: int| 0 <= i < k ==> s[i] != '-' && s[i] != '_',
        k == s.len() || s[k] == '-' || s[k] == '_',
    ensures
        lang_part_len(s) == k,
    decreases s.len(),
{
    if s.len() > 0 && s[0] != '-' && s[0] != '_' {
        lemma_lang_part_len(s.drop_first(), k - 1);
    }
}

/// The language part of a locale runs up to its first '-' or '_': it holds
/// neither, and what follows it, if anything, is one of them.
pub proof fn lemma_lang_part_stops_at_separator(s: Seq<char>)
    ensures
        lang_part_len(s) <= s.len(),
        forall|i: int| 0 <= i < lang_part_len(s) ==> s[i] != '-' && s[i] != '_',
        lang_part_len(s) < s.len() ==> s[lang_part_len(s) as int] == '-' || s[lang_part_len(s) as int] == '_',
    decreases s.len(),
{
    if s.len() > 0 && s[0] != '-' && s[0] != '_' {
        let t = s.drop_first();
        lemma_lang_part_stops_at_separator(t);
        assert forall|i: int| 0 <= i < lang_part_len(s) implies s[i] != '-' && s[i] != '_' by {
            if i > 0 {
                assert(s[i] == t[i - 1]);
            }
        }
        if lang_part_len(s) < s.len() {
            assert(s[lang_part_len(s) as int] == t[lang_part_len(t) as int]);
        }
    }
}

/// The language code of a locale: its part before the first '-' or '_', in lowercase.
pub fn get_system_lang_code(locale: &str) -> (res: String)
    ensures
        res@ == lowercase(locale@.take(lang_part_len(locale@) as int)),
{
    let v = chars_of(locale);
    let mut k: usize = 0;
    while k < v.len() && v[k] != '-' && v[k] != '_'
        invariant
            v@ == locale@,
            k <= v@.len(),
            forall|i: int| 0 <= i < k ==> v@[i] != '-' && v@[i] != '_',
        decreases v@.len() - k,
    {
        k = k + 1;
    }
    proof {
        lemma_lang_part_len(locale@, k as int);
    }
    let mut part = String::new();
    let mut i: usize = 0;
    while i < k
        invariant
            v@ == locale@,
            i <= k <= v@.len(),
            part@ == v@.take(i as int),
        decreases k - i,
    {
        push_char(&mut part, v[i]);
        assert(v@.take(i + 1) =~= v@.take(i as int).push(v@[i as int]));
        i = i + 1;
    }
    to_lowercase(part.as_str())
}

} // verus!
