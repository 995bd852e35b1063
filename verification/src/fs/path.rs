use vstd::prelude::*;
use vstd::string::StringSliceAdditionalSpecFns;
use vstd::utf8::*;
use crate::strings::{chars_of, normalize_char, replace_slashes, normalize_separators, last_index_of, rfind_byte, lemma_ascii_byte_boundaries, lemma_encode_ascii_seq, lemma_encode_utf8_concat, lemma_last_index_of, lemma_last_index_bounds};
use crate::ffi::ucs2::{to_ucs2, from_ucs2, spec_to_ucs2, spec_from_ucs2};

verus! {

broadcast use vstd::utf8::encode_utf8_valid_utf8;

/// Longest path, in UTF-16 units, that the platform hands out.
pub const MAX_PATH: usize = 260;

/// The byte '\', the platform's path separator.
pub open spec fn backslash() -> u8 {
    0x5C
}

/// True when the bytes end with a separator.
pub open spec fn ends_with_backslash(b: Seq<u8>) -> bool {
    b.len() > 0 && b.last() == backslash()
}

/// True when the text begins with a drive, as in `e:\`: its second and
/// third characters are ':' and '\'.
pub open spec fn is_absolute_text(t: Seq<char>) -> bool {
    t.len() >= 3 && t[1] == ':' && t[2] == '\\'
}

/// The text with every '/' turned into '\'.
pub open spec fn normalize_text(t: Seq<char>) -> Seq<char> {
    t.map_values(|c: char| normalize_char(c))
}

/// The directory relative paths start from when the application's own directory is unknown: `e:\`.
pub open spec fn default_root() -> Seq<u8> {
    seq![0x65u8, 0x3Au8, 0x5Cu8]
}

/// The bytes of `Path::new(path)` for the text `path`, given the bytes of
/// the application's directory.
pub open spec fn spec_new(path: Seq<char>, app_dir: Option<Seq<u8>>) -> Seq<u8> {
    let n = normalize_text(path);
    if is_absolute_text(n) {
        encode_utf8(n)
    } else {
        match app_dir {
            Some(d) => d + encode_utf8(n),
            None => default_root() + encode_utf8(n),
        }
    }
}

/// The bytes of `base.join(part)`.
pub open spec fn spec_join(base: Seq<u8>, part: Seq<u8>) -> Seq<u8> {
    let p = normalize_separators(part);
    if !ends_with_backslash(base) && !(p.len() > 0 && p[0] == backslash()) {
        base + seq![backslash()] + p
    } else {
        base + p
    }
}

/// The bytes in which `parent` looks for the last separator: a trailing
/// separator is ignored unless the path is at most three bytes long.
pub open spec fn parent_search(b: Seq<u8>) -> Seq<u8> {
    if b.len() > 3 && b.last() == backslash() {
        b.drop_last()
    } else {
        b
    }
}

/// The bytes of the parent directory, if any.
pub open spec fn spec_parent(b: Seq<u8>) -> Option<Seq<u8>> {
    let s = parent_search(b);
    let idx = last_index_of(s, backslash());
    if idx < 0 {
        None
    } else if idx == 2 {
        Some(s.take(3))
    } else {
        Some(s.take(idx))
    }
}

/// The directory of a path: the path itself when it ends with a separator, its parent otherwise.
pub open spec fn spec_dir_path(b: Seq<u8>) -> Option<Seq<u8>> {
    if ends_with_backslash(b) {
        Some(b)
    } else {
        spec_parent(b)
    }
}

/// The last component of a path; none when the path ends with a separator.
pub open spec fn spec_file_name(b: Seq<u8>) -> Option<Seq<u8>> {
    if ends_with_backslash(b) {
        None
    } else {
        let idx = last_index_of(b, backslash());
        if idx >= 0 {
            Some(b.skip(idx + 1))
        } else {
            Some(b)
        }
    }
}

/// The text after the last '.' of the file name, when that dot is neither
/// the first nor the last byte of the name.
pub open spec fn spec_extension(b: Seq<u8>) -> Option<Seq<u8>> {
    match spec_file_name(b) {
        None => None,
        Some(name) => {
            let idx = last_index_of(name, 0x2E);
            if idx > 0 && idx < name.len() - 1 {
                Some(name.skip(idx + 1))
            } else {
                None
            }
        },
    }
}

/// The file name without its extension; a leading dot does not start an extension.
pub open spec fn spec_file_stem(b: Seq<u8>) -> Option<Seq<u8>> {
    match spec_file_name(b) {
        None => None,
        Some(name) => {
            let idx = last_index_of(name, 0x2E);
            if idx > 0 {
                Some(name.take(idx))
            } else {
                Some(name)
            }
        },
    }
}

/// An absolute path on the device, such as `e:\mre\app.vxp`.
#[derive(Clone, Debug, PartialEq, Eq)]
pub struct Path {
    absolute_path: String,
}

impl Path {
    /// The text of the path.
    pub closed spec fn text(&self) -> Seq<char> {
        self.absolute_path@
    }
}

impl View for Path {
    type V = Seq<u8>;

    /// The UTF-8 bytes of the path.
    open spec fn view(&self) -> Seq<u8> {
        encode_utf8(self.text())
    }
}

impl Path {
    /// A path that holds `abs_path` as it is.
    pub fn from_absolute_string(abs_path: String) -> (res: Path)
        ensures
            res.text() == abs_path@,
    {
        Path { absolute_path: abs_path }
    }

    /// A path from the text `path`: separators '/' become '\'; a path that
    /// does not start with a drive is placed under `app_dir`, the application's
    /// own directory, or under `e:\` when that is unknown.
    pub fn new(path: &str, app_dir: Option<&Path>) -> (res: Path)
        ensures
            res@ == spec_new(
                path@,
                match app_dir {
                    Some(d) => Some(d@),
                    None => None,
                },
            ),
    {
        let normalized = replace_slashes(path);
        let is_absolute = {
            let chars = chars_of(normalized.as_str());
            chars.len() >= 3 && chars[1] == ':' && chars[2] == '\\'
        };
        if is_absolute {
            Self::from_absolute_string(normalized)
        } else {
            let mut full = match app_dir {
                Some(d) => d.absolute_path.clone(),
                None => {
                    let root = "e:\\";
                    proof {
                        reveal_strlit("e:\\");
                        lemma_encode_ascii_seq(root@);
                        assert(encode_utf8(root@) =~= default_root());
                    }
                    root.to_owned()
                },
            };
            let ghost before = full@;
            full.append(normalized.as_str());
            proof {
                lemma_encode_utf8_concat(before, normalized@);
            }
            Self::from_absolute_string(full)
        }
    }

    /// This path followed by `part`, with one separator between them.
    pub fn join(&self, part: &str) -> (res: Path)
        ensures
            res@ == spec_join(self@, part.spec_bytes()),
    {
        let mut new_path = self.absolute_path.clone();
        let normalized = replace_slashes(part);
        let ends = {
            let b = new_path.as_str().as_bytes();
            b.len() > 0 && b[b.len() - 1] == 0x5C
        };
        let starts = {
            let b = normalized.as_str().as_bytes();
            b.len() > 0 && b[0] == 0x5C
        };
        let ghost base = new_path@;
        if !ends && !starts {
            let sep = "\\";
            proof {
                reveal_strlit("\\");
                lemma_encode_ascii_seq(sep@);
                assert(encode_utf8(sep@) =~= seq![backslash()]);
                lemma_encode_utf8_concat(base, sep@);
            }
            new_path.append(sep);
        }
        let ghost mid = new_path@;
        new_path.append(normalized.as_str());
        proof {
            lemma_encode_utf8_concat(mid, normalized@);
        }
        Self::from_absolute_string(new_path)
    }

    /// The directory of this path: the path itself when it ends with a
    /// separator, its parent otherwise.
    pub fn dir_path(&self) -> (res: Option<Path>)
        ensures
            match res {
                Some(p) => spec_dir_path(self@) == Some(p@),
                None => spec_dir_path(self@) is None,
            },
    {
        let ends = {
            let b = self.absolute_path.as_str().as_bytes();
            b.len() > 0 && b[b.len() - 1] == 0x5C
        };
        if ends {
            Some(Self::from_absolute_string(self.absolute_path.clone()))
        } else {
            self.parent()
        }
    }

    /// The directory that holds this path. The parent of a path directly
    /// under a drive, such as `e:\a`, is the drive root `e:\`.
    pub fn parent(&self) -> (res: Option<Path>)
        ensures
            match res {
                Some(p) => spec_parent(self@) == Some(p@),
                None => spec_parent(self@) is None,
            },
    {
        let path = self.absolute_path.as_str();
        let bytes = path.as_bytes();
        let n = bytes.len();
        let search: &str = if n > 3 && bytes[n - 1] == 0x5C {
            proof {
                lemma_ascii_byte_boundaries(bytes@, n - 1);
            }
            path.split_at(n - 1).0
        } else {
            path
        };
        assert(search.spec_bytes() =~= parent_search(self@));
        let sb = search.as_bytes();
        match rfind_byte(sb, 0x5C) {
            Some(idx) => {
                proof {
                    lemma_ascii_byte_boundaries(sb@, idx as int);
                }
                let split = if idx == 2 { 3 } else { idx };
                let p = search.split_at(split).0;
                Some(Self::from_absolute_string(p.to_owned()))
            },
            None => None,
        }
    }

    /// The last component of this path, or none when it ends with a separator.
    pub fn file_name(&self) -> (res: Option<&str>)
        ensures
            match res {
                Some(s) => spec_file_name(self@) == Some(s.spec_bytes()),
                None => spec_file_name(self@) is None,
            },
    {
        let path = self.absolute_path.as_str();
        let bytes = path.as_bytes();
        let n = bytes.len();
        if n > 0 && bytes[n - 1] == 0x5C {
            return None;
        }
        match rfind_byte(bytes, 0x5C) {
            Some(idx) => {
                proof {
                    lemma_ascii_byte_boundaries(bytes@, idx as int);
                }
                let name = path.split_at(idx + 1).1;
                assert(name.spec_bytes() =~= bytes@.skip(idx + 1));
                Some(name)
            },
            None => Some(path),
        }
    }

    /// The extension of the file name: the text after its last '.', when
    /// that dot is neither its first nor its last character.
    pub fn extension(&self) -> (res: Option<&str>)
        ensures
            match res {
                Some(s) => spec_extension(self@) == Some(s.spec_bytes()),
                None => spec_extension(self@) is None,
            },
    {
        let name = match self.file_name() {
            Some(name) => name,
            None => return None,
        };
        let nb = name.as_bytes();
        match rfind_byte(nb, 0x2E) {
            Some(idx) => {
                if idx > 0 && idx < nb.len() - 1 {
                    proof {
                        lemma_ascii_byte_boundaries(nb@, idx as int);
                    }
                    let ext = name.split_at(idx + 1).1;
                    assert(ext.spec_bytes() =~= nb@.skip(idx + 1));
                    Some(ext)
                } else {
                    None
                }
            },
            None => None,
        }
    }

    /// The file name without its extension.
    pub fn file_stem(&self) -> (res: Option<&str>)
        ensures
            match res {
                Some(s) => spec_file_stem(self@) == Some(s.spec_bytes()),
                None => spec_file_stem(self@) is None,
            },
    {
        let name = match self.file_name() {
            Some(name) => name,
            None => return None,
        };
        let nb = name.as_bytes();
        match rfind_byte(nb, 0x2E) {
            Some(idx) => {
                if idx > 0 {
                    proof {
                        lemma_ascii_byte_boundaries(nb@, idx as int);
                    }
                    let stem = name.split_at(idx).0;
                    assert(stem.spec_bytes() =~= nb@.take(idx as int));
                    Some(stem)
                } else {
                    Some(name)
                }
            },
            None => Some(name),
        }
    }

    /// The path as zero-terminated UTF-16, the form the platform's file calls take.
    pub fn as_mre_str(&self) -> (res: Vec<u16>)
        ensures
            res@ == spec_to_ucs2(self.text()),
    {
        to_ucs2(self.absolute_path.as_str())
    }

    /// The text of the path.
    pub fn as_str(&self) -> (res: &str)
        ensures
            res@ == self.text(),
            res.spec_bytes() == self@,
    {
        self.absolute_path.as_str()
    }
}

/// True when the bytes hold no separator of either kind.
pub open spec fn has_no_separator(b: Seq<u8>) -> bool {
    forall|i: int| 0 <= i < b.len() ==> b[i] != 0x2F && b[i] != backslash()
}

proof fn lemma_normalize_unchanged(b: Seq<u8>)
    requires
        forall|i: int| 0 <= i < b.len() ==> b[i] != 0x2F,
    ensures
        normalize_separators(b) == b,
{
    assert(normalize_separators(b) =~= b);
}

/// When a file name has an extension it also has a stem, and the name is
/// the stem, a dot and the extension.
pub proof fn lemma_stem_dot_extension(b: Seq<u8>)
    requires
        spec_extension(b) is Some,
    ensures
        spec_file_stem(b) is Some,
        spec_file_name(b) == Some(spec_file_stem(b)->0 + seq![0x2Eu8] + spec_extension(b)->0),
{
    let name = spec_file_name(b)->0;
    let idx = last_index_of(name, 0x2E);
    lemma_last_index_bounds(name, 0x2E);
    assert(name =~= name.take(idx) + seq![0x2Eu8] + name.skip(idx + 1));
}

/// The file name is the path's last component: it is absent exactly when
/// the path ends with '\\', it holds no '\\', it ends the path, and what
/// stands before it (if anything) is a '\\'.
pub proof fn lemma_file_name_is_last_component(b: Seq<u8>)
    ensures
        spec_file_name(b) is None <==> (b.len() > 0 && b.last() == 0x5Cu8),
        spec_file_name(b) matches Some(n) ==> {
            &&& n.len() <= b.len()
            &&& b.skip(b.len() - n.len()) == n
            &&& forall|i: int| 0 <= i < n.len() ==> n[i] != 0x5Cu8
            &&& n.len() < b.len() ==> b[b.len() - n.len() - 1] == 0x5Cu8
        },
{
    lemma_last_index_bounds(b, backslash());
    let idx = last_index_of(b, backslash());
    if !ends_with_backslash(b) {
        let n = spec_file_name(b)->0;
        if idx >= 0 {
            assert(n =~= b.skip(idx + 1));
            assert(b.skip(b.len() - n.len()) =~= n);
            assert forall|i: int| 0 <= i < n.len() implies n[i] != 0x5Cu8 by {
                assert(n[i] == b[idx + 1 + i]);
            }
        } else {
            assert(b.skip(0) =~= b);
        }
    }
}

/// The stem is the file name up to its last '.', unless that dot is its
/// first byte: it begins the name, and what the name has after it is
/// either nothing (no dot past the first byte) or a '.' followed by text
/// without a '.'. The extension is that text, when it is not empty.
pub proof fn lemma_stem_and_extension(b: Seq<u8>)
    ensures
        spec_file_stem(b) is Some <==> spec_file_name(b) is Some,
        spec_file_name(b) matches Some(n) ==> {
            let t = spec_file_stem(b)->0;
            &&& t.len() <= n.len()
            &&& n.take(t.len() as int) == t
            &&& t.len() == n.len() ==> forall|k: int| 0 < k < n.len() ==> n[k] != 0x2Eu8
            &&& t.len() < n.len() ==> t.len() > 0 && n[t.len() as int] == 0x2Eu8
                && forall|k: int| t.len() < k < n.len() ==> n[k] != 0x2Eu8
            &&& (spec_extension(b) is Some <==> t.len() + 1 < n.len())
            &&& spec_extension(b) is Some ==> spec_extension(b)->0 == n.skip(t.len() + 1int)
        },
{
    if spec_file_name(b) is Some {
        let n = spec_file_name(b)->0;
        lemma_last_index_bounds(n, 0x2E);
        let idx = last_index_of(n, 0x2E);
        if idx > 0 {
            assert(n.take(idx).len() == idx);
            assert(n.take(idx) =~= n.take(idx));
        } else {
            assert(n.take(n.len() as int) =~= n);
        }
    }
}

/// The parent is the path up to its last '\\' (a trailing '\\' of a
/// path longer than a drive root does not count), keeping that '\\' when
/// it is the drive's, as in `e:\\`: it begins the path, and the rest of the
/// searched text holds no other '\\'. There is none exactly when the
/// searched text holds no '\\'.
pub proof fn lemma_parent_is_prefix(b: Seq<u8>)
    ensures
        parent_search(b) == (if b.len() > 3 && b.last() == 0x5Cu8 { b.drop_last() } else { b }),
        spec_parent(b) is None <==> forall|i: int| 0 <= i < parent_search(b).len() ==> parent_search(b)[i] != 0x5Cu8,
        spec_parent(b) matches Some(p) ==> p.len() <= parent_search(b).len()
            && parent_search(b).take(p.len() as int) == p,
        spec_parent(b) matches Some(p) ==>
            (p.len() < parent_search(b).len() && parent_search(b)[p.len() as int] == 0x5Cu8
                && forall|k: int| p.len() < k < parent_search(b).len() ==> parent_search(b)[k] != 0x5Cu8)
            || (p.len() == 3 && parent_search(b)[2] == 0x5Cu8
                && forall|k: int| 2 < k < parent_search(b).len() ==> parent_search(b)[k] != 0x5Cu8),
{
    let s = parent_search(b);
    lemma_last_index_bounds(s, backslash());
    let idx = last_index_of(s, backslash());
    if idx < 0 {
        assert forall|i: int| 0 <= i < s.len() implies s[i] != 0x5Cu8 by {}
    } else {
        assert(s[idx] == 0x5Cu8);
    }
}

/// Joining keeps the base in front, then puts one separator exactly when
/// the base does not end with '\\' and the part does not begin with '/'
/// or '\\', then the part with every '/' turned into '\\'. So a part that
/// begins with either separator never gives two separators at the seam.
pub proof fn lemma_join_layout(base: Seq<u8>, part: Seq<u8>)
    ensures
        ({
            let j = spec_join(base, part);
            let sep: int = if !(base.len() > 0 && base.last() == 0x5Cu8)
                && !(part.len() > 0 && (part[0] == 0x2Fu8 || part[0] == 0x5Cu8)) { 1 } else { 0 };
            &&& j.len() == base.len() + sep + part.len()
            &&& j.take(base.len() as int) == base
            &&& sep == 1 ==> j[base.len() as int] == 0x5Cu8
            &&& forall|i: int| 0 <= i < part.len() ==> #[trigger] j[base.len() + sep + i]
                    == (if part[i] == 0x2Fu8 { 0x5Cu8 } else { part[i] })
        }),
{
    let j = spec_join(base, part);
    let p = normalize_separators(part);
    assert(p.len() == part.len());
    if part.len() > 0 {
        assert(p[0] == (if part[0] == 0x2Fu8 { 0x5Cu8 } else { part[0] }));
    }
    assert(j.take(base.len() as int) =~= base);
}

/// Writing the part's '/' as '\\' first changes nothing: a part is joined
/// as its normalised form.
pub proof fn lemma_join_normalises_part(base: Seq<u8>, part: Seq<u8>)
    ensures
        spec_join(base, part) == spec_join(base, part.map_values(|x: u8| if x == 0x2Fu8 { 0x5Cu8 } else { x })),
{
    let q = part.map_values(|x: u8| if x == 0x2Fu8 { 0x5Cu8 } else { x });
    assert(normalize_separators(q) =~= normalize_separators(part));
}

/// Joining a plain name (non-empty, without separators) to any path gives a
/// path whose file name is that name.
pub proof fn lemma_join_file_name(base: Seq<u8>, part: Seq<u8>)
    requires
        part.len() > 0,
        has_no_separator(part),
    ensures
        spec_file_name(spec_join(base, part)) == Some(part),
{
    lemma_normalize_unchanged(part);
    let j = spec_join(base, part);
    let k = j.len() - part.len() - 1;
    assert(j.skip(k + 1) =~= part);
    assert(j[k] == backslash());
    assert forall|i: int| k < i < j.len() implies j[i] != backslash() by {
        assert(j[i] == part[i - k - 1]);
    }
    lemma_last_index_of(j, backslash(), k);
    assert(j.last() == part.last());
}

/// Joining a plain name to a path and taking the parent gives back that
/// path, when the path is a drive root such as `e:\` or does not end with a
/// separator and is not a bare drive such as `e:`.
pub proof fn lemma_join_then_parent(base: Seq<u8>, part: Seq<u8>)
    requires
        part.len() > 0,
        has_no_separator(part),
        (!ends_with_backslash(base) && base.len() != 2) || (base.len() == 3 && ends_with_backslash(base)),
    ensures
        spec_parent(spec_join(base, part)) == Some(base),
{
    lemma_normalize_unchanged(part);
    let j = spec_join(base, part);
    if ends_with_backslash(base) {
        assert(j == base + part);
        assert(j.last() == part.last());
        assert(parent_search(j) == j);
        assert(j[2] == backslash());
        assert forall|i: int| 2 < i < j.len() implies j[i] != backslash() by {
            assert(j[i] == part[i - 3]);
        }
        lemma_last_index_of(j, backslash(), 2);
        assert(j.take(3) =~= base);
    } else {
        assert(j == base + seq![backslash()] + part);
        assert(j.last() == part.last());
        assert(parent_search(j) == j);
        let k = base.len() as int;
        assert(j[k] == backslash());
        assert forall|i: int| k < i < j.len() implies j[i] != backslash() by {
            assert(j[i] == part[i - k - 1]);
        }
        lemma_last_index_of(j, backslash(), k);
        assert(j.take(k) =~= base);
    }
}

/// An absolute path without '/' is taken as it is, whatever the application's directory.
pub proof fn lemma_new_keeps_absolute(path: Seq<char>, app_dir: Option<Seq<u8>>)
    requires
        is_absolute_text(path),
        forall|i: int| 0 <= i < path.len() ==> path[i] != '/',
    ensures
        spec_new(path, app_dir) == encode_utf8(path),
{
    assert(normalize_text(path) =~= path);
}

/// A path that ends with a separator is its own directory.
pub proof fn lemma_dir_path_of_directory(b: Seq<u8>)
    requires
        ends_with_backslash(b),
    ensures
        spec_dir_path(b) == Some(b),
{
}

/// The path of the running application, from the platform's answer: the
/// status `result` of the query and the zero-terminated UTF-16 `buffer` it filled.
pub fn get_app_path(result: i32, buffer: &[u16]) -> (res: Option<Path>)
    ensures
        result < 0 ==> res is None,
        result >= 0 ==> (res matches Some(p) && p.text() == spec_from_ucs2(buffer@)),
{
    if result < 0 {
        return None;
    }
    let exec_path = from_ucs2(buffer);
    Some(Path::from_absolute_string(exec_path))
}

/// The directory of the running application, from the same answer as `get_app_path`.
pub fn get_app_dir(result: i32, buffer: &[u16]) -> (res: Option<Path>)
    ensures
        result < 0 ==> res is None,
        result >= 0 ==> match res {
            Some(p) => spec_dir_path(encode_utf8(spec_from_ucs2(buffer@))) == Some(p@),
            None => spec_dir_path(encode_utf8(spec_from_ucs2(buffer@))) is None,
        },
{
    match get_app_path(result, buffer) {
        Some(app_path) => app_path.dir_path(),
        None => None,
    }
}

} // verus!
