//! Text: the order of file names, trimming, and the stem and the extension
//! of a file name.

use vstd::prelude::*;
use vstd::string::StrSliceExecFns;
use vstd::string::StringSliceAdditionalSpecFns;

verus! {

/// Lexicographic `a <= b` on byte strings: the order of `str` in Rust.
pub open spec fn bytes_le(a: Seq<u8>, b: Seq<u8>) -> bool
    decreases a.len(),
{
    if a.len() == 0 {
        true
    } else if b.len() == 0 {
        false
    } else if a[0] != b[0] {
        a[0] < b[0]
    } else {
        bytes_le(a.drop_first(), b.drop_first())
    }
}

/// The bytes that encode `s`, by which text is ordered.
pub open spec fn text_bytes(s: Seq<char>) -> Seq<u8> {
    vstd::utf8::encode_utf8(s)
}

/// `a <= b` in the order of `str`: lexicographic on the encoded bytes.
pub open spec fn text_le(a: Seq<char>, b: Seq<char>) -> bool {
    bytes_le(text_bytes(a), text_bytes(b))
}

proof fn lemma_bytes_le_suffix(a: Seq<u8>, b: Seq<u8>, i: int)
    requires
        0 <= i <= a.len(),
        i <= b.len(),
        a.subrange(0, i) == b.subrange(0, i),
    ensures
        bytes_le(a, b) == bytes_le(a.subrange(i, a.len() as int), b.subrange(i, b.len() as int)),
    decreases i,
{
    if i == 0 {
        assert(a.subrange(0, a.len() as int) == a);
        assert(b.subrange(0, b.len() as int) == b);
    } else {
        assert(a[0] == a.subrange(0, i)[0]);
        assert(b[0] == b.subrange(0, i)[0]);
        let a1 = a.drop_first();
        let b1 = b.drop_first();
        assert(a1.subrange(0, i - 1) == a.subrange(0, i).drop_first());
        assert(b1.subrange(0, i - 1) == b.subrange(0, i).drop_first());
        lemma_bytes_le_suffix(a1, b1, i - 1);
        assert(a1.subrange(i - 1, a1.len() as int) == a.subrange(i, a.len() as int));
        assert(b1.subrange(i - 1, b1.len() as int) == b.subrange(i, b.len() as int));
    }
}

/// Whether `a` comes before or equals `b` in the order of `str`.
pub fn text_le_exec(a: &str, b: &str) -> (r: bool)
    ensures
        r == text_le(a@, b@),
{
    let x = a.as_bytes();
    let y = b.as_bytes();
    let mut i: usize = 0;
    while i < x.len() && i < y.len() && x[i] == y[i]
        invariant
            i <= x@.len(),
            i <= y@.len(),
            x@.subrange(0, i as int) == y@.subrange(0, i as int),
        decreases x@.len() - i,
    {
        assert(x@.subrange(0, i + 1) == x@.subrange(0, i as int).push(x@[i as int]));
        assert(y@.subrange(0, i + 1) == y@.subrange(0, i as int).push(y@[i as int]));
        i = i + 1;
    }
    proof {
        lemma_bytes_le_suffix(x@, y@, i as int);
    }
    if i == x.len() {
        true
    } else if i == y.len() {
        false
    } else {
        x[i] < y[i]
    }
}

/// Whether `c` counts as white space, as `char::is_whitespace` tells it.
pub uninterp spec fn is_white_space(c: char) -> bool;

/// `s` without the white space at its start and at its end.
pub open spec fn trimmed(s: Seq<char>) -> Seq<char>
    decreases s.len(),
{
    if s.len() == 0 {
        s
    } else if is_white_space(s.first()) {
        trimmed(s.drop_first())
    } else if is_white_space(s.last()) {
        trimmed(s.drop_last())
    } else {
        s
    }
}

/// The characters of an optional string.
pub open spec fn opt_text(s: Option<String>) -> Option<Seq<char>> {
    match s {
        Some(t) => Some(t@),
        None => None,
    }
}

/// Calls `str::trim`, which returns the slice that is left when the leading
/// and the trailing white space are removed. White space is what
/// `char::is_whitespace` accepts, which `is_white_space` stands for.
#[verifier::external_body]
pub(crate) fn trim(s: &str) -> (r: String)
    ensures
        r@ == trimmed(s@),
        r@.len() > 0 ==> !is_white_space(r@.first()) && !is_white_space(r@.last()),
{
    s.trim().to_owned()
}

/// The final component of a path, which `std::path::Path::file_name`
/// extracts: `None` where the path has none.
pub uninterp spec fn file_name(path: Seq<char>) -> Option<Seq<char>>;

/// Calls `std::path::Path::file_name`. Nothing is claimed of the component
/// but that it depends on the path alone, under the path syntax of the
/// platform that the library is built for.
#[verifier::external_body]
pub(crate) fn path_file_name(path: &str) -> (r: Option<String>)
    ensures
        opt_text(r) == file_name(path@),
{
    std::path::Path::new(path).file_name().map(|s| s.to_string_lossy().into_owned())
}

/// Where the last `.` of `name` stands.
pub open spec fn last_dot(name: Seq<char>) -> Option<int>
    decreases name.len(),
{
    if name.len() == 0 {
        None
    } else if name.last() == '.' {
        Some(name.len() - 1)
    } else {
        last_dot(name.drop_last())
    }
}

/// A file name without its extension: the part before the last `.`, and the
/// whole name where it holds no `.` or only one at its start.
pub open spec fn stem(name: Seq<char>) -> Seq<char> {
    match last_dot(name) {
        Some(i) => if i == 0 {
            name
        } else {
            name.subrange(0, i)
        },
        None => name,
    }
}

/// The extension of a file name: what follows the last `.`, where the name
/// holds a `.` that is not its first character.
pub open spec fn extension(name: Seq<char>) -> Option<Seq<char>> {
    match last_dot(name) {
        Some(i) => if i == 0 {
            None
        } else {
            Some(name.subrange(i + 1, name.len() as int))
        },
        None => None,
    }
}

/// The extension of the final component of a path.
pub open spec fn file_extension(path: Seq<char>) -> Option<Seq<char>> {
    match file_name(path) {
        Some(name) => extension(name),
        None => None,
    }
}

/// The stem of the final component of a path, where it has one.
pub open spec fn file_stem(path: Seq<char>) -> Option<Seq<char>> {
    match file_name(path) {
        Some(name) => Some(stem(name)),
        None => None,
    }
}

/// A name that ends in a `.` and an extension without a `.` has as its stem
/// what stands before that `.`, where anything stands there.
pub proof fn lemma_stem_drops_extension(base: Seq<char>, extension: Seq<char>)
    requires
        base.len() > 0,
        !extension.contains('.'),
    ensures
        stem(base + seq!['.'] + extension) == base,
        last_dot(base + seq!['.'] + extension) == Some(base.len() as int),
    decreases extension.len(),
{
    let name = base + seq!['.'] + extension;
    if extension.len() == 0 {
        assert(name.last() == '.');
        assert(name.subrange(0, base.len() as int) =~= base);
    } else {
        let shorter = extension.drop_last();
        assert(extension[extension.len() - 1] == extension.last());
        assert(name.last() == extension.last());
        assert(!shorter.contains('.')) by {
            if shorter.contains('.') {
                let i = choose|i: int| 0 <= i < shorter.len() && shorter[i] == '.';
                assert(extension[i] == '.');
            }
        }
        lemma_stem_drops_extension(base, shorter);
        assert(name.drop_last() =~= base + seq!['.'] + shorter);
        assert(name.subrange(0, base.len() as int) =~= base);
    }
}

/// Where the last `.` of `name` stands.
pub fn last_dot_of(name: &str) -> (r: Option<usize>)
    ensures
        match r {
            Some(i) => last_dot(name@) == Some(i as int) && i < name@.len(),
            None => last_dot(name@) is None,
        },
{
    let n = name.unicode_len();
    let mut i: usize = n;
    proof {
        assert(name@.subrange(0, n as int) =~= name@);
    }
    while i > 0
        invariant
            i <= n,
            n == name@.len(),
            last_dot(name@) == last_dot(name@.subrange(0, i as int)),
        decreases i,
    {
        let ghost head = name@.subrange(0, i as int);
        assert(head.last() == name@[i - 1]);
        if name.get_char(i - 1) == '.' {
            return Some(i - 1);
        }
        proof {
            assert(head.drop_last() =~= name@.subrange(0, i - 1));
        }
        i = i - 1;
    }
    None
}

/// The file name `name` without its extension.
pub fn stem_of(name: &str) -> (r: String)
    ensures
        r@ == stem(name@),
{
    match last_dot_of(name) {
        Some(i) => if i == 0 {
            name.to_owned()
        } else {
            name.substring_char(0, i).to_owned()
        },
        None => name.to_owned(),
    }
}

/// The extension of the file name `name`.
pub fn extension_of(name: &str) -> (r: Option<String>)
    ensures
        opt_text(r) == extension(name@),
{
    let n = name.unicode_len();
    match last_dot_of(name) {
        Some(i) => if i == 0 {
            None
        } else {
            Some(name.substring_char(i + 1, n).to_owned())
        },
        None => None,
    }
}

/// The extension of the final component of `path`.
pub fn path_extension(path: &str) -> (r: Option<String>)
    ensures
        opt_text(r) == file_extension(path@),
{
    match path_file_name(path) {
        Some(name) => extension_of(name.as_str()),
        None => None,
    }
}

/// The stem of the final component of `path`: `None` where the path has no
/// final component.
pub fn path_file_stem(path: &str) -> (r: Option<String>)
    ensures
        opt_text(r) == file_stem(path@),
{
    match path_file_name(path) {
        Some(name) => Some(stem_of(name.as_str())),
        None => None,
    }
}

} // verus!
