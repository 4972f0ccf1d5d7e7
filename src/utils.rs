use vstd::prelude::*;
use vstd::string::*;
use vstd::utf8::*;

use std::path::Path;
use std::time::{SystemTime, UNIX_EPOCH};

verus! {

/// What `str::to_lowercase` makes of a string.
pub uninterp spec fn lower_of(s: Seq<char>) -> Seq<char>;

/// The extension that `Path::extension` finds in a path, as text.
pub uninterp spec fn extension_of(path: Seq<char>) -> Option<Seq<char>>;

/// The last component that `Path::file_name` finds in a path, as text.
pub uninterp spec fn file_name_of(path: Seq<char>) -> Option<Seq<char>>;

/// What `Path::strip_prefix` leaves of `target` after the prefix `base`.
pub uninterp spec fn stripped_of(base: Seq<char>, target: Seq<char>) -> Option<Seq<char>>;


/// Relies on `str::to_lowercase`: the result depends on the characters alone.
#[verifier::external_body]
fn to_lowercase(s: &str) -> (r: String)
    ensures
        r@ == lower_of(s@),
{
    s.to_lowercase()
}

/// Relies on `Path::extension`, read back as text.
#[verifier::external_body]
fn path_extension(path: &str) -> (r: Option<&str>)
    ensures
        match r {
            Some(e) => extension_of(path@) == Some(e@),
            None => extension_of(path@) is None,
        },
{
    Path::new(path).extension().and_then(|e| e.to_str())
}

/// Relies on `Path::file_name`, read back as text.
#[verifier::external_body]
fn path_file_name(path: &str) -> (r: Option<&str>)
    ensures
        match r {
            Some(n) => file_name_of(path@) == Some(n@),
            None => file_name_of(path@) is None,
        },
{
    Path::new(path).file_name().and_then(|n| n.to_str())
}

/// Relies on `Path::strip_prefix`, read back as text.
#[verifier::external_body]
fn path_strip_prefix<'a>(base: &str, target: &'a str) -> (r: Option<&'a str>)
    ensures
        match r {
            Some(p) => stripped_of(base@, target@) == Some(p@),
            None => stripped_of(base@, target@) is None,
        },
{
    Path::new(target).strip_prefix(base).ok().and_then(|p| p.to_str())
}

/// Whether `c` has the Unicode `White_Space` property, the set that
/// `char::is_whitespace` tests.
pub open spec fn is_ws(c: char) -> bool {
    let u = c as u32;
    (0x9 <= u <= 0xD) || u == 0x20 || u == 0x85 || u == 0xA0 || u == 0x1680 || (0x2000 <= u
        <= 0x200A) || u == 0x2028 || u == 0x2029 || u == 0x202F || u == 0x205F || u == 0x3000
}

/// Whether `c` is a whitespace character.
pub fn is_whitespace_char(c: char) -> (r: bool)
    ensures
        r == is_ws(c),
{
    let u = c as u32;
    (0x9 <= u && u <= 0xD) || u == 0x20 || u == 0x85 || u == 0xA0 || u == 0x1680 || (0x2000 <= u
        && u <= 0x200A) || u == 0x2028 || u == 0x2029 || u == 0x202F || u == 0x205F || u == 0x3000
}

/// Relies on `SystemTime::now` and `SystemTime::duration_since`: the
/// nanoseconds since the Unix epoch, or nothing for a clock set before it.
#[verifier::external_body]
fn now_nanos() -> (r: Option<u128>) {
    match SystemTime::now().duration_since(UNIX_EPOCH) {
        Ok(d) => Some(d.as_nanos()),
        Err(_) => None,
    }
}

/// The decimal digits of `n`, most significant first.
pub open spec fn decimal(n: nat) -> Seq<char>
    decreases n,
{
    if n < 10 {
        seq![digit_char(n)]
    } else {
        decimal(n / 10).push(digit_char(n % 10))
    }
}

pub open spec fn digit_char(d: nat) -> char {
    if d == 0 {
        '0'
    } else if d == 1 {
        '1'
    } else if d == 2 {
        '2'
    } else if d == 3 {
        '3'
    } else if d == 4 {
        '4'
    } else if d == 5 {
        '5'
    } else if d == 6 {
        '6'
    } else if d == 7 {
        '7'
    } else if d == 8 {
        '8'
    } else {
        '9'
    }
}

fn digit_str(d: u128) -> (r: &'static str)
    requires
        d < 10,
    ensures
        r@ == seq![digit_char(d as nat)],
{
    proof {
        reveal_strlit("0");
        reveal_strlit("1");
        reveal_strlit("2");
        reveal_strlit("3");
        reveal_strlit("4");
        reveal_strlit("5");
        reveal_strlit("6");
        reveal_strlit("7");
        reveal_strlit("8");
        reveal_strlit("9");
    }
    let r = if d == 0 {
        "0"
    } else if d == 1 {
        "1"
    } else if d == 2 {
        "2"
    } else if d == 3 {
        "3"
    } else if d == 4 {
        "4"
    } else if d == 5 {
        "5"
    } else if d == 6 {
        "6"
    } else if d == 7 {
        "7"
    } else if d == 8 {
        "8"
    } else {
        "9"
    };
    assert(r@ =~= seq![digit_char(d as nat)]);
    r
}

fn append_decimal(n: u128, out: &mut String)
    ensures
        final(out)@ == old(out)@ + decimal(n as nat),
    decreases n,
{
    if n >= 10 {
        append_decimal(n / 10, out);
    }
    out.append(digit_str(n % 10));
    assert(final(out)@ =~= old(out)@ + decimal(n as nat));
}

/// The number of bytes that a cut keeps before the `...`.
pub open spec fn kept_bytes(max_len: nat) -> int {
    if max_len >= 3 {
        max_len - 3
    } else {
        0
    }
}

/// The text whose UTF-8 encoding is `b`, cut when it is longer than
/// `max_len` bytes to its first `max_len - 3` bytes (none when `max_len` is
/// below 3) followed by `...`.
pub open spec fn truncated(b: Seq<u8>, max_len: nat) -> Seq<char> {
    if b.len() <= max_len {
        decode_utf8(b)
    } else {
        decode_utf8(b.subrange(0, kept_bytes(max_len))) + "..."@
    }
}

/// Miscellaneous helpers.
pub struct CommonUtils;

impl CommonUtils {
    /// `value` held within `[min, max]`.
    pub fn clamp(value: i64, min: i64, max: i64) -> (r: i64)
        ensures
            r == if value < min {
                min
            } else if value > max {
                max
            } else {
                value
            },
    {
        if value < min {
            min
        } else if value > max {
            max
        } else {
            value
        }
    }

    /// The identifier `id_<n>` for a number `n`.
    pub fn id_from_nanos(nanos: u128) -> (r: String)
        ensures
            r@ == seq!['i', 'd', '_'] + decimal(nanos as nat),
    {
        let mut out = String::from_str("id_");
        proof {
            reveal_strlit("id_");
        }
        assert("id_"@ =~= seq!['i', 'd', '_']);
        append_decimal(nanos, &mut out);
        out
    }

    /// A fresh identifier `id_<n>`, `n` the nanoseconds of the clock since
    /// the Unix epoch; a clock set before the epoch gives `id_0`.
    pub fn generate_id() -> (r: String)
        ensures
            exists|n: nat| r@ == seq!['i', 'd', '_'] + decimal(n),
    {
        let n = match now_nanos() {
            Some(n) => n,
            None => 0,
        };
        CommonUtils::id_from_nanos(n)
    }
}

/// Path helpers over paths written as text.
pub struct FileUtils;

impl FileUtils {
    /// The extension of `path`, lowercased.
    pub fn get_extension(path: &str) -> (r: Option<String>)
        ensures
            match r {
                Some(e) => extension_of(path@) matches Some(x) && e@ == lower_of(x),
                None => extension_of(path@) is None,
            },
    {
        match path_extension(path) {
            Some(e) => Some(to_lowercase(e)),
            None => None,
        }
    }

    /// Whether the last component of `path` starts with a dot.
    pub fn is_hidden(path: &str) -> (r: bool)
        ensures
            r == (file_name_of(path@) matches Some(n) && n.len() > 0 && n[0] == '.'),
    {
        match path_file_name(path) {
            Some(n) => n.unicode_len() > 0 && n.get_char(0) == '.',
            None => false,
        }
    }

    /// `path` as it is; separators are kept.
    pub fn normalize_path(path: &str) -> (r: String)
        ensures
            r@ == path@,
    {
        String::from_str(path)
    }

    /// `target` relative to `base`, if `base` is a prefix of it.
    pub fn get_relative_path(base: &str, target: &str) -> (r: Option<String>)
        ensures
            match r {
                Some(p) => stripped_of(base@, target@) == Some(p@),
                None => stripped_of(base@, target@) is None,
            },
    {
        match path_strip_prefix(base, target) {
            Some(p) => Some(String::from_str(p)),
            None => None,
        }
    }
}

/// String helpers.
pub struct StringUtils;

impl StringUtils {
    /// `s` cut when it is longer than `max_len` bytes: its first
    /// `max_len - 3` bytes followed by `...`. The cut must fall between
    /// characters.
    pub fn truncate(s: &str, max_len: usize) -> (r: String)
        requires
            s.spec_bytes().len() <= max_len || is_char_boundary(
                s.spec_bytes(),
                kept_bytes(max_len as nat),
            ),
        ensures
            r@ == truncated(s.spec_bytes(), max_len as nat),
    {
        proof {
            encode_utf8_decode_utf8(s@);
            assert(s.spec_bytes() == encode_utf8(s@));
            assert(decode_utf8(s.spec_bytes()) == s@);
        }
        if s.as_bytes().len() <= max_len {
            String::from_str(s)
        } else {
            let keep: usize = if max_len >= 3 {
                max_len - 3
            } else {
                0
            };
            let (head, _) = s.split_at(keep);
            proof {
                encode_utf8_decode_utf8(head@);
                assert(head.spec_bytes() =~= s.spec_bytes().subrange(0, kept_bytes(max_len as nat)));
                assert(head.spec_bytes() == encode_utf8(head@));
                assert(decode_utf8(s.spec_bytes().subrange(0, kept_bytes(max_len as nat))) == head@);
            }
            let r = String::from_str(head).concat("...");
            assert(r@ == head@ + "..."@);
            r
        }
    }

    /// Whether `s` is empty or whitespace only.
    pub fn is_blank(s: &str) -> (r: bool)
        ensures
            r == forall|i: int| 0 <= i < s@.len() ==> is_ws(#[trigger] s@[i]),
    {
        let n = s.unicode_len();
        let mut i: usize = 0;
        while i < n
            invariant
                n == s@.len(),
                i <= n,
                forall|j: int| 0 <= j < i ==> is_ws(#[trigger] s@[j]),
            decreases n - i,
        {
            if !is_whitespace_char(s.get_char(i)) {
                return false;
            }
            i = i + 1;
        }
        true
    }

    /// `s` lowercased.
    pub fn camel_to_snake(s: &str) -> (r: String)
        ensures
            r@ == lower_of(s@),
    {
        to_lowercase(s)
    }
}

} // verus!
