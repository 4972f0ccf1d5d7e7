use vstd::prelude::*;
use vstd::string::*;

use crate::text::str_eq;

verus! {

/// A font family as a font list names it: a generic family or a concrete name.
#[derive(Debug)]
pub enum FontFamily {
    Name(String),
    Serif,
    SansSerif,
    Monospace,
    Cursive,
    Fantasy,
}

/// The mathematical value of a `FontFamily`.
pub ghost enum FontFamilyModel {
    Name(Seq<char>),
    Serif,
    SansSerif,
    Monospace,
    Cursive,
    Fantasy,
}

impl View for FontFamily {
    type V = FontFamilyModel;

    open spec fn view(&self) -> FontFamilyModel {
        match self {
            FontFamily::Name(n) => FontFamilyModel::Name(n@),
            FontFamily::Serif => FontFamilyModel::Serif,
            FontFamily::SansSerif => FontFamilyModel::SansSerif,
            FontFamily::Monospace => FontFamilyModel::Monospace,
            FontFamily::Cursive => FontFamilyModel::Cursive,
            FontFamily::Fantasy => FontFamilyModel::Fantasy,
        }
    }
}

/// Characters that surround a family name without being part of it.
pub open spec fn is_pad(c: char) -> bool {
    c == ' ' || c == '\t' || c == '"' || c == '\''
}

pub open spec fn trim_start(t: Seq<char>) -> Seq<char>
    decreases t.len(),
{
    if t.len() > 0 && is_pad(t[0]) {
        trim_start(t.drop_first())
    } else {
        t
    }
}

pub open spec fn trim_end(t: Seq<char>) -> Seq<char>
    decreases t.len(),
{
    if t.len() > 0 && is_pad(t.last()) {
        trim_end(t.drop_last())
    } else {
        t
    }
}

/// The family that a trimmed, non-empty entry of a font list names.
pub open spec fn family_of(t: Seq<char>) -> FontFamilyModel {
    if t == "serif"@ {
        FontFamilyModel::Serif
    } else if t == "sans-serif"@ {
        FontFamilyModel::SansSerif
    } else if t == "monospace"@ {
        FontFamilyModel::Monospace
    } else if t == "cursive"@ {
        FontFamilyModel::Cursive
    } else if t == "fantasy"@ {
        FontFamilyModel::Fantasy
    } else {
        FontFamilyModel::Name(t)
    }
}

/// `f` followed by the family of the entry `seg`, unless the entry is blank.
pub open spec fn emit(f: Seq<FontFamilyModel>, seg: Seq<char>) -> Seq<FontFamilyModel> {
    let t = trim_end(trim_start(seg));
    if t.len() == 0 {
        f
    } else {
        f.push(family_of(t))
    }
}

/// After reading the first `i` characters of `s`: the families of the entries
/// closed so far by a comma, and where the open entry starts.
pub open spec fn scan_families(s: Seq<char>, i: int) -> (Seq<FontFamilyModel>, int)
    decreases i,
{
    if i <= 0 {
        (Seq::empty(), 0)
    } else {
        let (f, st) = scan_families(s, i - 1);
        if s[i - 1] == ',' {
            (emit(f, s.subrange(st, i - 1)), i)
        } else {
            (f, st)
        }
    }
}

/// The families of a comma-separated font list, in order: each entry with
/// surrounding blanks and quotes taken off, blank entries skipped.
pub open spec fn font_list(s: Seq<char>) -> Seq<FontFamilyModel> {
    let (f, st) = scan_families(s, s.len() as int);
    emit(f, s.subrange(st, s.len() as int))
}

proof fn lemma_scan_start(s: Seq<char>, i: int)
    requires
        0 <= i <= s.len(),
    ensures
        0 <= scan_families(s, i).1 <= i,
    decreases i,
{
    if i > 0 {
        lemma_scan_start(s, i - 1);
    }
}

fn is_pad_char(c: char) -> (r: bool)
    ensures
        r == is_pad(c),
{
    c == ' ' || c == '\t' || c == '"' || c == '\''
}

/// The family that a trimmed entry names.
fn family_from(t: &str) -> (r: FontFamily)
    ensures
        r@ == family_of(t@),
{
    if str_eq(t, "serif") {
        FontFamily::Serif
    } else if str_eq(t, "sans-serif") {
        FontFamily::SansSerif
    } else if str_eq(t, "monospace") {
        FontFamily::Monospace
    } else if str_eq(t, "cursive") {
        FontFamily::Cursive
    } else if str_eq(t, "fantasy") {
        FontFamily::Fantasy
    } else {
        FontFamily::Name(String::from_str(t))
    }
}

/// Appends to `out` the family of the entry `s[start..end]`, unless it is blank.
fn push_entry(s: &str, start: usize, end: usize, out: &mut Vec<FontFamily>)
    requires
        start <= end <= s@.len(),
    ensures
        final(out)@.map_values(|f: FontFamily| f@) == emit(
            old(out)@.map_values(|f: FontFamily| f@),
            s@.subrange(start as int, end as int),
        ),
{
    let ghost seg = s@.subrange(start as int, end as int);
    let mut a: usize = start;
    while a < end && is_pad_char(s.get_char(a))
        invariant
            start <= a <= end <= s@.len(),
            trim_start(seg) == trim_start(s@.subrange(a as int, end as int)),
        decreases end - a,
    {
        assert(s@.subrange(a as int, end as int).drop_first() =~= s@.subrange(a as int + 1, end as int));
        a = a + 1;
    }
    let mut b: usize = end;
    while b > a && is_pad_char(s.get_char(b - 1))
        invariant
            start <= a <= b <= end <= s@.len(),
            trim_start(seg) == s@.subrange(a as int, end as int),
            trim_end(trim_start(seg)) == trim_end(s@.subrange(a as int, b as int)),
        decreases b - a,
    {
        assert(s@.subrange(a as int, b as int).drop_last() =~= s@.subrange(a as int, b as int - 1));
        b = b - 1;
    }
    assert(trim_end(trim_start(seg)) == s@.subrange(a as int, b as int));
    if a < b {
        let t = s.substring_char(a, b);
        let fam = family_from(t);
        out.push(fam);
        assert(final(out)@.map_values(|f: FontFamily| f@) =~= old(out)@.map_values(|f: FontFamily| f@).push(
            family_of(t@),
        ));
    }
}

/// Parses a comma-separated font list, such as `"'Fira Code', monospace"`.
pub fn parse_font_list(s: &str) -> (r: Vec<FontFamily>)
    ensures
        r@.map_values(|f: FontFamily| f@) == font_list(s@),
{
    let n = s.unicode_len();
    let mut out: Vec<FontFamily> = Vec::new();
    let mut start: usize = 0;
    let mut i: usize = 0;
    while i < n
        invariant
            n == s@.len(),
            i <= n,
            scan_families(s@, i as int) == (out@.map_values(|f: FontFamily| f@), start as int),
        decreases n - i,
    {
        proof {
            lemma_scan_start(s@, i as int);
        }
        if s.get_char(i) == ',' {
            push_entry(s, start, i, &mut out);
            start = i + 1;
        }
        i = i + 1;
    }
    proof {
        lemma_scan_start(s@, i as int);
    }
    push_entry(s, start, n, &mut out);
    out
}

} // verus!
