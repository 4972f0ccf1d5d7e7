use vstd::prelude::*;

use crate::color::{fallback_color, spec_fallback_color, Color};
use crate::text::str_eq;

verus! {

/// A color that a theme declares under a symbolic name.
#[derive(Debug)]
pub struct ThemeColorEntry {
    pub name: String,
    pub color: Color,
}

/// A named color theme; `base` names the theme that it inherits from.
#[derive(Debug)]
pub struct ColorThemeConfig {
    pub name: String,
    pub base: Option<String>,
    pub colors: Vec<ThemeColorEntry>,
}

/// An icon that a theme declares: its identifier and its SVG source or path.
#[derive(Debug)]
pub struct IconEntry {
    pub id: String,
    pub svg: String,
}

/// A named icon theme, with the directory its relative icon paths start from.
#[derive(Debug)]
pub struct IconThemeConfig {
    pub name: String,
    pub path: Option<String>,
    pub icons: Vec<IconEntry>,
}

/// The color that the entries `s` give to `name`: the last declaration wins.
pub open spec fn find_color(s: Seq<ThemeColorEntry>, name: Seq<char>) -> Option<Color>
    decreases s.len(),
{
    if s.len() == 0 {
        None
    } else if s.last().name@ == name {
        Some(s.last().color)
    } else {
        find_color(s.drop_last(), name)
    }
}

/// The position of the last theme of `ts` called `name`.
pub open spec fn find_color_theme(ts: Seq<ColorThemeConfig>, name: Seq<char>) -> Option<int>
    decreases ts.len(),
{
    if ts.len() == 0 {
        None
    } else if ts.last().name@ == name {
        Some(ts.len() - 1)
    } else {
        find_color_theme(ts.drop_last(), name)
    }
}

/// The position of the last icon theme of `ts` called `name`.
pub open spec fn find_icon_theme(ts: Seq<IconThemeConfig>, name: Seq<char>) -> Option<int>
    decreases ts.len(),
{
    if ts.len() == 0 {
        None
    } else if ts.last().name@ == name {
        Some(ts.len() - 1)
    } else {
        find_icon_theme(ts.drop_last(), name)
    }
}

/// The source that the entries `s` give to the icon `id`: the last declaration wins.
pub open spec fn find_icon(s: Seq<IconEntry>, id: Seq<char>) -> Option<Seq<char>>
    decreases s.len(),
{
    if s.len() == 0 {
        None
    } else if s.last().id@ == id {
        Some(s.last().svg@)
    } else {
        find_icon(s.drop_last(), id)
    }
}

/// The color that theme `t` of `ts`, if there is one, declares for `name`.
pub open spec fn color_in(ts: Seq<ColorThemeConfig>, t: Option<int>, name: Seq<char>) -> Option<Color> {
    match t {
        Some(i) => find_color(ts[i].colors@, name),
        None => None,
    }
}

/// The theme that theme `t` of `ts` inherits from, if it declares one and `ts` holds it.
pub open spec fn base_of(ts: Seq<ColorThemeConfig>, t: Option<int>) -> Option<int> {
    match t {
        Some(i) => match ts[i].base {
            Some(b) => find_color_theme(ts, b@),
            None => None,
        },
        None => None,
    }
}

/// The color that theme `t` of `ts` gives to `name`, or else the nearest
/// theme up its chain of base themes that declares `name`; at most `fuel`
/// themes are visited, which bounds a chain that loops back on itself.
pub open spec fn chain_color(ts: Seq<ColorThemeConfig>, t: Option<int>, name: Seq<char>, fuel: nat) -> Option<Color>
    decreases fuel,
{
    if fuel == 0 {
        None
    } else {
        match t {
            None => None,
            Some(i) => match find_color(ts[i].colors@, name) {
                Some(c) => Some(c),
                None => chain_color(ts, base_of(ts, t), name, (fuel - 1) as nat),
            },
        }
    }
}

/// What `name` resolves to with `active` as the active theme: the nearest
/// theme of the inheritance chain that starts at the active theme and declares
/// `name`, else the fallback color. The chain is followed for as many steps as
/// there are themes, so every chain without a cycle is followed to its end.
pub open spec fn resolve_color_in(ts: Seq<ColorThemeConfig>, active: Seq<char>, name: Seq<char>) -> Color {
    match chain_color(ts, find_color_theme(ts, active), name, ts.len()) {
        Some(c) => c,
        None => spec_fallback_color(),
    }
}

proof fn lemma_find_color_theme_in_range(ts: Seq<ColorThemeConfig>, name: Seq<char>)
    ensures
        match find_color_theme(ts, name) {
            Some(i) => 0 <= i < ts.len() && ts[i].name@ == name,
            None => true,
        },
    decreases ts.len(),
{
    if ts.len() > 0 && ts.last().name@ != name {
        lemma_find_color_theme_in_range(ts.drop_last(), name);
    }
}

proof fn lemma_find_icon_theme_in_range(ts: Seq<IconThemeConfig>, name: Seq<char>)
    ensures
        match find_icon_theme(ts, name) {
            Some(i) => 0 <= i < ts.len() && ts[i].name@ == name,
            None => true,
        },
    decreases ts.len(),
{
    if ts.len() > 0 && ts.last().name@ != name {
        lemma_find_icon_theme_in_range(ts.drop_last(), name);
    }
}

/// The color that `entries` declare for `name`.
pub fn lookup_color(entries: &Vec<ThemeColorEntry>, name: &str) -> (r: Option<Color>)
    ensures
        r == find_color(entries@, name@),
{
    let mut found: Option<Color> = None;
    let mut i: usize = 0;
    while i < entries.len()
        invariant
            i <= entries@.len(),
            found == find_color(entries@.subrange(0, i as int), name@),
        decreases entries@.len() - i,
    {
        assert(entries@.subrange(0, i as int + 1).drop_last() =~= entries@.subrange(0, i as int));
        if str_eq(entries[i].name.as_str(), name) {
            found = Some(entries[i].color);
        }
        i = i + 1;
    }
    assert(entries@.subrange(0, i as int) =~= entries@);
    found
}

/// The position of the theme of `themes` called `name`.
pub fn lookup_color_theme(themes: &Vec<ColorThemeConfig>, name: &str) -> (r: Option<usize>)
    ensures
        r matches Some(i) ==> i < themes@.len(),
        find_color_theme(themes@, name@) is Some <==> r is Some,
        match find_color_theme(themes@, name@) {
            Some(j) => j == r.unwrap() as int,
            None => true,
        },
{
    let mut found: Option<usize> = None;
    let mut i: usize = 0;
    while i < themes.len()
        invariant
            i <= themes@.len(),
            found matches Some(j) ==> j < i,
            find_color_theme(themes@.subrange(0, i as int), name@) is Some <==> found is Some,
            match find_color_theme(themes@.subrange(0, i as int), name@) {
                Some(j) => j == found.unwrap() as int,
                None => true,
            },
        decreases themes@.len() - i,
    {
        assert(themes@.subrange(0, i as int + 1).drop_last() =~= themes@.subrange(0, i as int));
        if str_eq(themes[i].name.as_str(), name) {
            found = Some(i);
        }
        i = i + 1;
    }
    assert(themes@.subrange(0, i as int) =~= themes@);
    found
}

/// The position of the icon theme of `themes` called `name`.
pub fn lookup_icon_theme(themes: &Vec<IconThemeConfig>, name: &str) -> (r: Option<usize>)
    ensures
        r matches Some(i) ==> i < themes@.len(),
        find_icon_theme(themes@, name@) is Some <==> r is Some,
        match find_icon_theme(themes@, name@) {
            Some(j) => j == r.unwrap() as int,
            None => true,
        },
{
    let mut found: Option<usize> = None;
    let mut i: usize = 0;
    while i < themes.len()
        invariant
            i <= themes@.len(),
            found matches Some(j) ==> j < i,
            find_icon_theme(themes@.subrange(0, i as int), name@) is Some <==> found is Some,
            match find_icon_theme(themes@.subrange(0, i as int), name@) {
                Some(j) => j == found.unwrap() as int,
                None => true,
            },
        decreases themes@.len() - i,
    {
        assert(themes@.subrange(0, i as int + 1).drop_last() =~= themes@.subrange(0, i as int));
        if str_eq(themes[i].name.as_str(), name) {
            found = Some(i);
        }
        i = i + 1;
    }
    assert(themes@.subrange(0, i as int) =~= themes@);
    found
}

/// The source that `entries` declare for the icon `id`.
pub fn lookup_icon<'a>(entries: &'a Vec<IconEntry>, id: &str) -> (r: Option<&'a str>)
    ensures
        match r {
            Some(s) => find_icon(entries@, id@) == Some(s@),
            None => find_icon(entries@, id@) is None,
        },
{
    let mut found: Option<&'a str> = None;
    let mut i: usize = 0;
    while i < entries.len()
        invariant
            i <= entries@.len(),
            match found {
                Some(s) => find_icon(entries@.subrange(0, i as int), id@) == Some(s@),
                None => find_icon(entries@.subrange(0, i as int), id@) is None,
            },
        decreases entries@.len() - i,
    {
        assert(entries@.subrange(0, i as int + 1).drop_last() =~= entries@.subrange(0, i as int));
        if str_eq(entries[i].id.as_str(), id) {
            found = Some(entries[i].svg.as_str());
        }
        i = i + 1;
    }
    assert(entries@.subrange(0, i as int) =~= entries@);
    found
}

/// Resolves `name` against the theme called `active`: its declaration, else
/// that of the nearest theme up its inheritance chain, else the fallback
/// color. Never fails.
pub fn resolve_color(themes: &Vec<ColorThemeConfig>, active: &str, name: &str) -> (r: Color)
    ensures
        r == resolve_color_in(themes@, active@, name@),
{
    proof {
        lemma_find_color_theme_in_range(themes@, active@);
    }
    let mut cur = lookup_color_theme(themes, active);
    let ghost start = find_color_theme(themes@, active@);
    let ghost mut gcur = start;
    let mut fuel: usize = themes.len();
    while fuel > 0 && cur.is_some()
        invariant
            start == find_color_theme(themes@, active@),
            cur matches Some(i) ==> i < themes@.len(),
            cur is Some <==> gcur is Some,
            cur matches Some(i) ==> gcur == Some(i as int),
            chain_color(themes@, start, name@, themes@.len()) == chain_color(
                themes@,
                gcur,
                name@,
                fuel as nat,
            ),
        decreases fuel,
    {
        let i = cur.unwrap();
        let own = lookup_color(&themes[i].colors, name);
        assert(own == find_color(themes@[i as int].colors@, name@));
        match own {
            Some(c) => {
                assert(chain_color(themes@, gcur, name@, fuel as nat) == Some(c));
                return c;
            },
            None => {},
        }
        let next = match &themes[i].base {
            Some(b) => {
                proof {
                    lemma_find_color_theme_in_range(themes@, b@);
                }
                lookup_color_theme(themes, b.as_str())
            },
            None => None,
        };
        proof {
            assert(chain_color(themes@, gcur, name@, fuel as nat) == chain_color(
                themes@,
                base_of(themes@, gcur),
                name@,
                (fuel - 1) as nat,
            ));
            gcur = base_of(themes@, gcur);
        }
        cur = next;
        fuel = fuel - 1;
    }
    fallback_color()
}

} // verus!
