//! The four theme colours, picked from a wallust scheme with fallbacks.

use vstd::prelude::*;
use crate::wallust::WallmintColors;
use crate::text::{trim_text, spec_trim};

verus! {

/// The colours of the window theme.
#[derive(Clone, Debug)]
pub struct ThemeColors {
    pub background: String,
    pub foreground: String,
    pub accent: String,
    pub secondary: String,
}

/// The first of the three that is not empty, else the last.
pub open spec fn spec_pick(primary: Seq<char>, fallback: Seq<char>, last: Seq<char>) -> Seq<char> {
    if primary.len() > 0 {
        primary
    } else if fallback.len() > 0 {
        fallback
    } else {
        last
    }
}

/// The theme's background, foreground, accent and secondary colours as text.
pub open spec fn theme_view(t: ThemeColors) -> (Seq<char>, Seq<char>, Seq<char>, Seq<char>) {
    (t.background@, t.foreground@, t.accent@, t.secondary@)
}

/// The built-in theme.
pub open spec fn spec_fallback_theme() -> (Seq<char>, Seq<char>, Seq<char>, Seq<char>) {
    ("#0f111a"@, "#e6e6e6"@, "#7aa2f7"@, "#a6e3a1"@)
}

/// The theme picked from a scheme: background from `background`, then
/// `color0`; foreground from `foreground`, then `color15`; accent from
/// `color13`, then `color5`; secondary from `color12`, then `color4`; each
/// ending in the built-in colour when both are empty.
pub open spec fn spec_theme_from(c: WallmintColors) -> (Seq<char>, Seq<char>, Seq<char>, Seq<char>) {
    (
        spec_pick(c.background@, c.color0@, "#0f111a"@),
        spec_pick(c.foreground@, c.color15@, "#e6e6e6"@),
        spec_pick(c.color13@, c.color5@, "#7aa2f7"@),
        spec_pick(c.color12@, c.color4@, "#a6e3a1"@),
    )
}

/// Each theme colour comes from its preferred scheme colour when that is set,
/// from its second choice only when the first is empty, and is the built-in
/// colour only when both are empty: background from `background` then
/// `color0`; foreground from `foreground` then `color15`; accent from
/// `color13` then `color5`; secondary from `color12` then `color4`.
pub proof fn lemma_theme_preference_order(c: WallmintColors)
    ensures
        ({
            let t = spec_theme_from(c);
            &&& c.background@.len() > 0 ==> t.0 == c.background@
            &&& c.background@.len() == 0 && c.color0@.len() > 0 ==> t.0 == c.color0@
            &&& c.background@.len() == 0 && c.color0@.len() == 0 ==> t.0 == "#0f111a"@
            &&& c.foreground@.len() > 0 ==> t.1 == c.foreground@
            &&& c.foreground@.len() == 0 && c.color15@.len() > 0 ==> t.1 == c.color15@
            &&& c.foreground@.len() == 0 && c.color15@.len() == 0 ==> t.1 == "#e6e6e6"@
            &&& c.color13@.len() > 0 ==> t.2 == c.color13@
            &&& c.color13@.len() == 0 && c.color5@.len() > 0 ==> t.2 == c.color5@
            &&& c.color13@.len() == 0 && c.color5@.len() == 0 ==> t.2 == "#7aa2f7"@
            &&& c.color12@.len() > 0 ==> t.3 == c.color12@
            &&& c.color12@.len() == 0 && c.color4@.len() > 0 ==> t.3 == c.color4@
            &&& c.color12@.len() == 0 && c.color4@.len() == 0 ==> t.3 == "#a6e3a1"@
        }),
{
}

/// The first of `primary`, `fallback` that is not empty, else `last`.
pub fn pick(primary: &str, fallback: &str, last: &str) -> (r: String)
    ensures
        r@ == spec_pick(primary@, fallback@, last@),
{
    if primary.unicode_len() > 0 {
        String::from_str(primary)
    } else if fallback.unicode_len() > 0 {
        String::from_str(fallback)
    } else {
        String::from_str(last)
    }
}

/// The built-in theme, used when no wallust scheme can be loaded.
pub fn fallback_theme() -> (r: ThemeColors)
    ensures
        theme_view(r) == spec_fallback_theme(),
{
    ThemeColors {
        background: String::from_str("#0f111a"),
        foreground: String::from_str("#e6e6e6"),
        accent: String::from_str("#7aa2f7"),
        secondary: String::from_str("#a6e3a1"),
    }
}

/// The theme for a loaded scheme, or the built-in theme without one.
pub fn theme_colors(cols: Option<&WallmintColors>) -> (r: ThemeColors)
    ensures
        match cols {
            Some(c) => theme_view(r) == spec_theme_from(*c),
            None => theme_view(r) == spec_fallback_theme(),
        },
        r.background@.len() > 0,
        r.foreground@.len() > 0,
        r.accent@.len() > 0,
        r.secondary@.len() > 0,
{
    proof {
        reveal_strlit("#0f111a");
        reveal_strlit("#e6e6e6");
        reveal_strlit("#7aa2f7");
        reveal_strlit("#a6e3a1");
    }
    match cols {
        Some(c) => ThemeColors {
            background: pick(&c.background, &c.color0, "#0f111a"),
            foreground: pick(&c.foreground, &c.color15, "#e6e6e6"),
            accent: pick(&c.color13, &c.color5, "#7aa2f7"),
            secondary: pick(&c.color12, &c.color4, "#a6e3a1"),
        },
        None => fallback_theme(),
    }
}

/// The stylesheet to load: the user's, unless it is missing or blank, else
/// the bundled one.
pub fn base_css(user_css: Option<String>, bundled: &str) -> (r: String)
    ensures
        r@ == (match user_css {
            Some(u) => if spec_trim(u@).len() > 0 {
                u@
            } else {
                bundled@
            },
            None => bundled@,
        }),
{
    match user_css {
        Some(u) => {
            if trim_text(u.as_str()).unicode_len() > 0 {
                u
            } else {
                String::from_str(bundled)
            }
        },
        None => String::from_str(bundled),
    }
}

} // verus!
