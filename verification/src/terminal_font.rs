//! Which font family renders a run of terminal text: text-symbol arrows, emoji and CJK
//! ideographs are routed to families that cover them, everything else keeps the base font.

use vstd::prelude::*;

verus! {

/// The desktop platform whose fonts are available.
#[derive(Clone, Copy, Debug, PartialEq, Eq, Structural)]
pub enum Platform {
    Windows,
    MacOs,
    /// Unix desktops other than macOS.
    OtherUnix,
}

/// The prompt arrow U+279C, drawn from a text-symbol font on Windows.
pub const PROMPT_ARROW: char = '\u{279c}';
/// The prompt chevron U+276F, a text dingbat the terminal font covers.
pub const PROMPT_CHEVRON: char = '\u{276f}';

/// CJK radicals, punctuation, strokes, unified ideographs and compatibility ideographs.
pub open spec fn spec_is_cjk(value: char) -> bool {
    let v = value as u32;
    ||| 0x2e80 <= v <= 0x2fff
    ||| 0x3000 <= v <= 0x303f
    ||| 0x31c0 <= v <= 0x31ef
    ||| 0x3400 <= v <= 0x4dbf
    ||| 0x4e00 <= v <= 0x9fff
    ||| 0xf900 <= v <= 0xfaff
}

/// Miscellaneous symbols, dingbats and the emoji planes, except the prompt chevron.
pub open spec fn spec_is_emoji(value: char) -> bool {
    let v = value as u32;
    &&& value != PROMPT_CHEVRON
    &&& (0x2600 <= v <= 0x27bf || 0x1f000 <= v <= 0x1faff)
}

/// The name of the family that draws CJK text on `platform`.
pub open spec fn spec_cjk_family(platform: Platform) -> Seq<char> {
    match platform {
        Platform::Windows => "Microsoft YaHei UI"@,
        Platform::MacOs => "PingFang SC"@,
        Platform::OtherUnix => "Monospace"@,
    }
}

/// The name of the family that draws emoji on `platform`.
pub open spec fn spec_emoji_family(platform: Platform) -> Seq<char> {
    match platform {
        Platform::Windows => "Segoe UI Emoji"@,
        Platform::MacOs => "Apple Color Emoji"@,
        Platform::OtherUnix => "Monospace"@,
    }
}

/// The name of the family that replaces the base family for `text`, or `None` to keep it.
pub open spec fn spec_family_for_text(platform: Platform, text: Seq<char>) -> Option<Seq<char>> {
    if platform == Platform::Windows && has_char(text, PROMPT_ARROW) {
        Some("Segoe UI Symbol"@)
    } else if has_emoji(text) {
        Some(spec_emoji_family(platform))
    } else if has_cjk(text) {
        Some(spec_cjk_family(platform))
    } else {
        None
    }
}

pub open spec fn has_char(text: Seq<char>, value: char) -> bool {
    exists|i: int| 0 <= i < text.len() && text[i] == value
}

pub open spec fn has_emoji(text: Seq<char>) -> bool {
    exists|i: int| 0 <= i < text.len() && spec_is_emoji(text[i])
}

pub open spec fn has_cjk(text: Seq<char>) -> bool {
    exists|i: int| 0 <= i < text.len() && spec_is_cjk(text[i])
}

/// Whether `value` is a CJK character the base terminal font may lack.
pub fn is_cjk(value: char) -> (r: bool)
    ensures
        r == spec_is_cjk(value),
{
    let v = value as u32;
    (0x2e80 <= v && v <= 0x2fff) || (0x3000 <= v && v <= 0x303f) || (0x31c0 <= v && v <= 0x31ef)
        || (0x3400 <= v && v <= 0x4dbf) || (0x4e00 <= v && v <= 0x9fff) || (0xf900 <= v && v
        <= 0xfaff)
}

/// Whether `value` is an emoji or symbol drawn from the emoji font.
pub fn is_emoji(value: char) -> (r: bool)
    ensures
        r == spec_is_emoji(value),
{
    let v = value as u32;
    value != PROMPT_CHEVRON && ((0x2600 <= v && v <= 0x27bf) || (0x1f000 <= v && v <= 0x1faff))
}

fn contains_char(text: &str, value: char) -> (r: bool)
    ensures
        r == has_char(text@, value),
{
    let n = text.unicode_len();
    let mut i: usize = 0;
    while i < n
        invariant
            n == text@.len(),
            i <= n,
            forall|j: int| 0 <= j < i ==> text@[j] != value,
        decreases n - i,
    {
        if text.get_char(i) == value {
            return true;
        }
        i = i + 1;
    }
    false
}

fn contains_emoji(text: &str) -> (r: bool)
    ensures
        r == has_emoji(text@),
{
    let n = text.unicode_len();
    let mut i: usize = 0;
    while i < n
        invariant
            n == text@.len(),
            i <= n,
            forall|j: int| 0 <= j < i ==> !spec_is_emoji(#[trigger] text@[j]),
        decreases n - i,
    {
        if is_emoji(text.get_char(i)) {
            return true;
        }
        i = i + 1;
    }
    false
}

fn contains_cjk(text: &str) -> (r: bool)
    ensures
        r == has_cjk(text@),
{
    let n = text.unicode_len();
    let mut i: usize = 0;
    while i < n
        invariant
            n == text@.len(),
            i <= n,
            forall|j: int| 0 <= j < i ==> !spec_is_cjk(#[trigger] text@[j]),
        decreases n - i,
    {
        if is_cjk(text.get_char(i)) {
            return true;
        }
        i = i + 1;
    }
    false
}

/// The text-symbol family for `text`: on Windows, text holding the prompt arrow is drawn
/// with Segoe UI Symbol; elsewhere the terminal font covers it.
pub fn text_symbol_family(platform: Platform, text: &str) -> (r: Option<&'static str>)
    ensures
        r is Some <==> (platform == Platform::Windows && has_char(text@, PROMPT_ARROW)),
        r matches Some(family) ==> family@ == "Segoe UI Symbol"@,
{
    match platform {
        Platform::Windows => {
            if contains_char(text, PROMPT_ARROW) {
                Some("Segoe UI Symbol")
            } else {
                None
            }
        },
        _ => None,
    }
}

/// The family that draws CJK text on `platform`.
pub fn cjk_family(platform: Platform) -> (r: &'static str)
    ensures
        r@ == spec_cjk_family(platform),
{
    match platform {
        Platform::Windows => "Microsoft YaHei UI",
        Platform::MacOs => "PingFang SC",
        Platform::OtherUnix => "Monospace",
    }
}

/// The family that draws emoji on `platform`.
pub fn emoji_family(platform: Platform) -> (r: &'static str)
    ensures
        r@ == spec_emoji_family(platform),
{
    match platform {
        Platform::Windows => "Segoe UI Emoji",
        Platform::MacOs => "Apple Color Emoji",
        Platform::OtherUnix => "Monospace",
    }
}

/// The family that replaces the base font's family for `text`, or `None` to keep the base
/// font: a text-symbol family first, then the emoji family when any character is an emoji,
/// then the CJK family when any character is CJK.
pub fn family_for_text(platform: Platform, text: &str) -> (r: Option<&'static str>)
    ensures
        match spec_family_for_text(platform, text@) {
            None => r is None,
            Some(family) => r matches Some(f) && f@ == family,
        },
{
    if let Some(family) = text_symbol_family(platform, text) {
        Some(family)
    } else if contains_emoji(text) {
        Some(emoji_family(platform))
    } else if contains_cjk(text) {
        Some(cjk_family(platform))
    } else {
        None
    }
}

/// A character of the emoji planes U+1F000..=U+1FAFF, or of the symbols and dingbats
/// U+2600..=U+27BF other than the prompt chevron U+276F, routes the text to the platform's
/// emoji family (Segoe UI Emoji on Windows, Apple Color Emoji on macOS, Monospace elsewhere),
/// unless on Windows the text holds the prompt arrow U+279C.
pub proof fn lemma_emoji_text_uses_emoji_family(platform: Platform, text: Seq<char>, i: int)
    requires
        0 <= i < text.len(),
        (0x1f000 <= text[i] as u32 <= 0x1faff) || (0x2600 <= text[i] as u32 <= 0x27bf && text[i]
            != '\u{276f}'),
        platform == Platform::Windows ==> forall|j: int|
            0 <= j < text.len() ==> text[j] != '\u{279c}',
    ensures
        spec_family_for_text(platform, text) == Some(
            match platform {
                Platform::Windows => "Segoe UI Emoji"@,
                Platform::MacOs => "Apple Color Emoji"@,
                Platform::OtherUnix => "Monospace"@,
            },
        ),
{
    assert(spec_is_emoji(text[i]));
}

/// Text of CJK ideographs, radicals, strokes and punctuation (U+2E80..=U+2FFF,
/// U+3000..=U+303F, U+31C0..=U+31EF, U+3400..=U+4DBF, U+4E00..=U+9FFF, U+F900..=U+FAFF) mixed
/// with ASCII, holding at least one such character, goes to the platform's CJK family
/// (Microsoft YaHei UI on Windows, PingFang SC on macOS, Monospace elsewhere).
pub proof fn lemma_cjk_text_uses_cjk_family(platform: Platform, text: Seq<char>, i: int)
    requires
        0 <= i < text.len(),
        forall|j: int|
            0 <= j < text.len() ==> {
                let v = #[trigger] text[j] as u32;
                ||| v < 0x80
                ||| 0x2e80 <= v <= 0x2fff
                ||| 0x3000 <= v <= 0x303f
                ||| 0x31c0 <= v <= 0x31ef
                ||| 0x3400 <= v <= 0x4dbf
                ||| 0x4e00 <= v <= 0x9fff
                ||| 0xf900 <= v <= 0xfaff
            },
        text[i] as u32 >= 0x80,
    ensures
        spec_family_for_text(platform, text) == Some(
            match platform {
                Platform::Windows => "Microsoft YaHei UI"@,
                Platform::MacOs => "PingFang SC"@,
                Platform::OtherUnix => "Monospace"@,
            },
        ),
{
    assert(spec_is_cjk(text[i]));
    assert(!has_char(text, PROMPT_ARROW)) by {
        if has_char(text, PROMPT_ARROW) {
            let j = choose|j: int| 0 <= j < text.len() && text[j] == PROMPT_ARROW;
            assert(text[j] as u32 == 0x279c);
        }
    }
    assert(!has_emoji(text)) by {
        if has_emoji(text) {
            let j = choose|j: int| 0 <= j < text.len() && spec_is_emoji(text[j]);
            let v = text[j] as u32;
            assert(v < 0x80 || 0x2e80 <= v);
        }
    }
}

/// ASCII text, with or without the prompt chevron U+276F, keeps the base terminal font.
pub proof fn lemma_ascii_text_keeps_base_font(platform: Platform, text: Seq<char>)
    requires
        forall|j: int|
            0 <= j < text.len() ==> (#[trigger] text[j] as u32) < 0x80 || text[j] == '\u{276f}',
    ensures
        spec_family_for_text(platform, text) is None,
{
    assert(!has_char(text, PROMPT_ARROW)) by {
        if has_char(text, PROMPT_ARROW) {
            let j = choose|j: int| 0 <= j < text.len() && text[j] == PROMPT_ARROW;
            assert(text[j] as u32 == 0x279c);
        }
    }
    assert(!has_emoji(text)) by {
        if has_emoji(text) {
            let j = choose|j: int| 0 <= j < text.len() && spec_is_emoji(text[j]);
            assert(text[j] as u32 == 0x276f || (text[j] as u32) < 0x80);
        }
    }
    assert(!has_cjk(text)) by {
        if has_cjk(text) {
            let j = choose|j: int| 0 <= j < text.len() && spec_is_cjk(text[j]);
            assert(text[j] as u32 == 0x276f || (text[j] as u32) < 0x80);
        }
    }
}

} // verus!
