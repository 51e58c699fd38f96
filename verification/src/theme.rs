//! Theme choices and colour palettes: the built-in light and dark palettes,
//! per-mode overrides from `appearance.toml`, and the hex colour syntax those
//! overrides use.
use vstd::prelude::*;

use crate::text::{chars_of, push_str, trim_chars};

verus! {

#[derive(Debug, Clone, Copy, PartialEq, Eq, Structural)]
pub enum BaseMode {
    Light,
    Dark,
}

/// How much room the window has: below 360 points compact, below 520 narrow,
/// otherwise standard.
#[derive(Debug, Clone, Copy, PartialEq, Eq, Structural)]
pub enum LayoutClass {
    Compact,
    Narrow,
    Standard,
}

/// The mode the user picked.
#[derive(Debug, Clone, Copy, PartialEq, Eq, Structural)]
pub struct ThemeChoice {
    pub base: BaseMode,
}

/// The stored form of the theme choice.
#[derive(Debug, Clone, Copy, PartialEq, Eq, Structural)]
pub struct ThemePrefs {
    pub base: BaseMode,
}

/// The other mode.
pub open spec fn flipped(mode: BaseMode) -> BaseMode {
    match mode {
        BaseMode::Light => BaseMode::Dark,
        BaseMode::Dark => BaseMode::Light,
    }
}

impl Default for ThemeChoice {
    fn default() -> (r: Self)
        ensures
            r.base == BaseMode::Dark,
    {
        ThemeChoice { base: BaseMode::Dark }
    }
}

impl ThemeChoice {
    /// Switches between light and dark.
    pub fn toggle_base(&mut self)
        ensures
            final(self).base == flipped(old(self).base),
    {
        self.base = match self.base {
            BaseMode::Light => BaseMode::Dark,
            BaseMode::Dark => BaseMode::Light,
        };
    }
}

/// An opaque 8-bit sRGB colour.
#[derive(Debug, Clone, Copy, PartialEq, Eq, Structural)]
pub struct Rgb {
    pub r: u8,
    pub g: u8,
    pub b: u8,
}

/// The colour of a 24-bit `0xRRGGBB` value (higher bits ignored).
pub open spec fn rgb_of(value: u32) -> Rgb {
    Rgb {
        r: ((value / 65536) % 256) as u8,
        g: ((value / 256) % 256) as u8,
        b: (value % 256) as u8,
    }
}

/// The colour whose red, green and blue bytes are the low three bytes of `value`.
pub fn rgb(value: u32) -> (c: Rgb)
    ensures
        c == rgb_of(value),
{
    let r = ((value >> 16) & 0xff) as u8;
    let g = ((value >> 8) & 0xff) as u8;
    let b = (value & 0xff) as u8;
    assert(((value >> 16) & 0xff) == (value / 65536) % 256) by (bit_vector);
    assert(((value >> 8) & 0xff) == (value / 256) % 256) by (bit_vector);
    assert((value & 0xff) == value % 256) by (bit_vector);
    Rgb { r, g, b }
}

/// The value of a hexadecimal digit.
pub open spec fn hex_digit(c: char) -> Option<nat> {
    if '0' <= c && c <= '9' {
        Some((c as nat - '0' as nat) as nat)
    } else if 'a' <= c && c <= 'f' {
        Some((c as nat - 'a' as nat + 10) as nat)
    } else if 'A' <= c && c <= 'F' {
        Some((c as nat - 'A' as nat + 10) as nat)
    } else {
        None
    }
}

/// Every character of `s` is a hexadecimal digit.
pub open spec fn all_hex(s: Seq<char>) -> bool {
    forall|i: int| 0 <= i < s.len() ==> (#[trigger] hex_digit(s[i])) is Some
}

/// The number that the hexadecimal digits `s` spell.
pub open spec fn hex_value(s: Seq<char>) -> nat
    decreases s.len(),
{
    if s.len() == 0 {
        0
    } else {
        hex_value(s.drop_last()) * 16 + hex_digit(s.last())->0
    }
}

/// The digits of a colour as written: surrounding white space and at most
/// one leading `#` removed.
pub open spec fn color_digits(raw: Seq<char>) -> Seq<char> {
    let t = crate::text::trimmed(raw);
    if t.len() > 0 && t[0] == '#' {
        t.drop_first()
    } else {
        t
    }
}

/// The value of exactly six hexadecimal digits; anything else has none.
pub open spec fn six_digit_value(v: Seq<char>) -> Option<nat> {
    if v.len() == 6 && all_hex(v) {
        Some(hex_value(v))
    } else {
        None
    }
}

/// The colour a `#RRGGBB` string gives, if it gives one.
pub open spec fn hex_color(raw: Seq<char>) -> Option<Rgb> {
    match six_digit_value(color_digits(raw)) {
        Some(v) => Some(rgb_of(v as u32)),
        None => None,
    }
}

fn hex_digit_exec(c: char) -> (r: Option<u32>)
    ensures
        match hex_digit(c) {
            Some(d) => r == Some(d as u32),
            None => r is None,
        },
        r matches Some(d) ==> d < 16,
{
    if '0' <= c && c <= '9' {
        Some((c as u32) - ('0' as u32))
    } else if 'a' <= c && c <= 'f' {
        Some((c as u32) - ('a' as u32) + 10)
    } else if 'A' <= c && c <= 'F' {
        Some((c as u32) - ('A' as u32) + 10)
    } else {
        None
    }
}

/// Sixteen to the power `n`.
pub open spec fn pow16(n: nat) -> nat
    decreases n,
{
    if n == 0 { 1 } else { 16 * pow16((n - 1) as nat) }
}

/// Reads the hexadecimal digits `v[start..]`.
fn hex_digits_value(v: &Vec<char>, start: usize) -> (r: Option<u32>)
    requires
        start <= v@.len(),
        v@.len() - start <= 6,
    ensures
        all_hex(v@.skip(start as int)) ==> r == Some(hex_value(v@.skip(start as int)) as u32),
        !all_hex(v@.skip(start as int)) ==> r is None,
{
    let ghost d = v@.skip(start as int);
    let mut acc: u32 = 0;
    let mut i: usize = start;
    proof {
        assert(pow16(0) == 1);
        assert(v@.subrange(start as int, start as int) =~= Seq::<char>::empty());
    }
    while i < v.len()
        invariant
            start <= i <= v@.len(),
            v@.len() - start <= 6,
            d == v@.skip(start as int),
            all_hex(v@.subrange(start as int, i as int)),
            acc as nat == hex_value(v@.subrange(start as int, i as int)),
            acc < pow16((i - start) as nat),
            pow16((i - start) as nat) <= 16777216,
        decreases v@.len() - i,
    {
        let ghost pre = v@.subrange(start as int, i as int);
        let ghost post = v@.subrange(start as int, i + 1);
        assert(post.drop_last() =~= pre);
        assert(post.last() == v@[i as int]);
        match hex_digit_exec(v[i]) {
            Some(x) => {
                assert(acc * 16 + x < pow16((i - start) as nat) * 16) by (nonlinear_arith)
                    requires
                        acc < pow16((i - start) as nat),
                        x < 16,
                ;
                assert(pow16((i + 1 - start) as nat) == 16 * pow16((i - start) as nat));
                assert(pow16((i + 1 - start) as nat) <= 16777216) by {
                    assert((i + 1 - start) as nat <= 6);
                    lemma_pow16_mono((i + 1 - start) as nat, 6);
                    reveal_with_fuel(pow16, 7);
                    assert(pow16(6) == 16777216);
                }
                acc = acc * 16 + x;
                assert forall|j: int| 0 <= j < post.len() implies (#[trigger] hex_digit(post[j])) is Some by {
                    if j < pre.len() {
                        assert(post[j] == pre[j]);
                    }
                }
            },
            None => {
                assert(d[i - start] == v@[i as int]);
                assert(hex_digit(d[i - start]) is None);
                return None;
            },
        }
        i = i + 1;
    }
    assert(v@.subrange(start as int, v@.len() as int) =~= d);
    Some(acc)
}

proof fn lemma_pow16_mono(a: nat, b: nat)
    requires
        a <= b,
    ensures
        pow16(a) <= pow16(b),
    decreases b,
{
    if a < b {
        lemma_pow16_mono(a, (b - 1) as nat);
    }
}

/// Reads a colour written as `#RRGGBB` (surrounding white space allowed, the
/// `#` optional); `None` for anything that is not six hexadecimal digits.
pub fn parse_hex_color(raw: &str) -> (r: Option<Rgb>)
    ensures
        r == hex_color(raw@),
{
    let chars = chars_of(raw);
    let t = trim_chars(&chars);
    let k: usize = if t.len() > 0 && t[0] == '#' { 1 } else { 0 };
    if t.len() - k != 6 {
        return None;
    }
    proof {
        assert(t@.skip(k as int) =~= color_digits(raw@));
    }
    match hex_digits_value(&t, k) {
        Some(x) => Some(rgb(x)),
        None => None,
    }
}

/// The nine colours a theme is built from.
#[derive(Debug, Clone, Copy, PartialEq, Eq, Structural)]
pub struct SemanticPalette {
    pub background: Rgb,
    pub surface: Rgb,
    pub border: Rgb,
    pub text: Rgb,
    pub text_muted: Rgb,
    pub accent: Rgb,
    pub success: Rgb,
    pub warning: Rgb,
    pub error: Rgb,
}

/// Colours that replace those of the built-in palette, where given.
#[derive(Debug, Clone, Copy, PartialEq, Eq, Structural)]
pub struct SemanticPaletteOverride {
    pub background: Option<Rgb>,
    pub surface: Option<Rgb>,
    pub border: Option<Rgb>,
    pub text: Option<Rgb>,
    pub text_muted: Option<Rgb>,
    pub accent: Option<Rgb>,
    pub success: Option<Rgb>,
    pub warning: Option<Rgb>,
    pub error: Option<Rgb>,
}

/// An override where given, else the base colour.
pub open spec fn pick(o: Option<Rgb>, base: Rgb) -> Rgb {
    match o {
        Some(c) => c,
        None => base,
    }
}

fn pick_exec(o: Option<Rgb>, base: Rgb) -> (c: Rgb)
    ensures
        c == pick(o, base),
{
    match o {
        Some(c) => c,
        None => base,
    }
}

impl SemanticPaletteOverride {
    /// No colour overridden.
    pub fn none() -> (o: Self)
        ensures
            o.background is None && o.surface is None && o.border is None && o.text is None && o.text_muted is None
                && o.accent is None && o.success is None && o.warning is None && o.error is None,
    {
        SemanticPaletteOverride {
            background: None,
            surface: None,
            border: None,
            text: None,
            text_muted: None,
            accent: None,
            success: None,
            warning: None,
            error: None,
        }
    }

    /// The base palette with the given colours replaced.
    pub fn apply(&self, base: SemanticPalette) -> (p: SemanticPalette)
        ensures
            p == (SemanticPalette {
                background: pick(self.background, base.background),
                surface: pick(self.surface, base.surface),
                border: pick(self.border, base.border),
                text: pick(self.text, base.text),
                text_muted: pick(self.text_muted, base.text_muted),
                accent: pick(self.accent, base.accent),
                success: pick(self.success, base.success),
                warning: pick(self.warning, base.warning),
                error: pick(self.error, base.error),
            }),
    {
        SemanticPalette {
            background: pick_exec(self.background, base.background),
            surface: pick_exec(self.surface, base.surface),
            border: pick_exec(self.border, base.border),
            text: pick_exec(self.text, base.text),
            text_muted: pick_exec(self.text_muted, base.text_muted),
            accent: pick_exec(self.accent, base.accent),
            success: pick_exec(self.success, base.success),
            warning: pick_exec(self.warning, base.warning),
            error: pick_exec(self.error, base.error),
        }
    }
}

/// The colours written for one mode in `appearance.toml`, as text.
#[derive(Debug, Clone, Default)]
pub struct ColorOverrideInputs {
    pub background: Option<String>,
    pub surface: Option<String>,
    pub border: Option<String>,
    pub text: Option<String>,
    pub text_muted: Option<String>,
    pub accent: Option<String>,
    pub success: Option<String>,
    pub warning: Option<String>,
    pub error: Option<String>,
}

/// The colour an optional text gives: none when absent or not a valid
/// `#RRGGBB` colour.
pub open spec fn optional_color(raw: Option<String>) -> Option<Rgb> {
    match raw {
        Some(s) => hex_color(s@),
        None => None,
    }
}

/// Parses a colour override when one is given; `None` when absent or malformed.
pub fn parse_optional_color(raw: Option<&str>) -> (r: Option<Rgb>)
    ensures
        r == (match raw {
            Some(s) => hex_color(s@),
            None => None::<Rgb>,
        }),
{
    match raw {
        Some(s) => parse_hex_color(s),
        None => None,
    }
}

fn optional_color_exec(raw: &Option<String>) -> (r: Option<Rgb>)
    ensures
        r == optional_color(*raw),
{
    match raw {
        Some(s) => parse_hex_color(s.as_str()),
        None => None,
    }
}

/// Reads the colours of one mode; invalid colours are left out.
pub fn parse_color_overrides(input: &ColorOverrideInputs) -> (o: SemanticPaletteOverride)
    ensures
        o == (SemanticPaletteOverride {
            background: optional_color(input.background),
            surface: optional_color(input.surface),
            border: optional_color(input.border),
            text: optional_color(input.text),
            text_muted: optional_color(input.text_muted),
            accent: optional_color(input.accent),
            success: optional_color(input.success),
            warning: optional_color(input.warning),
            error: optional_color(input.error),
        }),
{
    SemanticPaletteOverride {
        background: optional_color_exec(&input.background),
        surface: optional_color_exec(&input.surface),
        border: optional_color_exec(&input.border),
        text: optional_color_exec(&input.text),
        text_muted: optional_color_exec(&input.text_muted),
        accent: optional_color_exec(&input.accent),
        success: optional_color_exec(&input.success),
        warning: optional_color_exec(&input.warning),
        error: optional_color_exec(&input.error),
    }
}

/// The built-in palette of a mode.
pub open spec fn base_palette(mode: BaseMode) -> SemanticPalette {
    match mode {
        BaseMode::Light => SemanticPalette {
            background: rgb_of(0xF5F3EE),
            surface: rgb_of(0xFFFDF8),
            border: rgb_of(0x1F1A17),
            text: rgb_of(0x171311),
            text_muted: rgb_of(0x5E5750),
            accent: rgb_of(0xB56A1E),
            success: rgb_of(0x2F6B45),
            warning: rgb_of(0x8A5A12),
            error: rgb_of(0x8C2F2F),
        },
        BaseMode::Dark => SemanticPalette {
            background: rgb_of(0x101010),
            surface: rgb_of(0x151515),
            border: rgb_of(0xD6D0C7),
            text: rgb_of(0xF2EEE7),
            text_muted: rgb_of(0xB1AAA1),
            accent: rgb_of(0xD0893C),
            success: rgb_of(0x6FA57E),
            warning: rgb_of(0xD2A45B),
            error: rgb_of(0xD07C7C),
        },
    }
}

/// The built-in semantic colours of a base mode.
pub fn base_semantic_palette(mode: BaseMode) -> (p: SemanticPalette)
    ensures
        p == base_palette(mode),
{
    match mode {
        BaseMode::Light => SemanticPalette {
            background: rgb(0xF5F3EE),
            surface: rgb(0xFFFDF8),
            border: rgb(0x1F1A17),
            text: rgb(0x171311),
            text_muted: rgb(0x5E5750),
            accent: rgb(0xB56A1E),
            success: rgb(0x2F6B45),
            warning: rgb(0x8A5A12),
            error: rgb(0x8C2F2F),
        },
        BaseMode::Dark => SemanticPalette {
            background: rgb(0x101010),
            surface: rgb(0x151515),
            border: rgb(0xD6D0C7),
            text: rgb(0xF2EEE7),
            text_muted: rgb(0xB1AAA1),
            accent: rgb(0xD0893C),
            success: rgb(0x6FA57E),
            warning: rgb(0xD2A45B),
            error: rgb(0xD07C7C),
        },
    }
}

/// A font file the user chose for the interface.
#[derive(Debug, Clone)]
pub struct LoadedFont {
    pub name: String,
    pub bytes: Vec<u8>,
}

/// The name under which a user font is registered: `user_ui_font_` and the
/// file's stem, or `custom` when the stem is unknown.
pub fn font_name_for(stem: Option<&str>) -> (r: String)
    ensures
        r@ == "user_ui_font_"@ + (match stem {
            Some(s) => s@,
            None => "custom"@,
        }),
{
    let mut s = "user_ui_font_".to_owned();
    match stem {
        Some(t) => push_str(&mut s, t),
        None => push_str(&mut s, "custom"),
    }
    s
}

/// The user's colour and font overrides.
#[derive(Debug, Clone)]
pub struct AppearanceOverrides {
    pub light: SemanticPaletteOverride,
    pub dark: SemanticPaletteOverride,
    pub ui_font: Option<LoadedFont>,
}

impl AppearanceOverrides {
    /// No overrides.
    pub fn none() -> (a: Self)
        ensures
            a.light == SemanticPaletteOverride::none_spec(),
            a.dark == SemanticPaletteOverride::none_spec(),
            a.ui_font is None,
    {
        AppearanceOverrides { light: SemanticPaletteOverride::none(), dark: SemanticPaletteOverride::none(), ui_font: None }
    }

    /// Reads the overrides of both modes; the font is loaded by the caller.
    pub fn from_inputs(light: &ColorOverrideInputs, dark: &ColorOverrideInputs, ui_font: Option<LoadedFont>) -> (a: Self)
        ensures
            a.light == override_of(*light),
            a.dark == override_of(*dark),
            a.ui_font == ui_font,
    {
        AppearanceOverrides { light: parse_color_overrides(light), dark: parse_color_overrides(dark), ui_font }
    }

    /// The overrides of a mode.
    pub fn palette_for(&self, mode: BaseMode) -> (o: &SemanticPaletteOverride)
        ensures
            *o == (if mode == BaseMode::Light { self.light } else { self.dark }),
    {
        match mode {
            BaseMode::Light => &self.light,
            BaseMode::Dark => &self.dark,
        }
    }
}

impl SemanticPaletteOverride {
    /// No colour overridden.
    pub open spec fn none_spec() -> Self {
        SemanticPaletteOverride {
            background: None,
            surface: None,
            border: None,
            text: None,
            text_muted: None,
            accent: None,
            success: None,
            warning: None,
            error: None,
        }
    }
}

/// The overrides that the colours written for a mode give.
pub open spec fn override_of(input: ColorOverrideInputs) -> SemanticPaletteOverride {
    SemanticPaletteOverride {
        background: optional_color(input.background),
        surface: optional_color(input.surface),
        border: optional_color(input.border),
        text: optional_color(input.text),
        text_muted: optional_color(input.text_muted),
        accent: optional_color(input.accent),
        success: optional_color(input.success),
        warning: optional_color(input.warning),
        error: optional_color(input.error),
    }
}

/// The palette a theme uses: the mode's built-in palette with the user's
/// overrides for that mode.
pub open spec fn theme_palette(base: BaseMode, appearance: AppearanceOverrides) -> SemanticPalette {
    let o = if base == BaseMode::Light { appearance.light } else { appearance.dark };
    SemanticPalette {
        background: pick(o.background, base_palette(base).background),
        surface: pick(o.surface, base_palette(base).surface),
        border: pick(o.border, base_palette(base).border),
        text: pick(o.text, base_palette(base).text),
        text_muted: pick(o.text_muted, base_palette(base).text_muted),
        accent: pick(o.accent, base_palette(base).accent),
        success: pick(o.success, base_palette(base).success),
        warning: pick(o.warning, base_palette(base).warning),
        error: pick(o.error, base_palette(base).error),
    }
}

impl ThemeChoice {
    /// The colours of this theme under the user's overrides.
    pub fn palette(self, appearance: &AppearanceOverrides) -> (p: SemanticPalette)
        ensures
            p == theme_palette(self.base, *appearance),
    {
        appearance.palette_for(self.base).apply(base_semantic_palette(self.base))
    }
}


/// Switching the theme twice gives back the mode one started with.
pub proof fn lemma_toggle_twice(mode: BaseMode)
    ensures
        flipped(flipped(mode)) == mode,
        flipped(mode) != mode,
{
}

/// Overrides are partial: a colour that `appearance.toml` leaves out, or
/// writes in a form that is not a valid hex colour, keeps its built-in value;
/// a valid one replaces it.
pub proof fn lemma_overrides_fall_back(mode: BaseMode, light: ColorOverrideInputs, dark: ColorOverrideInputs, ui_font: Option<LoadedFont>)
    ensures
        ({
            let a = AppearanceOverrides { light: override_of(light), dark: override_of(dark), ui_font };
            let input = if mode == BaseMode::Light { light } else { dark };
            let p = theme_palette(mode, a);
            let b = base_palette(mode);
            &&& p.background == pick(optional_color(input.background), b.background)
            &&& p.surface == pick(optional_color(input.surface), b.surface)
            &&& p.border == pick(optional_color(input.border), b.border)
            &&& p.text == pick(optional_color(input.text), b.text)
            &&& p.text_muted == pick(optional_color(input.text_muted), b.text_muted)
            &&& p.accent == pick(optional_color(input.accent), b.accent)
            &&& p.success == pick(optional_color(input.success), b.success)
            &&& p.warning == pick(optional_color(input.warning), b.warning)
            &&& p.error == pick(optional_color(input.error), b.error)
            &&& optional_color(input.accent) is None ==> p.accent == b.accent
        }),
{
}

/// The light theme only reads the light overrides and the dark theme only
/// the dark ones.
pub proof fn lemma_modes_are_independent(a: AppearanceOverrides, b: AppearanceOverrides)
    ensures
        a.light == b.light ==> theme_palette(BaseMode::Light, a) == theme_palette(BaseMode::Light, b),
        a.dark == b.dark ==> theme_palette(BaseMode::Dark, a) == theme_palette(BaseMode::Dark, b),
{
}

/// A colour written as `#` and six hexadecimal digits is read as the value
/// of those digits.
pub proof fn lemma_six_digit_colors_parse(digits: Seq<char>)
    requires
        digits.len() == 6,
        all_hex(digits),
    ensures
        hex_color(seq!['#'] + digits) == Some(rgb_of(hex_value(digits) as u32)),
{
    let s = seq!['#'] + digits;
    assert(hex_digit(digits[0]) is Some);
    assert(hex_digit(digits[5]) is Some);
    assert(s[0] == '#');
    assert(s.last() == digits[5]);
    assert(!crate::text::is_space(s[0]));
    assert(crate::text::leading_space(s) == 0);
    assert(s.skip(0) =~= s);
    assert(!crate::text::is_space(s.last()));
    assert(crate::text::trailing_space(s) == 0);
    assert(s.take(s.len() as int) =~= s);
    assert(crate::text::trimmed(s) == s);
    assert(s.drop_first() =~= digits);
    assert(color_digits(s) == digits);
}

} // verus!
