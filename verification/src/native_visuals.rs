//! Native-theme ingestion: detecting the system colour scheme, choosing the
//! matching stock style, and rewriting it from a platform CSS theme.
//!
//! The pieces that read the operating system (the scheme query) sit behind a
//! trusted call; everything that decides — mode resolution, theme-name
//! parsing, CSS rule walking — is verified. Reading the theme file itself is
//! input work that a thin layer outside this crate performs before handing
//! the text to [`theme_loaders::gtk`].

pub mod conversions;
pub mod css_values;
pub mod theme_loaders;

use vstd::prelude::*;

use crate::style::{Color, Visuals};

verus! {

/// Colours for a native-looking toolbar.
#[derive(Debug, Clone, Copy, PartialEq, Eq, Structural)]
pub struct NativeVisuals {
    pub toolbar_fill_focused: Color,
    pub toolbar_fill_unfocused: Color,
}

/// The colour mode a caller asks the native theme for.
#[derive(Debug, Clone, Copy, PartialEq, Eq, Structural)]
pub enum NativeThemeColorMode {
    Light,
    Dark,
    /// Follow the operating system's preference.
    SystemDefault,
}

impl Default for NativeThemeColorMode {
    fn default() -> (r: Self)
        ensures
            r == NativeThemeColorMode::SystemDefault,
    {
        NativeThemeColorMode::SystemDefault
    }
}

/// What the operating system reports as its colour-scheme preference.
#[derive(Debug, Clone, Copy, PartialEq, Eq, Structural)]
pub enum SystemColorScheme {
    Light,
    Dark,
    /// No stated preference.
    Unspecified,
}

/// Relies on `dark_light::detect`, which queries the desktop environment
/// for its colour-scheme preference; the answer depends on the machine, so
/// nothing more is promised of it.
#[verifier::external_body]
fn detect_system_color_scheme() -> (r: SystemColorScheme) {
    match dark_light::detect() {
        dark_light::Mode::Dark => SystemColorScheme::Dark,
        dark_light::Mode::Light => SystemColorScheme::Light,
        dark_light::Mode::Default => SystemColorScheme::Unspecified,
    }
}

/// Whether the chosen mode, together with the detected scheme, selects dark
/// visuals: everything but an explicit or detected preference for light
/// counts as dark.
pub open spec fn resolve_dark_mode_spec(
    mode: NativeThemeColorMode,
    scheme: SystemColorScheme,
) -> bool {
    match mode {
        NativeThemeColorMode::Light => false,
        NativeThemeColorMode::Dark => true,
        NativeThemeColorMode::SystemDefault => scheme != SystemColorScheme::Light,
    }
}

/// Decides between dark and light visuals from the chosen mode and the
/// detected scheme.
pub fn resolve_dark_mode(mode: NativeThemeColorMode, scheme: SystemColorScheme) -> (dark: bool)
    ensures
        dark == resolve_dark_mode_spec(mode, scheme),
{
    match mode {
        NativeThemeColorMode::Light => false,
        NativeThemeColorMode::Dark => true,
        NativeThemeColorMode::SystemDefault => scheme != SystemColorScheme::Light,
    }
}

/// The stock visuals for the chosen mode, given the detected scheme.
pub fn native_with_scheme(mode: NativeThemeColorMode, scheme: SystemColorScheme) -> (r: Visuals)
    ensures
        r == if resolve_dark_mode_spec(mode, scheme) {
            Visuals::dark_spec()
        } else {
            Visuals::light_spec()
        },
{
    if resolve_dark_mode(mode, scheme) {
        Visuals::dark()
    } else {
        Visuals::light()
    }
}

/// Styles that can imitate the native look of the platform.
pub trait NativeTheme: Sized {
    /// Whether `r` is an acceptable native style for the chosen mode.
    spec fn native_spec(color_mode: NativeThemeColorMode, r: Self) -> bool;

    /// Returns visuals that match the native style, falling back to the
    /// stock style of the resolved colour mode.
    fn native(color_mode: NativeThemeColorMode) -> (r: Self)
        ensures
            Self::native_spec(color_mode, r),
    ;
}

impl NativeTheme for Visuals {
    /// An explicit mode gets exactly its stock style; following the system
    /// gets whichever stock style the detected scheme selects.
    open spec fn native_spec(color_mode: NativeThemeColorMode, r: Visuals) -> bool {
        match color_mode {
            NativeThemeColorMode::Light => r == Visuals::light_spec(),
            NativeThemeColorMode::Dark => r == Visuals::dark_spec(),
            NativeThemeColorMode::SystemDefault => r == Visuals::light_spec() || r
                == Visuals::dark_spec(),
        }
    }

    fn native(color_mode: NativeThemeColorMode) -> (r: Visuals) {
        let scheme = detect_system_color_scheme();
        native_with_scheme(color_mode, scheme)
    }
}

/// The GTK stylesheet file that belongs to the resolved mode.
pub fn gtk_theme_file_name(dark: bool) -> (r: &'static str)
    ensures
        dark ==> r@ == "gtk-dark.css"@,
        !dark ==> r@ == "gtk.css"@,
{
    if dark {
        "gtk-dark.css"
    } else {
        "gtk.css"
    }
}

/// Whether a byte is ASCII whitespace.
pub open spec fn is_ascii_ws(b: u8) -> bool {
    b == 9 || b == 10 || b == 11 || b == 12 || b == 13 || b == 32
}

/// Whether a byte is a single-quote mark.
pub open spec fn is_quote(b: u8) -> bool {
    b == 39
}

/// `s` without the longest prefix of bytes satisfying `p`.
pub open spec fn trim_front(s: Seq<u8>, p: spec_fn(u8) -> bool) -> Seq<u8>
    decreases s.len(),
{
    if s.len() > 0 && p(s[0]) {
        trim_front(s.skip(1), p)
    } else {
        s
    }
}

/// `s` without the longest suffix of bytes satisfying `p`.
pub open spec fn trim_back(s: Seq<u8>, p: spec_fn(u8) -> bool) -> Seq<u8>
    decreases s.len(),
{
    if s.len() > 0 && p(s.last()) {
        trim_back(s.drop_last(), p)
    } else {
        s
    }
}

/// `s` without bytes satisfying `p` on either end.
pub open spec fn trim_spec(s: Seq<u8>, p: spec_fn(u8) -> bool) -> Seq<u8> {
    trim_back(trim_front(s, p), p)
}

/// The theme name inside the raw output of the desktop's settings tool:
/// the output without surrounding whitespace and then without surrounding
/// single-quote marks.
pub open spec fn gnome_theme_name_spec(raw: Seq<u8>) -> Seq<u8> {
    trim_spec(trim_spec(raw, |b: u8| is_ascii_ws(b)), |b: u8| is_quote(b))
}

/// Trimming from the front only shortens the sequence from the front.
proof fn lemma_trim_front_skip(s: Seq<u8>, p: spec_fn(u8) -> bool, a: int)
    requires
        0 <= a < s.len(),
        forall|i: int| 0 <= i < a ==> p(#[trigger] s[i]),
        !p(s[a]),
    ensures
        trim_front(s, p) == s.skip(a),
    decreases a,
{
    if a == 0 {
        assert(s.skip(0) =~= s);
    } else {
        lemma_trim_front_skip(s.skip(1), p, a - 1);
        assert(s.skip(1).skip(a - 1) =~= s.skip(a));
    }
}

/// A sequence of bytes all satisfying `p` trims from the front to nothing.
proof fn lemma_trim_front_all(s: Seq<u8>, p: spec_fn(u8) -> bool)
    requires
        forall|i: int| 0 <= i < s.len() ==> p(#[trigger] s[i]),
    ensures
        trim_front(s, p) == Seq::<u8>::empty(),
    decreases s.len(),
{
    if s.len() > 0 {
        lemma_trim_front_all(s.skip(1), p);
    } else {
        assert(s =~= Seq::<u8>::empty());
    }
}

/// Trimming from the back only shortens the sequence from the back.
proof fn lemma_trim_back_take(s: Seq<u8>, p: spec_fn(u8) -> bool, b: int)
    requires
        0 <= b <= s.len(),
        forall|i: int| b <= i < s.len() ==> p(#[trigger] s[i]),
        b > 0 ==> !p(s[b - 1]),
    ensures
        trim_back(s, p) == s.take(b),
    decreases s.len(),
{
    if b == s.len() {
        assert(s.take(b) =~= s);
        if s.len() > 0 {
            assert(!p(s.last()));
        }
    } else {
        assert(p(s.last()));
        lemma_trim_back_take(s.drop_last(), p, b);
        assert(s.drop_last() =~= s.take(s.len() - 1));
    }
}

/// Removes bytes satisfying `p` from both ends of `s[from..to]`, returning
/// the trimmed bounds.
fn trim_range<F: Fn(u8) -> bool>(
    s: &Vec<u8>,
    from: usize,
    to: usize,
    p: F,
    Ghost(sp): Ghost<spec_fn(u8) -> bool>,
) -> (r: (usize, usize))
    requires
        from <= to <= s@.len(),
        forall|b: u8| #[trigger] call_requires(p, (b,)),
        forall|b: u8, o: bool| call_ensures(p, (b,), o) ==> o == sp(b),
    ensures
        from <= r.0 <= r.1 <= to,
        s@.subrange(r.0 as int, r.1 as int) == trim_spec(
            s@.subrange(from as int, to as int),
            sp,
        ),
{
    let ghost orig = s@.subrange(from as int, to as int);
    let mut a: usize = from;
    while a < to && p(s[a])
        invariant
            from <= a <= to <= s@.len(),
            forall|b: u8| #[trigger] call_requires(p, (b,)),
            forall|b: u8, o: bool| call_ensures(p, (b,), o) ==> o == sp(b),
            forall|i: int| from <= i < a ==> sp(#[trigger] s@[i]),
        decreases to - a,
    {
        a = a + 1;
    }
    proof {
        assert(forall|i: int| 0 <= i < a - from ==> sp(#[trigger] orig[i]));
        if a < to {
            assert(!sp(orig[a - from]));
            lemma_trim_front_skip(orig, sp, a - from);
        } else {
            lemma_trim_front_all(orig, sp);
            assert(orig.skip(a - from) =~= Seq::<u8>::empty());
        }
        assert(trim_front(orig, sp) =~= s@.subrange(a as int, to as int));
    }
    let ghost fronted = s@.subrange(a as int, to as int);
    let mut b: usize = to;
    while b > a && p(s[b - 1])
        invariant
            from <= a <= b <= to <= s@.len(),
            forall|bb: u8| #[trigger] call_requires(p, (bb,)),
            forall|bb: u8, o: bool| call_ensures(p, (bb,), o) ==> o == sp(bb),
            forall|i: int| b <= i < to ==> sp(#[trigger] s@[i]),
        decreases b,
    {
        b = b - 1;
    }
    proof {
        assert(forall|i: int| b - a <= i < fronted.len() ==> sp(#[trigger] fronted[i]));
        if b > a {
            assert(!sp(fronted[b - a - 1]));
        }
        lemma_trim_back_take(fronted, sp, b - a);
        assert(fronted.take(b - a) =~= s@.subrange(a as int, b as int));
    }
    (a, b)
}

/// Whether a byte is ASCII whitespace.
fn ascii_ws(b: u8) -> (r: bool)
    ensures
        r == is_ascii_ws(b),
{
    b == 9 || b == 10 || b == 11 || b == 12 || b == 13 || b == 32
}

/// Whether a byte is a single-quote mark.
fn quote(b: u8) -> (r: bool)
    ensures
        r == is_quote(b),
{
    b == 39
}

/// Extracts the theme name from the raw bytes that the desktop's settings
/// tool printed: the bytes without surrounding whitespace and surrounding
/// single-quote marks, exactly as [`gnome_theme_name_spec`] states.
pub fn parse_gnome_theme_name(raw: &Vec<u8>) -> (r: Vec<u8>)
    ensures
        r@ == gnome_theme_name_spec(raw@),
{
    let (a, b) = trim_range(raw, 0, raw.len(), ascii_ws, Ghost(|b: u8| is_ascii_ws(b)));
    proof {
        assert(raw@.subrange(0, raw@.len() as int) =~= raw@);
    }
    let (c, d) = trim_range(raw, a, b, quote, Ghost(|b: u8| is_quote(b)));
    let mut out: Vec<u8> = Vec::new();
    let mut i: usize = c;
    while i < d
        invariant
            c <= i <= d <= raw@.len(),
            out@ == raw@.subrange(c as int, i as int),
        decreases d - i,
    {
        out.push(raw[i]);
        proof {
            assert(raw@.subrange(c as int, (i + 1) as int) =~= raw@.subrange(
                c as int,
                i as int,
            ).push(raw@[i as int]));
        }
        i = i + 1;
    }
    proof {
        assert(out@ =~= raw@.subrange(c as int, d as int));
    }
    out
}

} // verus!
