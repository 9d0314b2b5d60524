use vstd::prelude::*;
use crate::text::{chars_of, same_text};

pub mod named_palettes;

verus! {

pub const RUST_PIECE_0: &'static str = r#"
        pub const NEW_PALETTE: DevanoPalette = DevanoPalette {
    kora: NeutralHexes {
        ara: ""#;
pub const RUST_PIECE_1: &'static str = r#"".to_string(),
        ene: ""#;
pub const RUST_PIECE_2: &'static str = r#"".to_string(),
        izi: ""#;
pub const RUST_PIECE_3: &'static str = r#"".to_string(),
        ona: ""#;
pub const RUST_PIECE_4: &'static str = r#"".to_string(),
    },
    aleva: NeutralHexes {
        ara: ""#;
pub const RUST_PIECE_5: &'static str = r#"".to_string(),
    },
    ara: AccentHexes {
        ara: ""#;
pub const RUST_PIECE_6: &'static str = r#"".to_string(),
    },
    ene: AccentHexes {
        ara: ""#;
pub const RUST_PIECE_7: &'static str = r#"".to_string(),
    },
    izi: AccentHexes {
        ara: ""#;
pub const RUST_PIECE_8: &'static str = r#"".to_string(),
    },
    ona: AccentHexes {
        ara: ""#;
pub const RUST_PIECE_9: &'static str = r#"".to_string(),
    },
    uvo: AccentHexes {
        ara: ""#;
pub const RUST_PIECE_10: &'static str = r#"".to_string(),
    },
    bala: AccentHexes {
        ara: ""#;
pub const RUST_PIECE_11: &'static str = r#"".to_string(),
    },
};"#;

/// Why a palette could not be made.
#[derive(Debug, Clone, Copy, PartialEq, Eq, Structural)]
pub struct PaletteError;

impl PaletteError {
    /// The message shown for the error.
    pub fn message(&self) -> (r: &'static str)
        ensures
            r == "Something went wrong",
    {
        "Something went wrong"
    }
}

/// The four neutral tones of a palette, as hex codes.
pub struct NeutralHexes {
    pub ara: String,
    pub ene: String,
    pub izi: String,
    pub ona: String,
}

/// The mathematical value of [`NeutralHexes`].
pub struct NeutralHexesView {
    pub ara: Seq<char>,
    pub ene: Seq<char>,
    pub izi: Seq<char>,
    pub ona: Seq<char>,
}

impl View for NeutralHexes {
    type V = NeutralHexesView;

    open spec fn view(&self) -> NeutralHexesView {
        NeutralHexesView { ara: self.ara@, ene: self.ene@, izi: self.izi@, ona: self.ona@ }
    }
}

/// The three shades of an accent of a palette, as hex codes.
pub struct AccentHexes {
    pub ara: String,
    pub ene: String,
    pub izi: String,
}

/// The mathematical value of [`AccentHexes`].
pub struct AccentHexesView {
    pub ara: Seq<char>,
    pub ene: Seq<char>,
    pub izi: Seq<char>,
}

impl View for AccentHexes {
    type V = AccentHexesView;

    open spec fn view(&self) -> AccentHexesView {
        AccentHexesView { ara: self.ara@, ene: self.ene@, izi: self.izi@ }
    }
}

/// A full palette: a dark and a light set of neutrals, and six accents.
pub struct DevanoPalette {
    pub kora: NeutralHexes,
    pub aleva: NeutralHexes,
    pub ara: AccentHexes,
    pub ene: AccentHexes,
    pub izi: AccentHexes,
    pub ona: AccentHexes,
    pub uvo: AccentHexes,
    pub bala: AccentHexes,
}

/// The mathematical value of a [`DevanoPalette`].
pub struct DevanoPaletteView {
    pub kora: NeutralHexesView,
    pub aleva: NeutralHexesView,
    pub ara: AccentHexesView,
    pub ene: AccentHexesView,
    pub izi: AccentHexesView,
    pub ona: AccentHexesView,
    pub uvo: AccentHexesView,
    pub bala: AccentHexesView,
}

impl View for DevanoPalette {
    type V = DevanoPaletteView;

    open spec fn view(&self) -> DevanoPaletteView {
        DevanoPaletteView {
            kora: self.kora@,
            aleva: self.aleva@,
            ara: self.ara@,
            ene: self.ene@,
            izi: self.izi@,
            ona: self.ona@,
            uvo: self.uvo@,
            bala: self.bala@,
        }
    }
}

/// Returns a set of neutrals holding the given hex codes.
pub fn neutral_hexes(ara: &str, ene: &str, izi: &str, ona: &str) -> (r: NeutralHexes)
    ensures
        r@ == (NeutralHexesView { ara: ara@, ene: ene@, izi: izi@, ona: ona@ }),
{
    NeutralHexes {
        ara: String::from_str(ara),
        ene: String::from_str(ene),
        izi: String::from_str(izi),
        ona: String::from_str(ona),
    }
}

/// Returns an accent holding the given hex codes.
pub fn accent_hexes(ara: &str, ene: &str, izi: &str) -> (r: AccentHexes)
    ensures
        r@ == (AccentHexesView { ara: ara@, ene: ene@, izi: izi@ }),
{
    AccentHexes { ara: String::from_str(ara), ene: String::from_str(ene), izi: String::from_str(izi) }
}

/// A color as three 8-bit channels.
#[derive(Debug, Clone, Copy, PartialEq, Eq, Structural)]
pub struct Rgb {
    pub red: u8,
    pub green: u8,
    pub blue: u8,
}

/// The value of a hexadecimal digit, either case.
pub open spec fn hex_digit_value(c: char) -> Option<u8> {
    if '0' <= c && c <= '9' {
        Some((c as u32 - '0' as u32) as u8)
    } else if 'a' <= c && c <= 'f' {
        Some((c as u32 - 'a' as u32 + 10) as u8)
    } else if 'A' <= c && c <= 'F' {
        Some((c as u32 - 'A' as u32 + 10) as u8)
    } else {
        None
    }
}

/// The code without its leading `#`, if it has one.
pub open spec fn strip_hash(s: Seq<char>) -> Seq<char> {
    if s.len() > 0 && s[0] == '#' {
        s.subrange(1, s.len() as int)
    } else {
        s
    }
}

/// The six digits that a short code stands for: one digit repeated six times, two digits three
/// times, three digits each doubled; six digits stand for themselves.
pub open spec fn expand_hex(h: Seq<char>) -> Option<Seq<char>> {
    if h.len() == 1 {
        Some(h + h + h + h + h + h)
    } else if h.len() == 2 {
        Some(h + h + h)
    } else if h.len() == 3 {
        Some(seq![h[0], h[0], h[1], h[1], h[2], h[2]])
    } else if h.len() == 6 {
        Some(h)
    } else {
        None
    }
}

/// The byte written by the two digits at `i` and `i + 1`.
pub open spec fn hex_byte(digits: Seq<char>, i: int) -> Option<u8> {
    match (hex_digit_value(digits[i]), hex_digit_value(digits[i + 1])) {
        (Some(hi), Some(lo)) => Some((hi * 16 + lo) as u8),
        _ => None,
    }
}

/// The color that a hex code writes, if it writes one.
pub open spec fn spec_parse_hex(code: Seq<char>) -> Option<Rgb> {
    match expand_hex(strip_hash(code)) {
        Some(d) => match (hex_byte(d, 0), hex_byte(d, 2), hex_byte(d, 4)) {
            (Some(red), Some(green), Some(blue)) => Some(Rgb { red, green, blue }),
            _ => None,
        },
        None => None,
    }
}

/// Returns the value of a hexadecimal digit, either case.
fn digit_value(c: char) -> (r: Option<u8>)
    ensures
        r == hex_digit_value(c),
{
    if '0' <= c && c <= '9' {
        Some((c as u32 - '0' as u32) as u8)
    } else if 'a' <= c && c <= 'f' {
        Some((c as u32 - 'a' as u32 + 10) as u8)
    } else if 'A' <= c && c <= 'F' {
        Some((c as u32 - 'A' as u32 + 10) as u8)
    } else {
        None
    }
}

/// Returns the byte written by the two digits at `i` and `i + 1`.
fn byte_at(digits: &Vec<char>, i: usize) -> (r: Option<u8>)
    requires
        i < 5,
        digits@.len() == 6,
    ensures
        r == hex_byte(digits@, i as int),
{
    match (digit_value(digits[i]), digit_value(digits[i + 1])) {
        (Some(hi), Some(lo)) => Some(hi * 16 + lo),
        _ => None,
    }
}

/// Reads a color from a hex code: `#` is optional, and one, two, three or six digits are
/// accepted (`#F`, `#F0`, `#F0A`, `#FF00AA`).
pub fn parse_hex(hex_code: &str) -> (r: Result<Rgb, PaletteError>)
    ensures
        match spec_parse_hex(hex_code@) {
            Some(c) => r == Ok::<Rgb, PaletteError>(c),
            None => r is Err,
        },
{
    let all = chars_of(hex_code);
    let mut h: Vec<char> = Vec::new();
    let start: usize = if all.len() > 0 && all[0] == '#' { 1 } else { 0 };
    let mut i: usize = start;
    while i < all.len()
        invariant
            start <= i <= all@.len(),
            all@ == hex_code@,
            strip_hash(all@) == all@.subrange(start as int, all@.len() as int),
            h@ == all@.subrange(start as int, i as int),
        decreases all@.len() - i,
    {
        h.push(all[i]);
        i += 1;
        proof {
            assert(h@ =~= all@.subrange(start as int, i as int));
        }
    }
    proof {
        assert(strip_hash(all@) =~= h@);
    }
    let n = h.len();
    let mut digits: Vec<char> = Vec::new();
    if n == 1 || n == 2 || n == 6 {
        let times: usize = if n == 1 { 6 } else if n == 2 { 3 } else { 1 };
        let mut k: usize = 0;
        while k < times
            invariant
                k <= times,
                times * n == 6,
                n == h@.len(),
                n == 1 || n == 2 || n == 6,
                digits@.len() == k * n,
                forall|j: int| 0 <= j < digits@.len() ==> #[trigger] digits@[j] == h@[j % (n as int)],
            decreases times - k,
        {
            let mut m: usize = 0;
            while m < n
                invariant
                    m <= n,
                    k < times,
                    times * n == 6,
                    n == h@.len(),
                    n == 1 || n == 2 || n == 6,
                    digits@.len() == k * n + m,
                    forall|j: int| 0 <= j < digits@.len() ==> #[trigger] digits@[j] == h@[j % (n as int)],
                decreases n - m,
            {
                proof {
                    assert((k * n + m) % (n as int) == m) by (nonlinear_arith)
                        requires m < n, n > 0;
                }
                digits.push(h[m]);
                m += 1;
            }
            k += 1;
            proof {
                assert(digits@.len() == k * n) by (nonlinear_arith)
                    requires digits@.len() == (k - 1) * n + n;
            }
        }
        proof {
            let d = expand_hex(h@)->0;
            assert(digits@.len() == 6) by (nonlinear_arith)
                requires digits@.len() == times * n, times * n == 6;
            assert forall|j: int| 0 <= j < 6 implies digits@[j] == d[j] by {
                if n == 1 {
                    assert(j % 1 == 0);
                } else if n == 2 {
                    assert(j % 2 == 0 || j % 2 == 1);
                } else {
                    assert(j % 6 == j);
                }
            }
            assert(digits@ =~= d);
        }
    } else if n == 3 {
        digits = vec![h[0], h[0], h[1], h[1], h[2], h[2]];
        proof {
            assert(digits@ =~= expand_hex(h@)->0);
        }
    } else {
        return Err(PaletteError);
    }
    match (byte_at(&digits, 0), byte_at(&digits, 2), byte_at(&digits, 4)) {
        (Some(red), Some(green), Some(blue)) => Ok(Rgb { red, green, blue }),
        _ => Err(PaletteError),
    }
}

/// The uppercase hexadecimal digit for a value below sixteen.
pub open spec fn hex_digit(v: u8) -> char {
    if v < 10 {
        ((v as u32) + ('0' as u32)) as char
    } else {
        ((v as u32) - 10 + ('A' as u32)) as char
    }
}

/// A byte as two uppercase hexadecimal digits.
pub open spec fn hex_pair(v: u8) -> Seq<char> {
    seq![hex_digit(v / 16), hex_digit(v % 16)]
}

/// A color as `#` and six uppercase hexadecimal digits.
pub open spec fn spec_to_hex(c: Rgb) -> Seq<char> {
    seq!['#'] + hex_pair(c.red) + hex_pair(c.green) + hex_pair(c.blue)
}

pub const HEX_DIGITS: &'static str = "0123456789ABCDEF";

/// Appends the two uppercase hexadecimal digits of `v` to `out`.
fn push_hex_pair(out: &mut String, v: u8)
    ensures
        final(out)@ == old(out)@ + hex_pair(v),
{
    proof {
        reveal_strlit("0123456789ABCDEF");
    }
    let hi = (v / 16) as usize;
    let lo = (v % 16) as usize;
    out.append(HEX_DIGITS.substring_char(hi, hi + 1));
    out.append(HEX_DIGITS.substring_char(lo, lo + 1));
    proof {
        let digits = HEX_DIGITS@;
        assert forall|d: u8| d < 16 implies digits[d as int] == hex_digit(d) by {
            assert(digits =~= seq!['0', '1', '2', '3', '4', '5', '6', '7', '8', '9', 'A', 'B', 'C', 'D', 'E', 'F']);
        }
        assert(final(out)@ =~= old(out)@ + hex_pair(v));
    }
}

/// Writes a color as `#` and six uppercase hexadecimal digits.
pub fn to_hex(color: Rgb) -> (r: String)
    ensures
        r@ == spec_to_hex(color),
{
    let mut r = String::from_str("#");
    proof {
        reveal_strlit("#");
    }
    push_hex_pair(&mut r, color.red);
    push_hex_pair(&mut r, color.green);
    push_hex_pair(&mut r, color.blue);
    proof {
        assert(r@ =~= spec_to_hex(color));
    }
    r
}

/// The source of a Rust constant that holds the palette.
pub open spec fn spec_palette_rust(p: DevanoPaletteView) -> Seq<char> {
    RUST_PIECE_0@
        + p.kora.ara + RUST_PIECE_1@
        + p.kora.ene + RUST_PIECE_2@
        + p.kora.izi + RUST_PIECE_3@
        + p.kora.ona + RUST_PIECE_4@
        + p.aleva.ara + RUST_PIECE_1@
        + p.aleva.ene + RUST_PIECE_2@
        + p.aleva.izi + RUST_PIECE_3@
        + p.aleva.ona + RUST_PIECE_5@
        + p.ara.ara + RUST_PIECE_1@
        + p.ara.ene + RUST_PIECE_2@
        + p.ara.izi + RUST_PIECE_6@
        + p.ene.ara + RUST_PIECE_1@
        + p.ene.ene + RUST_PIECE_2@
        + p.ene.izi + RUST_PIECE_7@
        + p.izi.ara + RUST_PIECE_1@
        + p.izi.ene + RUST_PIECE_2@
        + p.izi.izi + RUST_PIECE_8@
        + p.ona.ara + RUST_PIECE_1@
        + p.ona.ene + RUST_PIECE_2@
        + p.ona.izi + RUST_PIECE_9@
        + p.uvo.ara + RUST_PIECE_1@
        + p.uvo.ene + RUST_PIECE_2@
        + p.uvo.izi + RUST_PIECE_10@
        + p.bala.ara + RUST_PIECE_1@
        + p.bala.ene + RUST_PIECE_2@
        + p.bala.izi + RUST_PIECE_11@
}

/// Returns the source of a Rust constant that holds the palette.
pub fn palette_rust_source(palette: &DevanoPalette) -> (r: String)
    ensures
        r@ == spec_palette_rust(palette@),
{
    let mut s = String::from_str(RUST_PIECE_0);
    s.append(palette.kora.ara.as_str());
    s.append(RUST_PIECE_1);
    s.append(palette.kora.ene.as_str());
    s.append(RUST_PIECE_2);
    s.append(palette.kora.izi.as_str());
    s.append(RUST_PIECE_3);
    s.append(palette.kora.ona.as_str());
    s.append(RUST_PIECE_4);
    s.append(palette.aleva.ara.as_str());
    s.append(RUST_PIECE_1);
    s.append(palette.aleva.ene.as_str());
    s.append(RUST_PIECE_2);
    s.append(palette.aleva.izi.as_str());
    s.append(RUST_PIECE_3);
    s.append(palette.aleva.ona.as_str());
    s.append(RUST_PIECE_5);
    s.append(palette.ara.ara.as_str());
    s.append(RUST_PIECE_1);
    s.append(palette.ara.ene.as_str());
    s.append(RUST_PIECE_2);
    s.append(palette.ara.izi.as_str());
    s.append(RUST_PIECE_6);
    s.append(palette.ene.ara.as_str());
    s.append(RUST_PIECE_1);
    s.append(palette.ene.ene.as_str());
    s.append(RUST_PIECE_2);
    s.append(palette.ene.izi.as_str());
    s.append(RUST_PIECE_7);
    s.append(palette.izi.ara.as_str());
    s.append(RUST_PIECE_1);
    s.append(palette.izi.ene.as_str());
    s.append(RUST_PIECE_2);
    s.append(palette.izi.izi.as_str());
    s.append(RUST_PIECE_8);
    s.append(palette.ona.ara.as_str());
    s.append(RUST_PIECE_1);
    s.append(palette.ona.ene.as_str());
    s.append(RUST_PIECE_2);
    s.append(palette.ona.izi.as_str());
    s.append(RUST_PIECE_9);
    s.append(palette.uvo.ara.as_str());
    s.append(RUST_PIECE_1);
    s.append(palette.uvo.ene.as_str());
    s.append(RUST_PIECE_2);
    s.append(palette.uvo.izi.as_str());
    s.append(RUST_PIECE_10);
    s.append(palette.bala.ara.as_str());
    s.append(RUST_PIECE_1);
    s.append(palette.bala.ene.as_str());
    s.append(RUST_PIECE_2);
    s.append(palette.bala.izi.as_str());
    s.append(RUST_PIECE_11);
    proof {
        assert(s@ =~= spec_palette_rust(palette@));
    }
    s
}

/// One line of a stylesheet that sets the variable `--<prefix>-<key>` to `value`.
pub open spec fn css_line(indent: Seq<char>, prefix: Seq<char>, key: Seq<char>, value: Seq<char>) -> Seq<char> {
    indent + "--"@ + prefix + "-"@ + key + ": "@ + value + ";\n"@
}

/// The stylesheet lines of a set of neutrals.
pub open spec fn neutral_css(indent: Seq<char>, prefix: Seq<char>, n: NeutralHexesView) -> Seq<char> {
    css_line(indent, prefix, "a"@, n.ara) + css_line(indent, prefix, "e"@, n.ene) + css_line(
        indent,
        prefix,
        "i"@,
        n.izi,
    ) + css_line(indent, prefix, "o"@, n.ona)
}

/// The stylesheet lines of an accent.
pub open spec fn accent_css(indent: Seq<char>, prefix: Seq<char>, a: AccentHexesView) -> Seq<char> {
    css_line(indent, prefix, "a"@, a.ara) + css_line(indent, prefix, "e"@, a.ene) + css_line(
        indent,
        prefix,
        "i"@,
        a.izi,
    )
}

/// The stylesheet of a palette: the light scheme at the root, and the dark scheme, with the
/// neutrals swapped and the other accents, under a `prefers-color-scheme: dark` query.
pub open spec fn spec_palette_css(p: DevanoPaletteView) -> Seq<char> {
    ":root {\n"@ + neutral_css("\t"@, "bg"@, p.aleva) + neutral_css("\t"@, "fg"@, p.kora)
        + accent_css("\t"@, "c-a"@, p.ona) + accent_css("\t"@, "c-e"@, p.uvo) + accent_css(
        "\t"@,
        "c-i"@,
        p.bala,
    ) + "}\n"@ + "@media (prefers-color-scheme: dark) {\n\t:root {\n"@ + neutral_css(
        "\t\t"@,
        "bg"@,
        p.kora,
    ) + neutral_css("\t\t"@, "fg"@, p.aleva) + accent_css("\t\t"@, "c-a"@, p.ara) + accent_css(
        "\t\t"@,
        "c-e"@,
        p.ene,
    ) + accent_css("\t\t"@, "c-i"@, p.izi) + "\t}\n}"@
}

/// Appends one stylesheet line to `out`.
fn push_css_line(out: &mut String, indent: &str, prefix: &str, key: &str, value: &str)
    ensures
        final(out)@ == old(out)@ + css_line(indent@, prefix@, key@, value@),
{
    out.append(indent);
    out.append("--");
    out.append(prefix);
    out.append("-");
    out.append(key);
    out.append(": ");
    out.append(value);
    out.append(";\n");
    proof {
        assert(final(out)@ =~= old(out)@ + css_line(indent@, prefix@, key@, value@));
    }
}

/// Appends the stylesheet lines of a set of neutrals to `out`.
fn push_neutral_css(out: &mut String, indent: &str, prefix: &str, n: &NeutralHexes)
    ensures
        final(out)@ == old(out)@ + neutral_css(indent@, prefix@, n@),
{
    push_css_line(out, indent, prefix, "a", n.ara.as_str());
    push_css_line(out, indent, prefix, "e", n.ene.as_str());
    push_css_line(out, indent, prefix, "i", n.izi.as_str());
    push_css_line(out, indent, prefix, "o", n.ona.as_str());
    proof {
        assert(final(out)@ =~= old(out)@ + neutral_css(indent@, prefix@, n@));
    }
}

/// Appends the stylesheet lines of an accent to `out`.
fn push_accent_css(out: &mut String, indent: &str, prefix: &str, a: &AccentHexes)
    ensures
        final(out)@ == old(out)@ + accent_css(indent@, prefix@, a@),
{
    push_css_line(out, indent, prefix, "a", a.ara.as_str());
    push_css_line(out, indent, prefix, "e", a.ene.as_str());
    push_css_line(out, indent, prefix, "i", a.izi.as_str());
    proof {
        assert(final(out)@ =~= old(out)@ + accent_css(indent@, prefix@, a@));
    }
}

/// Returns the stylesheet of a palette.
pub fn palette_css(palette: &DevanoPalette) -> (r: String)
    ensures
        r@ == spec_palette_css(palette@),
{
    let mut s = String::from_str(":root {\n");
    push_neutral_css(&mut s, "\t", "bg", &palette.aleva);
    push_neutral_css(&mut s, "\t", "fg", &palette.kora);
    push_accent_css(&mut s, "\t", "c-a", &palette.ona);
    push_accent_css(&mut s, "\t", "c-e", &palette.uvo);
    push_accent_css(&mut s, "\t", "c-i", &palette.bala);
    s.append("}\n");
    s.append("@media (prefers-color-scheme: dark) {\n\t:root {\n");
    push_neutral_css(&mut s, "\t\t", "bg", &palette.kora);
    push_neutral_css(&mut s, "\t\t", "fg", &palette.aleva);
    push_accent_css(&mut s, "\t\t", "c-a", &palette.ara);
    push_accent_css(&mut s, "\t\t", "c-e", &palette.ene);
    push_accent_css(&mut s, "\t\t", "c-i", &palette.izi);
    s.append("\t}\n}");
    proof {
        assert(s@ =~= spec_palette_css(palette@));
    }
    s
}

/// Where an exported palette goes.
#[derive(Debug, Clone, Copy, PartialEq, Eq, Structural)]
pub enum Destination {
    /// A Rust constant, under `src/codegen/palettes`.
    Rust,
    /// A stylesheet, under `src/css/devano`.
    Css,
}

impl Destination {
    /// The path, segment by segment, of the exported file.
    pub open spec fn spec_file_path(self) -> Seq<&'static str> {
        match self {
            Destination::Rust => seq!["src", "codegen", "palettes", "newest.rs"],
            Destination::Css => seq!["src", "css", "devano", "palette.css"],
        }
    }

    /// Returns the path, segment by segment, of the exported file.
    pub fn file_path(&self) -> (r: Vec<&'static str>)
        ensures
            r@ == self.spec_file_path(),
    {
        let r = match self {
            Destination::Rust => vec!["src", "codegen", "palettes", "newest.rs"],
            Destination::Css => vec!["src", "css", "devano", "palette.css"],
        };
        proof {
            assert(r@ =~= self.spec_file_path());
        }
        r
    }

    /// Returns the text of the exported file.
    pub fn render(&self, palette: &DevanoPalette) -> (r: String)
        ensures
            *self == Destination::Rust ==> r@ == spec_palette_rust(palette@),
            *self == Destination::Css ==> r@ == spec_palette_css(palette@),
    {
        match self {
            Destination::Rust => palette_rust_source(palette),
            Destination::Css => palette_css(palette),
        }
    }
}

/// The choices offered for exporting a palette: value, label and hint of each.
pub open spec fn spec_export_options() -> Seq<(&'static str, &'static str, &'static str)> {
    seq![
        (
            "Export to Rust",
            "Export to Rust",
            "Exports the 32-token theme to ./src/codegen/palettes/newest.rs",
        ),
        (
            "Export to CSS",
            "Export to CSS",
            "Exports the 32-token theme to ./src/css/devano/devano.css",
        ),
        ("Go Back", "Go Back", "Go up one level"),
    ]
}

/// Returns the choices offered for exporting a palette: value, label and hint of each.
pub fn get_export_options() -> (r: Vec<(&'static str, &'static str, &'static str)>)
    ensures
        r@ == spec_export_options(),
{
    let r = vec![
        (
            "Export to Rust",
            "Export to Rust",
            "Exports the 32-token theme to ./src/codegen/palettes/newest.rs",
        ),
        (
            "Export to CSS",
            "Export to CSS",
            "Exports the 32-token theme to ./src/css/devano/devano.css",
        ),
        ("Go Back", "Go Back", "Go up one level"),
    ];
    proof {
        assert(r@ =~= spec_export_options());
    }
    r
}

/// Returns where the chosen export option sends the palette, or `None` for any other choice.
pub fn export_destination(choice: &str) -> (r: Option<Destination>)
    ensures
        choice@ == "Export to Rust"@ ==> r == Some(Destination::Rust),
        choice@ == "Export to CSS"@ ==> r == Some(Destination::Css),
        choice@ != "Export to Rust"@ && choice@ != "Export to CSS"@ ==> r is None,
{
    proof {
        reveal_strlit("Export to Rust");
        reveal_strlit("Export to CSS");
        assert("Export to CSS"@.len() != "Export to Rust"@.len());
    }
    if same_text(choice, "Export to Rust") {
        Some(Destination::Rust)
    } else if same_text(choice, "Export to CSS") {
        Some(Destination::Css)
    } else {
        None
    }
}

/// The pattern of an accepted hex code: `#` and three or six hexadecimal digits.
pub const HEX_CODE_PATTERN: &'static str = r"^#(?:[0-9a-fA-F]{3}){1,2}$";

/// Whether the text is a hex code that [`HEX_CODE_PATTERN`] matches: `#`, then three or six
/// hexadecimal digits of either case, and nothing else.
pub open spec fn is_hex_code(s: Seq<char>) -> bool {
    &&& (s.len() == 4 || s.len() == 7)
    &&& s[0] == '#'
    &&& forall|i: int| 1 <= i < s.len() ==> #[trigger] hex_digit_value(s[i]) is Some
}

/// Relies on `regex::Regex::new` and `regex::Regex::is_match`: compiles `pattern`, the hex code
/// pattern, which is valid and small, so compiling succeeds; `^` and `$` anchor the match at the
/// start and the end of the haystack, and the class `[0-9a-fA-F]` holds the ASCII hexadecimal
/// digits, so the pattern matches exactly the hex codes.
#[verifier::external_body]
fn regex_is_match(pattern: &str, haystack: &str) -> (r: bool)
    requires
        pattern@ == HEX_CODE_PATTERN@,
    ensures
        r == is_hex_code(haystack@),
{
    match regex::Regex::new(pattern) {
        Ok(re) => re.is_match(haystack),
        Err(_) => false,
    }
}

/// Why a typed hex code is refused.
#[derive(Debug, Clone, Copy, PartialEq, Eq, Structural)]
pub enum HexInputError {
    /// Nothing was typed.
    Empty,
    /// What was typed is not a hex code.
    Invalid,
}

impl HexInputError {
    /// The message shown for the error.
    pub fn message(&self) -> (r: &'static str)
        ensures
            *self == HexInputError::Empty ==> r == "Please enter a hex code.",
            *self == HexInputError::Invalid ==> r
                == "Please enter a valid hex-code (e.g., #RRGGBB or #RGB).",
    {
        match self {
            HexInputError::Empty => "Please enter a hex code.",
            HexInputError::Invalid => "Please enter a valid hex-code (e.g., #RRGGBB or #RGB).",
        }
    }
}

/// Judges a typed hex code, given whether the hex code pattern matched it.
pub fn hex_input_verdict(input: &str, matched: bool) -> (r: Result<(), HexInputError>)
    ensures
        input@.len() == 0 ==> r == Err::<(), HexInputError>(HexInputError::Empty),
        input@.len() > 0 && matched ==> r is Ok,
        input@.len() > 0 && !matched ==> r == Err::<(), HexInputError>(HexInputError::Invalid),
{
    if input.is_empty() {
        Err(HexInputError::Empty)
    } else if matched {
        Ok(())
    } else {
        Err(HexInputError::Invalid)
    }
}

/// Judges a typed hex code: refused when empty, accepted exactly when it is `#` and three or
/// six hexadecimal digits.
pub fn validate_hex_input(input: &str) -> (r: Result<(), HexInputError>)
    ensures
        input@.len() == 0 ==> r == Err::<(), HexInputError>(HexInputError::Empty),
        input@.len() > 0 && is_hex_code(input@) ==> r is Ok,
        input@.len() > 0 && !is_hex_code(input@) ==> r == Err::<(), HexInputError>(
            HexInputError::Invalid,
        ),
{
    let matched = regex_is_match(HEX_CODE_PATTERN, input);
    hex_input_verdict(input, matched)
}

} // verus!
