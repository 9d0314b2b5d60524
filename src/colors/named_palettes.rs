use vstd::prelude::*;
use crate::colors::{
    accent_hexes, neutral_hexes, AccentHexesView, DevanoPalette, DevanoPaletteView, NeutralHexesView,
};
use crate::text::same_text;

verus! {

/// The palettes that ship with the tool.
#[derive(Debug, Clone, Copy, PartialEq, Eq, Structural)]
pub enum NamedPalette {
    Default,
    Lime,
    Montessori,
}

impl NamedPalette {
    /// Every named palette, in menu order.
    pub open spec fn spec_all() -> Seq<NamedPalette> {
        seq![NamedPalette::Default, NamedPalette::Lime, NamedPalette::Montessori]
    }

    /// Returns every named palette, in menu order.
    pub fn all() -> (r: Vec<NamedPalette>)
        ensures
            r@ == Self::spec_all(),
    {
        let r = vec![NamedPalette::Default, NamedPalette::Lime, NamedPalette::Montessori];
        proof {
            assert(r@ =~= Self::spec_all());
        }
        r
    }

    /// The palette's name.
    pub open spec fn spec_as_str(self) -> &'static str {
        match self {
            NamedPalette::Default => "default",
            NamedPalette::Lime => "lime",
            NamedPalette::Montessori => "montessori",
        }
    }

    /// Returns the palette's name.
    pub fn as_str(&self) -> (r: &'static str)
        ensures
            r == self.spec_as_str(),
    {
        match self {
            NamedPalette::Default => "default",
            NamedPalette::Lime => "lime",
            NamedPalette::Montessori => "montessori",
        }
    }

    /// Returns the palette's description.
    pub fn description(&self) -> (r: &'static str)
        ensures
            *self == NamedPalette::Default ==> r == "Neutral neutrals. Icy cool & saturated accents.",
            *self == NamedPalette::Lime ==> r == "Neutral neutrals. Kelly/Forest/Cyan accents",
            *self == NamedPalette::Montessori ==> r == "Sophisticated RYB Primary palette - muted tones & slightly saturated pastels.",
    {
        match self {
            NamedPalette::Default => "Neutral neutrals. Icy cool & saturated accents.",
            NamedPalette::Lime => "Neutral neutrals. Kelly/Forest/Cyan accents",
            NamedPalette::Montessori => "Sophisticated RYB Primary palette - muted tones & slightly saturated pastels.",
        }
    }

    /// The palette's colors.
    pub open spec fn spec_palette(self) -> DevanoPaletteView {
        match self {
            NamedPalette::Default => DevanoPaletteView {
                kora: NeutralHexesView { ara: "#030101"@, ene: "#1d1A17"@, izi: "#33312F"@, ona: "#4A4948"@ },
                aleva: NeutralHexesView { ara: "#B6B2AF"@, ene: "#D9D4D0"@, izi: "#EBE6E1"@, ona: "#FDF7F2"@ },
                ara: AccentHexesView { ara: "#84d9b6"@, ene: "#b8ebd8"@, izi: "#DEFCF4"@ },
                ene: AccentHexesView { ara: "#78D8DD"@, ene: "#B0EBED"@, izi: "#D7FCFC"@ },
                izi: AccentHexesView { ara: "#81D0FD"@, ene: "#B6E6FE"@, izi: "#DCFAFF"@ },
                ona: AccentHexesView { ara: "#082B1D"@, ene: "#3F6E5E"@, izi: "#57827E"@ },
                uvo: AccentHexesView { ara: "#04282D"@, ene: "#366E70"@, izi: "#4B9295"@ },
                bala: AccentHexesView { ara: "#072738"@, ene: "#3D6A7E"@, izi: "#568DA5"@ },
            },
            NamedPalette::Lime => DevanoPaletteView {
                kora: NeutralHexesView { ara: "#030303"@, ene: "#151515"@, izi: "#2B2B2B"@, ona: "#444444"@ },
                aleva: NeutralHexesView { ara: "#D4D4D4"@, ene: "#DFDFDF"@, izi: "#E9E9E9"@, ona: "#FAFAFA"@ },
                ara: AccentHexesView { ara: "#4CFF03"@, ene: "#8EFF30"@, izi: "#B5FF44"@ },
                ene: AccentHexesView { ara: "#00FF7E"@, ene: "#00FFB4"@, izi: "#00FFDA"@ },
                izi: AccentHexesView { ara: "#00FFFF"@, ene: "#00FFFF"@, izi: "#00FFFF"@ },
                ona: AccentHexesView { ara: "#003900"@, ene: "#007C00"@, izi: "#00A300"@ },
                uvo: AccentHexesView { ara: "#004607"@, ene: "#00893C"@, izi: "#00B053"@ },
                bala: AccentHexesView { ara: "#00434E"@, ene: "#00858F"@, izi: "#00ADB7"@ },
            },
            NamedPalette::Montessori => DevanoPaletteView {
                kora: NeutralHexesView { ara: "#030303"@, ene: "#151515"@, izi: "#2B2B2B"@, ona: "#444444"@ },
                aleva: NeutralHexesView { ara: "#D4D4D4"@, ene: "#DFDFDF"@, izi: "#E9E9E9"@, ona: "#FAFAFA"@ },
                ara: AccentHexesView { ara: "#FF5F53"@, ene: "#FF9D93"@, izi: "#FFC5BB"@ },
                ene: AccentHexesView { ara: "#FFA800"@, ene: "#FFCF00"@, izi: "#FFEF00"@ },
                izi: AccentHexesView { ara: "#00E2FF"@, ene: "#00F0FF"@, izi: "#00FDFF"@ },
                ona: AccentHexesView { ara: "#8E0000"@, ene: "#BF0015"@, izi: "#E30021"@ },
                uvo: AccentHexesView { ara: "#581200"@, ene: "#984F00"@, izi: "#C06D00"@ },
                bala: AccentHexesView { ara: "#00299D"@, ene: "#006CC8"@, izi: "#008FEA"@ },
            },
        }
    }

    /// Returns the palette's colors.
    pub fn get_palette(&self) -> (r: DevanoPalette)
        ensures
            r@ == self.spec_palette(),
    {
        match self {
            NamedPalette::Default => DevanoPalette {
                kora: neutral_hexes("#030101", "#1d1A17", "#33312F", "#4A4948"),
                aleva: neutral_hexes("#B6B2AF", "#D9D4D0", "#EBE6E1", "#FDF7F2"),
                ara: accent_hexes("#84d9b6", "#b8ebd8", "#DEFCF4"),
                ene: accent_hexes("#78D8DD", "#B0EBED", "#D7FCFC"),
                izi: accent_hexes("#81D0FD", "#B6E6FE", "#DCFAFF"),
                ona: accent_hexes("#082B1D", "#3F6E5E", "#57827E"),
                uvo: accent_hexes("#04282D", "#366E70", "#4B9295"),
                bala: accent_hexes("#072738", "#3D6A7E", "#568DA5"),
            },
            NamedPalette::Lime => DevanoPalette {
                kora: neutral_hexes("#030303", "#151515", "#2B2B2B", "#444444"),
                aleva: neutral_hexes("#D4D4D4", "#DFDFDF", "#E9E9E9", "#FAFAFA"),
                ara: accent_hexes("#4CFF03", "#8EFF30", "#B5FF44"),
                ene: accent_hexes("#00FF7E", "#00FFB4", "#00FFDA"),
                izi: accent_hexes("#00FFFF", "#00FFFF", "#00FFFF"),
                ona: accent_hexes("#003900", "#007C00", "#00A300"),
                uvo: accent_hexes("#004607", "#00893C", "#00B053"),
                bala: accent_hexes("#00434E", "#00858F", "#00ADB7"),
            },
            NamedPalette::Montessori => DevanoPalette {
                kora: neutral_hexes("#030303", "#151515", "#2B2B2B", "#444444"),
                aleva: neutral_hexes("#D4D4D4", "#DFDFDF", "#E9E9E9", "#FAFAFA"),
                ara: accent_hexes("#FF5F53", "#FF9D93", "#FFC5BB"),
                ene: accent_hexes("#FFA800", "#FFCF00", "#FFEF00"),
                izi: accent_hexes("#00E2FF", "#00F0FF", "#00FDFF"),
                ona: accent_hexes("#8E0000", "#BF0015", "#E30021"),
                uvo: accent_hexes("#581200", "#984F00", "#C06D00"),
                bala: accent_hexes("#00299D", "#006CC8", "#008FEA"),
            },
        }
    }

    /// Returns the palette with the given name, or `None` where no palette has it.
    pub fn from_str(name: &str) -> (r: Option<Self>)
        ensures
            forall|p: NamedPalette| r == Some(p) <==> name@ == p.spec_as_str()@,
    {
        proof {
            reveal_strlit("default");
            reveal_strlit("lime");
            reveal_strlit("montessori");
            assert("default"@.len() == 7);
            assert("lime"@.len() == 4);
            assert("montessori"@.len() == 10);
        }
        if same_text(name, "default") {
            return Some(NamedPalette::Default);
        }
        if same_text(name, "lime") {
            return Some(NamedPalette::Lime);
        }
        if same_text(name, "montessori") {
            return Some(NamedPalette::Montessori);
        }
        None
    }
}

} // verus!
