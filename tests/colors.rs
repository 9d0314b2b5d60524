use devano::colors::named_palettes::NamedPalette;
use devano::colors::{
    export_destination, get_export_options, palette_css, palette_rust_source, parse_hex, to_hex,
    validate_hex_input, Destination, HexInputError, PaletteError, Rgb,
};

#[test]
fn parses_six_digits() {
    assert_eq!(parse_hex("#FDC0C0"), Ok(Rgb { red: 253, green: 192, blue: 192 }));
    assert_eq!(parse_hex("36334d"), Ok(Rgb { red: 0x36, green: 0x33, blue: 0x4d }));
}

#[test]
fn expands_short_codes() {
    assert_eq!(parse_hex("#abc"), Ok(Rgb { red: 0xaa, green: 0xbb, blue: 0xcc }));
    assert_eq!(parse_hex("#F"), Ok(Rgb { red: 255, green: 255, blue: 255 }));
    assert_eq!(parse_hex("#F0"), Ok(Rgb { red: 0xf0, green: 0xf0, blue: 0xf0 }));
}

#[test]
fn refuses_bad_codes() {
    assert_eq!(parse_hex("#12345"), Err(PaletteError));
    assert_eq!(parse_hex("#GG0000"), Err(PaletteError));
    assert_eq!(parse_hex(""), Err(PaletteError));
    assert_eq!(PaletteError.message(), "Something went wrong");
}

#[test]
fn writes_uppercase_hex() {
    assert_eq!(to_hex(Rgb { red: 253, green: 192, blue: 192 }), "#FDC0C0");
    assert_eq!(to_hex(Rgb { red: 0, green: 10, blue: 255 }), "#000AFF");
}

#[test]
fn hex_round_trip() {
    let c = Rgb { red: 18, green: 52, blue: 171 };
    assert_eq!(parse_hex(&to_hex(c)), Ok(c));
}

#[test]
fn validates_typed_codes() {
    assert_eq!(validate_hex_input(""), Err(HexInputError::Empty));
    assert_eq!(validate_hex_input("#FDC0C0"), Ok(()));
    assert_eq!(validate_hex_input("#abc"), Ok(()));
    assert_eq!(validate_hex_input("#FDC0C"), Err(HexInputError::Invalid));
    assert_eq!(validate_hex_input("FDC0C0"), Err(HexInputError::Invalid));
    assert_eq!(validate_hex_input("#ABAB"), Err(HexInputError::Invalid));
    assert_eq!(validate_hex_input("#FDC0C0\n"), Err(HexInputError::Invalid));
    assert_eq!(validate_hex_input("#FDC0CG"), Err(HexInputError::Invalid));
    assert_eq!(HexInputError::Empty.message(), "Please enter a hex code.");
}

#[test]
fn named_palettes() {
    assert_eq!(NamedPalette::from_str("lime"), Some(NamedPalette::Lime));
    assert_eq!(NamedPalette::from_str("Lime"), None);
    assert_eq!(NamedPalette::all().len(), 3);
    assert_eq!(NamedPalette::Default.as_str(), "default");
    let p = NamedPalette::Default.get_palette();
    assert_eq!(p.kora.ara, "#030101");
    assert_eq!(p.bala.izi, "#568DA5");
}

#[test]
fn css_export() {
    let p = NamedPalette::Default.get_palette();
    let css = palette_css(&p);
    assert!(css.starts_with(":root {\n\t--bg-a: #B6B2AF;\n"));
    assert!(css.contains("\t\t--bg-a: #030101;\n"));
    assert!(css.contains("\t--c-a-a: #082B1D;\n"));
    assert!(css.ends_with("\t\t--c-i-i: #DCFAFF;\n\t}\n}"));
    assert_eq!(css, Destination::Css.render(&p));
}

#[test]
fn rust_export() {
    let p = NamedPalette::Default.get_palette();
    let src = palette_rust_source(&p);
    assert!(src.starts_with("\n        pub const NEW_PALETTE: DevanoPalette = DevanoPalette {\n    kora: NeutralHexes {\n        ara: \"#030101\".to_string(),\n"));
    assert!(src.ends_with("izi: \"#568DA5\".to_string(),\n    },\n};"));
}

#[test]
fn export_options_and_destinations() {
    let options = get_export_options();
    assert_eq!(options.len(), 3);
    assert_eq!(options[2], ("Go Back", "Go Back", "Go up one level"));
    assert_eq!(export_destination("Export to Rust"), Some(Destination::Rust));
    assert_eq!(export_destination("Export to CSS"), Some(Destination::Css));
    assert_eq!(export_destination("Go Back"), None);
    assert_eq!(Destination::Css.file_path(), vec!["src", "css", "devano", "palette.css"]);
    assert_eq!(Destination::Rust.file_path(), vec!["src", "codegen", "palettes", "newest.rs"]);
}
