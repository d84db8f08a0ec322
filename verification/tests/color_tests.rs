use dream_spinner::color::Color;
use dream_spinner::color_scheme::{ColorScheme, ColorSchemeText};
use dream_spinner::text::{decimal_text, rank, Rank};

fn err(text: &str) -> Result<Color, String> {
    Err(text.to_string())
}

#[test]
fn new_colors_are_opaque() {
    assert_eq!(Color::new(1, 2, 3), Color { r: 1, g: 2, b: 3, a: 255 });
    assert_eq!(Color::new_with_alpha(1, 2, 3, 4), Color { r: 1, g: 2, b: 3, a: 4 });
}

#[test]
fn from_hex_reads_six_and_eight_digits() {
    assert_eq!(Color::from_hex("#635147"), Ok(Color::new(0x63, 0x51, 0x47)));
    assert_eq!(Color::from_hex("635147"), Ok(Color::new(0x63, 0x51, 0x47)));
    assert_eq!(Color::from_hex("#63514780"), Ok(Color::new_with_alpha(0x63, 0x51, 0x47, 0x80)));
    assert_eq!(Color::from_hex("#abcdef"), Ok(Color::new(0xab, 0xcd, 0xef)));
    assert_eq!(Color::from_hex("#ABCDEF00"), Ok(Color::new_with_alpha(0xab, 0xcd, 0xef, 0)));
    assert_eq!(Color::from_hex("###000000"), Ok(Color::new(0, 0, 0)));
}

#[test]
fn from_hex_names_what_is_wrong() {
    assert_eq!(Color::from_hex(""), err("Invalid hex color format"));
    assert_eq!(Color::from_hex("#"), err("Invalid hex color format"));
    assert_eq!(Color::from_hex("#12345"), err("Invalid hex color format"));
    assert_eq!(Color::from_hex("#1234567"), err("Invalid hex color format"));
    assert_eq!(Color::from_hex("#123456789"), err("Invalid hex color format"));
    assert_eq!(Color::from_hex("#g00000"), err("Invalid red value"));
    assert_eq!(Color::from_hex("#00 000"), err("Invalid green value"));
    assert_eq!(Color::from_hex("#0000-1"), err("Invalid blue value"));
    assert_eq!(Color::from_hex("#000000zz"), err("Invalid alpha value"));
    assert_eq!(Color::from_hex("#zzzzzzzz"), err("Invalid red value"));
    assert_eq!(Color::from_hex("00#000"), err("Invalid green value"));
}

#[test]
fn from_hex_takes_a_plus_sign_for_a_digit() {
    assert_eq!(Color::from_hex("+f+f+f"), Ok(Color::new(15, 15, 15)));
    assert_eq!(Color::from_hex("#0+0000"), err("Invalid red value"));
    assert_eq!(Color::from_hex("#++0000"), err("Invalid red value"));
}

#[test]
fn from_hex_counts_bytes_not_characters() {
    // Three characters of two bytes each: six bytes, none of them a digit.
    assert_eq!(Color::from_hex("ééé"), err("Invalid red value"));
    assert_eq!(Color::from_hex("éééééé"), err("Invalid hex color format"));
    assert_eq!(Color::from_hex("00éé"), err("Invalid green value"));
}

#[test]
fn to_hex_writes_upper_case_with_alpha() {
    assert_eq!(Color::new(0x63, 0x51, 0x47).to_hex(), "#635147FF");
    assert_eq!(Color::new_with_alpha(0, 10, 171, 9).to_hex(), "#000AAB09");
    assert_eq!(Color::new_with_alpha(255, 255, 255, 255).to_hex(), "#FFFFFFFF");
}

#[test]
fn hex_round_trip_on_many_colors() {
    let mut v: u32 = 1;
    for _ in 0..500 {
        v = v.wrapping_mul(1_664_525).wrapping_add(1_013_904_223);
        let [r, g, b, a] = v.to_be_bytes();
        let c = Color::new_with_alpha(r, g, b, a);
        assert_eq!(Color::from_hex(&c.to_hex()), Ok(c));
    }
}

#[test]
fn color_in_words() {
    assert_eq!(Color::new(99, 81, 71).to_string(), "RGBA(99, 81, 71, 255)");
    assert_eq!(Color::new_with_alpha(0, 7, 100, 10).to_string(), "RGBA(0, 7, 100, 10)");
}

#[test]
fn decimal_text_writes_numbers() {
    assert_eq!(decimal_text(0), "0");
    assert_eq!(decimal_text(7), "7");
    assert_eq!(decimal_text(10), "10");
    assert_eq!(decimal_text(4096), "4096");
    assert_eq!(decimal_text(usize::MAX), format!("{}", usize::MAX));
}

#[test]
fn rank_orders_strings_by_their_bytes() {
    assert_eq!(rank("a", "b"), Rank::Before);
    assert_eq!(rank("b", "a"), Rank::After);
    assert_eq!(rank("abc", "abc"), Rank::Same);
    assert_eq!(rank("", ""), Rank::Same);
    assert_eq!(rank("", "a"), Rank::Before);
    assert_eq!(rank("ab", "abc"), Rank::Before);
    assert_eq!(rank("abc", "ab"), Rank::After);
    assert_eq!(rank("Z", "a"), Rank::Before);
    assert_eq!(rank("z", "é"), Rank::Before);
    for (a, b) in [("monet", "solid_color"), ("é", "z"), ("x", "x"), ("10", "9")] {
        let want = match a.cmp(b) {
            std::cmp::Ordering::Less => Rank::Before,
            std::cmp::Ordering::Equal => Rank::Same,
            std::cmp::Ordering::Greater => Rank::After,
        };
        assert_eq!(rank(a, b), want);
    }
}

fn scheme_text(name: &str, palette: &str) -> ColorSchemeText {
    ColorSchemeText {
        color_01: palette.to_string(),
        color_02: "#020202".to_string(),
        color_03: "#030303".to_string(),
        color_04: "#040404".to_string(),
        color_05: "#050505".to_string(),
        color_06: "#060606".to_string(),
        color_07: "#070707".to_string(),
        color_08: "#080808".to_string(),
        color_09: "#090909".to_string(),
        color_10: "#0a0a0a".to_string(),
        color_11: "#0b0b0b".to_string(),
        color_12: "#0c0c0c".to_string(),
        color_13: "#0d0d0d".to_string(),
        color_14: "#0e0e0e".to_string(),
        color_15: "#0f0f0f".to_string(),
        color_16: "#101010".to_string(),
        name: name.to_string(),
        foreground: "#aabbcc".to_string(),
        background: "#112233".to_string(),
        cursor: "#ffeedd80".to_string(),
    }
}

#[test]
fn default_scheme() {
    let scheme = ColorScheme::default();
    assert_eq!(scheme.name, "None");
    assert_eq!(scheme.colors, [Color::new(0, 0, 0); 16]);
    assert_eq!(scheme.foreground, Color::new(200, 200, 200));
    assert_eq!(scheme.background, Color::new(0, 0, 0));
    assert_eq!(scheme.cursor, Color::new(0, 200, 200));
}

#[test]
fn scheme_is_read_from_its_text() {
    let scheme = ColorScheme::from_color_scheme_text(scheme_text("Dusk", "#010101")).unwrap();
    assert_eq!(scheme.name, "Dusk");
    for i in 0..16 {
        let v = (i + 1) as u8;
        assert_eq!(scheme.colors[i], Color::new(v, v, v));
    }
    assert_eq!(scheme.foreground, Color::new(0xaa, 0xbb, 0xcc));
    assert_eq!(scheme.background, Color::new(0x11, 0x22, 0x33));
    assert_eq!(scheme.cursor, Color::new_with_alpha(0xff, 0xee, 0xdd, 0x80));
}

#[test]
fn scheme_with_a_bad_color_is_refused() {
    let bad = ColorScheme::from_color_scheme_text(scheme_text("Dusk", "#0101"));
    assert_eq!(bad.err(), Some("Invalid hex color format".to_string()));
    let mut text = scheme_text("Dusk", "#010101");
    text.color_07 = "#0707zz".to_string();
    text.cursor = "nothing".to_string();
    let bad = ColorScheme::from_color_scheme_text(text);
    assert_eq!(bad.err(), Some("Invalid blue value".to_string()));
    let mut text = scheme_text("Dusk", "#010101");
    text.background = "#11223".to_string();
    let bad = ColorScheme::from_color_scheme_text(text);
    assert_eq!(bad.err(), Some("Invalid hex color format".to_string()));
}

#[test]
fn schemes_are_compared_and_copied() {
    let a = ColorScheme::from_color_scheme_text(scheme_text("Dusk", "#010101")).unwrap();
    let b = a.duplicate();
    assert!(a.same_as(&b));
    let c = ColorScheme::from_color_scheme_text(scheme_text("Dawn", "#010101")).unwrap();
    assert!(!a.same_as(&c));
    let d = ColorScheme::from_color_scheme_text(scheme_text("Dusk", "#010102")).unwrap();
    assert!(!a.same_as(&d));
    let mut e = a.duplicate();
    e.cursor = Color::new(1, 1, 1);
    assert!(!a.same_as(&e));
}

#[test]
fn catalog_holds_schemes_by_name_and_the_later_one_stays() {
    let texts = vec![
        scheme_text("Dusk", "#010101"),
        scheme_text("Aurora", "#020202"),
        scheme_text("Dusk", "#030303"),
        scheme_text("Zenith", "#040404"),
    ];
    let catalog = ColorScheme::read_default_schemes(texts).unwrap();
    assert_eq!(catalog.len(), 3);
    assert_eq!(catalog.scheme_at(0).name, "Aurora");
    assert_eq!(catalog.scheme_at(1).name, "Dusk");
    assert_eq!(catalog.scheme_at(2).name, "Zenith");
    assert_eq!(catalog.scheme_at(1).colors[0], Color::new(3, 3, 3));
    assert_eq!(catalog.scheme_at(0).colors[0], Color::new(2, 2, 2));
}

#[test]
fn catalog_of_nothing_is_empty_and_a_bad_scheme_spoils_it() {
    let catalog = ColorScheme::read_default_schemes(Vec::new()).unwrap();
    assert_eq!(catalog.len(), 0);
    let texts = vec![scheme_text("Dusk", "#010101"), scheme_text("Dawn", "red")];
    let bad = ColorScheme::read_default_schemes(texts);
    assert_eq!(bad.err(), Some("Invalid hex color format".to_string()));
}
