use dream_spinner::app_settings::{SettingsRaw, ViewportMode};
use dream_spinner::color::Color;
use dream_spinner::display::{resolve_topology, DisplaySurface, ViewportIdentity};
use dream_spinner::dreams::build_dream_by_id;
use dream_spinner::dreamspinner::{DreamSpinner, RepaintRequest, ViewportTarget};
use dream_spinner::parse_cli::parse_handle;
use dream_spinner::text::{parse_usize, to_chars};

fn words() -> Vec<String> {
    let pieces = ["", "0", "1", "9", "+", "-", " ", "a", "f", "F", "g", "00", "12", "٣", "é", "#"];
    let mut words: Vec<String> = pieces.iter().map(|s| s.to_string()).collect();
    for a in pieces {
        for b in pieces {
            words.push(format!("{}{}", a, b));
            words.push(format!("{}{}3", a, b));
        }
    }
    words.push(format!("{}", usize::MAX));
    words.push(format!("+{}", usize::MAX));
    words.push(format!("{}1", usize::MAX));
    words.push(format!("000{}", usize::MAX));
    words.push("18446744073709551616".to_string());
    words.push("99999999999999999999999999".to_string());
    words
}

#[test]
fn numbers_are_read_as_the_standard_library_reads_them() {
    for word in words() {
        let chars: Vec<char> = word.chars().collect();
        assert_eq!(parse_usize(&chars), word.parse::<usize>().ok(), "{:?}", word);
        let handle = match word.parse::<usize>() {
            Ok(0) | Err(_) => None,
            Ok(n) => Some(n),
        };
        assert_eq!(parse_handle(&chars), handle, "{:?}", word);
    }
}

#[test]
fn characters_are_taken_as_the_standard_library_takes_them() {
    for word in words() {
        assert_eq!(to_chars(&word), word.chars().collect::<Vec<char>>());
    }
    assert_eq!(to_chars("a é ٣ 𝄞"), vec!['a', ' ', 'é', ' ', '٣', ' ', '𝄞']);
}

fn channel(text: &str) -> Option<u8> {
    u8::from_str_radix(text, 16).ok()
}

#[test]
fn channels_are_read_as_the_standard_library_reads_them() {
    let bytes = b"0123456789abcdefABCDEFgG+-# xz";
    for &a in bytes {
        for &b in bytes {
            if a == b'#' {
                continue;
            }
            let pair = format!("{}{}", a as char, b as char);
            let text = format!("{}0000", pair);
            let want = match channel(&pair) {
                Some(r) => Ok(Color::new(r, 0, 0)),
                None => Err("Invalid red value".to_string()),
            };
            if text.trim_start_matches('#').len() == 6 {
                assert_eq!(Color::from_hex(&text), want, "{:?}", text);
            }
            let text = format!("#0000{}", pair);
            let want = match channel(&pair) {
                Some(b) => Ok(Color::new(0, 0, b)),
                None => Err("Invalid blue value".to_string()),
            };
            assert_eq!(Color::from_hex(&text), want, "{:?}", text);
            let text = format!("#000000{}", pair);
            let want = match channel(&pair) {
                Some(a) => Ok(Color::new_with_alpha(0, 0, 0, a)),
                None => Err("Invalid alpha value".to_string()),
            };
            assert_eq!(Color::from_hex(&text), want, "{:?}", text);
        }
    }
}

#[test]
fn colors_are_written_as_the_standard_library_writes_them() {
    let mut v: u32 = 99;
    for _ in 0..300 {
        v = v.wrapping_mul(1_664_525).wrapping_add(1_013_904_223);
        let [r, g, b, a] = v.to_be_bytes();
        let c = Color::new_with_alpha(r, g, b, a);
        assert_eq!(c.to_hex(), format!("#{:02X}{:02X}{:02X}{:02X}", r, g, b, a));
        assert_eq!(c.to_string(), format!("RGBA({}, {}, {}, {})", r, g, b, a));
    }
}

#[test]
fn settings_taken_apart_and_put_together_are_the_same() {
    let mut settings = SettingsRaw::default();
    settings.set_show_fps(true);
    settings.set_viewport_mode(ViewportMode::Deferred);
    settings.set_dream_selected("solid_color", true);
    settings.store_dream_settings("solid_color", "color = [1, 2, 3, 4]\n".to_string());
    let copy = settings.duplicate();
    let (blobs, multiscreen, fps, selected, mode, dev, scheme) = settings.into_parts();
    assert_eq!(blobs.len(), 1);
    assert!(!multiscreen && fps && !dev);
    assert_eq!(selected.len(), 2);
    assert_eq!(mode, ViewportMode::Deferred);
    let again =
        SettingsRaw::from_parts(blobs, multiscreen, fps, selected, mode, dev, scheme).unwrap();
    assert!(again.same_as(&copy));
}

#[test]
fn every_viewport_gets_its_repaint_request() {
    let displays = vec![
        DisplaySurface {
            id: 1,
            name: "a".to_string(),
            x: 0,
            y: 0,
            scale_bits: 1.0f32.to_bits(),
            is_primary: true,
        },
        DisplaySurface {
            id: 2,
            name: "b".to_string(),
            x: 10,
            y: 0,
            scale_bits: 1.0f32.to_bits(),
            is_primary: false,
        },
    ];
    let mut settings = SettingsRaw::default();
    let topology = resolve_topology(displays, true).unwrap();
    let spinner =
        DreamSpinner::with_dream(topology, build_dream_by_id("fractal_clock", &settings));
    let second = ViewportTarget::Secondary(ViewportIdentity { native_id: 2, ordinal: 0 });
    assert_eq!(
        spinner.repaint_requests(&settings),
        vec![
            (ViewportTarget::Primary, RepaintRequest::AsSoonAsPossible),
            (second, RepaintRequest::NotRequested),
        ]
    );
    settings.set_viewport_mode(ViewportMode::Deferred);
    assert_eq!(
        spinner.repaint_requests(&settings),
        vec![
            (ViewportTarget::Primary, RepaintRequest::AsSoonAsPossible),
            (second, RepaintRequest::AsSoonAsPossible),
        ]
    );
}
