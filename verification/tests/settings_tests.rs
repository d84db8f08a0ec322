use dream_spinner::app_settings::{
    determine_settings_path, SettingsError, SettingsLocation, SettingsRaw, ViewportMode,
    SETTINGS_FILE_NAME,
};
use dream_spinner::color::Color;
use dream_spinner::color_scheme::ColorScheme;
use dream_spinner::ordered::{BlobMap, IdSet};

fn members(set: &IdSet) -> Vec<String> {
    (0..set.len()).map(|i| set.get(i).clone()).collect()
}

fn entries(map: &BlobMap) -> Vec<(String, String)> {
    (0..map.len()).map(|i| (map.key_at(i).clone(), map.value_at(i).clone())).collect()
}

fn strings(items: &[&str]) -> Vec<String> {
    items.iter().map(|s| s.to_string()).collect()
}

#[test]
fn id_set_keeps_its_members_in_order_and_once() {
    let mut set = IdSet::new();
    assert_eq!(set.len(), 0);
    assert!(set.insert("monet"));
    assert!(set.insert("fractal_clock"));
    assert!(set.insert("solid_color"));
    assert!(!set.insert("monet"));
    assert!(set.insert("a"));
    assert_eq!(members(&set), strings(&["a", "fractal_clock", "monet", "solid_color"]));
    assert!(set.contains("monet"));
    assert!(!set.contains("mone"));
    assert!(!set.contains(""));
    assert!(set.remove("fractal_clock"));
    assert!(!set.remove("fractal_clock"));
    assert!(!set.remove("zzz"));
    assert_eq!(members(&set), strings(&["a", "monet", "solid_color"]));
}

#[test]
fn id_set_orders_as_a_sorted_vector_does() {
    let words = ["pear", "Apple", "fig", "", "éclair", "zebra", "fig", "apple", "10", "9"];
    let mut set = IdSet::new();
    for w in words {
        set.insert(w);
    }
    let mut want: Vec<String> = strings(&words);
    want.sort();
    want.dedup();
    assert_eq!(members(&set), want);
}

#[test]
fn id_sets_are_compared_and_copied() {
    let mut a = IdSet::new();
    a.insert("x");
    a.insert("y");
    let mut b = IdSet::new();
    b.insert("y");
    assert!(!a.same_as(&b));
    b.insert("x");
    assert!(a.same_as(&b));
    let c = a.duplicate();
    assert!(c.same_as(&a));
    a.remove("x");
    assert!(!c.same_as(&a));
}

#[test]
fn blob_map_holds_one_text_per_key() {
    let mut map = BlobMap::new();
    assert_eq!(map.len(), 0);
    assert_eq!(map.get("monet"), None);
    assert_eq!(map.insert("monet", "a = 1".to_string()), None);
    assert_eq!(map.insert("fractal_clock", "zoom = 0.25".to_string()), None);
    assert_eq!(map.insert("monet", "a = 2".to_string()), Some("a = 1".to_string()));
    assert_eq!(map.get("monet"), Some(&"a = 2".to_string()));
    assert_eq!(map.get("fractal_clock"), Some(&"zoom = 0.25".to_string()));
    assert_eq!(map.get("solid_color"), None);
    assert_eq!(
        entries(&map),
        vec![
            ("fractal_clock".to_string(), "zoom = 0.25".to_string()),
            ("monet".to_string(), "a = 2".to_string()),
        ]
    );
}

#[test]
fn blob_maps_are_compared_and_copied() {
    let mut a = BlobMap::new();
    a.insert("k", "v".to_string());
    a.insert("j", "w".to_string());
    let mut b = BlobMap::new();
    b.insert("j", "w".to_string());
    assert!(!a.same_as(&b));
    b.insert("k", "other".to_string());
    assert!(!a.same_as(&b));
    b.insert("k", "v".to_string());
    assert!(a.same_as(&b));
    let c = a.duplicate();
    assert!(c.same_as(&a));
    assert_eq!(entries(&c), entries(&a));
}

#[test]
fn default_settings() {
    let settings = SettingsRaw::default();
    assert_eq!(entries(settings.dream_settings()), Vec::new());
    assert!(!settings.attempt_multiscreen());
    assert!(!settings.show_fps());
    assert_eq!(members(settings.selected_dreams()), strings(&["fractal_clock"]));
    assert_eq!(settings.viewport_mode(), ViewportMode::Immediate);
    assert!(!settings.allow_dev_dreams());
    assert!(settings.color_scheme().same_as(&ColorScheme::default()));
    let scheme = settings.color_scheme();
    assert_eq!(scheme.name, "None");
    assert_eq!(scheme.colors, [Color::new(0, 0, 0); 16]);
    assert_eq!(scheme.foreground, Color::new(200, 200, 200));
    assert_eq!(scheme.background, Color::new(0, 0, 0));
    assert_eq!(scheme.cursor, Color::new(0, 200, 200));
}

#[test]
fn the_last_selected_dream_cannot_be_deselected() {
    let mut settings = SettingsRaw::default();
    let before = settings.duplicate();
    settings.set_dream_selected("fractal_clock", false);
    assert_eq!(members(settings.selected_dreams()), strings(&["fractal_clock"]));
    assert!(settings.same_as(&before));
    // Deselecting a dream that is not selected changes nothing either.
    settings.set_dream_selected("monet", false);
    assert!(settings.same_as(&before));
}

#[test]
fn dreams_are_selected_and_deselected() {
    let mut settings = SettingsRaw::default();
    settings.set_dream_selected("solid_color", true);
    assert_eq!(members(settings.selected_dreams()), strings(&["fractal_clock", "solid_color"]));
    settings.set_dream_selected("solid_color", true);
    assert_eq!(members(settings.selected_dreams()), strings(&["fractal_clock", "solid_color"]));
    settings.set_dream_selected("monet", false);
    assert_eq!(members(settings.selected_dreams()), strings(&["fractal_clock", "solid_color"]));
    settings.set_dream_selected("fractal_clock", false);
    assert_eq!(members(settings.selected_dreams()), strings(&["solid_color"]));
    settings.set_dream_selected("solid_color", false);
    assert_eq!(members(settings.selected_dreams()), strings(&["solid_color"]));
}

#[test]
fn selection_is_never_empty_whatever_is_done() {
    let ids = ["fractal_clock", "monet", "solid_color", "unknown"];
    let mut settings = SettingsRaw::default();
    let mut v: u32 = 7;
    for _ in 0..2000 {
        v = v.wrapping_mul(1_664_525).wrapping_add(1_013_904_223);
        let id = ids[(v >> 8) as usize % ids.len()];
        let active = (v >> 20) & 3 == 0;
        settings.set_dream_selected(id, active);
        assert!(settings.selected_dreams().len() >= 1);
    }
}

#[test]
fn flags_are_set() {
    let mut settings = SettingsRaw::default();
    settings.set_show_fps(true);
    settings.set_attempt_multiscreen(true);
    settings.set_viewport_mode(ViewportMode::Deferred);
    settings.set_allow_dev_dreams(true);
    let mut scheme = ColorScheme::default();
    scheme.name = "Mine".to_string();
    scheme.cursor = Color::new(1, 2, 3);
    settings.set_color_scheme(scheme.duplicate());
    assert!(settings.show_fps());
    assert!(settings.attempt_multiscreen());
    assert_eq!(settings.viewport_mode(), ViewportMode::Deferred);
    assert!(settings.allow_dev_dreams());
    assert!(settings.color_scheme().same_as(&scheme));
    assert_eq!(members(settings.selected_dreams()), strings(&["fractal_clock"]));
}

#[test]
fn settings_differ_in_every_part() {
    let base = SettingsRaw::default();
    assert!(base.same_as(&SettingsRaw::default()));
    assert!(base.duplicate().same_as(&base));

    let mut s = base.duplicate();
    s.set_show_fps(true);
    assert!(!s.same_as(&base));
    let mut s = base.duplicate();
    s.set_attempt_multiscreen(true);
    assert!(!s.same_as(&base));
    let mut s = base.duplicate();
    s.set_viewport_mode(ViewportMode::Deferred);
    assert!(!s.same_as(&base));
    let mut s = base.duplicate();
    s.set_allow_dev_dreams(true);
    assert!(!s.same_as(&base));
    let mut s = base.duplicate();
    s.set_dream_selected("monet", true);
    assert!(!s.same_as(&base));
    s.set_dream_selected("monet", false);
    assert!(s.same_as(&base));
    let mut s = base.duplicate();
    s.store_dream_settings("monet", String::new());
    assert!(!s.same_as(&base));
    let mut s = base.duplicate();
    let mut scheme = ColorScheme::default();
    scheme.colors[15] = Color::new(9, 9, 9);
    s.set_color_scheme(scheme);
    assert!(!s.same_as(&base));
}

#[test]
fn dream_settings_are_stored_and_found() {
    let mut settings = SettingsRaw::default();
    assert_eq!(settings.stored_dream_settings("solid_color"), "");
    settings.store_dream_settings("solid_color", "color = [1, 2, 3, 255]\n".to_string());
    assert_eq!(settings.stored_dream_settings("solid_color"), "color = [1, 2, 3, 255]\n");
    assert_eq!(settings.stored_dream_settings("monet"), "");
    settings.store_dream_settings("solid_color", "color = [0, 0, 0, 255]\n".to_string());
    assert_eq!(settings.stored_dream_settings("solid_color"), "color = [0, 0, 0, 255]\n");
    assert_eq!(settings.dream_settings().len(), 1);
}

#[test]
fn settings_from_parts() {
    let mut blobs = BlobMap::new();
    blobs.insert("monet", "x".to_string());
    let mut selected = IdSet::new();
    selected.insert("monet");
    selected.insert("later_dream");
    let settings = SettingsRaw::from_parts(
        blobs,
        true,
        false,
        selected,
        ViewportMode::Deferred,
        true,
        ColorScheme::default(),
    )
    .unwrap();
    assert!(settings.attempt_multiscreen());
    assert!(!settings.show_fps());
    assert!(settings.allow_dev_dreams());
    assert_eq!(settings.viewport_mode(), ViewportMode::Deferred);
    assert_eq!(members(settings.selected_dreams()), strings(&["later_dream", "monet"]));
    assert_eq!(settings.stored_dream_settings("monet"), "x");
}

#[test]
fn settings_without_a_selected_dream_are_refused() {
    let settings = SettingsRaw::from_parts(
        BlobMap::new(),
        false,
        false,
        IdSet::new(),
        ViewportMode::Immediate,
        false,
        ColorScheme::default(),
    );
    assert_eq!(settings.err(), Some(SettingsError::EmptySelection));
    assert_eq!(SettingsError::EmptySelection.message(), "No dream is selected");
}

#[test]
fn the_settings_file_beside_the_executable_has_precedence() {
    for user in [None, Some(true), Some(false)] {
        assert_eq!(determine_settings_path(true, user), Ok(SettingsLocation::BesideExecutable));
    }
    assert_eq!(determine_settings_path(false, Some(true)), Ok(SettingsLocation::UserDirectory));
    assert_eq!(
        determine_settings_path(false, Some(false)),
        Ok(SettingsLocation::NewInUserDirectory)
    );
    assert_eq!(determine_settings_path(false, None), Err(SettingsError::NoUserDirectory));
    assert_eq!(
        SettingsError::NoUserDirectory.message(),
        "Can not detect settings directory in user folder"
    );
    assert_eq!(SETTINGS_FILE_NAME, "dream_settings.toml");
}

#[test]
fn viewport_modes_have_names() {
    assert_eq!(ViewportMode::Immediate.to_string(), "Immediate");
    assert_eq!(ViewportMode::Deferred.to_string(), "Deferred");
    assert_eq!(ViewportMode::default(), ViewportMode::Immediate);
}
