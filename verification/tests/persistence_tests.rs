use dream_spinner::app_settings::{SettingsRaw, ViewportMode};
use dream_spinner::color::Color;
use dream_spinner::color_scheme::ColorScheme;
use dream_spinner::dreams::solid_color::SolidColorDream;
use dream_spinner::dreams::Dream;
use dream_spinner::ordered::{BlobMap, IdSet};
use toml::{Table, Value};

fn color_value(color: Color) -> Value {
    Value::Array(vec![
        Value::Integer(color.r as i64),
        Value::Integer(color.g as i64),
        Value::Integer(color.b as i64),
        Value::Integer(color.a as i64),
    ])
}

fn color_of(value: &Value) -> Color {
    let channels = value.as_array().unwrap();
    let channel = |i: usize| channels[i].as_integer().unwrap() as u8;
    Color::new_with_alpha(channel(0), channel(1), channel(2), channel(3))
}

fn to_table(settings: &SettingsRaw) -> Table {
    let mut blobs = Table::new();
    let map = settings.dream_settings();
    for i in 0..map.len() {
        blobs.insert(map.key_at(i).clone(), Value::String(map.value_at(i).clone()));
    }
    let set = settings.selected_dreams();
    let selected = (0..set.len()).map(|i| Value::String(set.get(i).clone())).collect();
    let scheme = settings.color_scheme();
    let mut colors = Table::new();
    colors.insert(
        "colors".to_string(),
        Value::Array(scheme.colors.iter().map(|c| color_value(*c)).collect()),
    );
    colors.insert("name".to_string(), Value::String(scheme.name.clone()));
    colors.insert("foreground".to_string(), color_value(scheme.foreground));
    colors.insert("background".to_string(), color_value(scheme.background));
    colors.insert("cursor".to_string(), color_value(scheme.cursor));
    let mut table = Table::new();
    table.insert("dream_settings".to_string(), Value::Table(blobs));
    table.insert("attempt_multiscreen".to_string(), Value::Boolean(settings.attempt_multiscreen()));
    table.insert("show_fps".to_string(), Value::Boolean(settings.show_fps()));
    table.insert("selected_dreams".to_string(), Value::Array(selected));
    table.insert("viewport_mode".to_string(), Value::String(settings.viewport_mode().to_string()));
    table.insert("allow_dev_dreams".to_string(), Value::Boolean(settings.allow_dev_dreams()));
    table.insert("color_scheme".to_string(), Value::Table(colors));
    table
}

fn from_table(table: &Table) -> SettingsRaw {
    let mut blobs = BlobMap::new();
    for (id, blob) in table["dream_settings"].as_table().unwrap() {
        blobs.insert(id, blob.as_str().unwrap().to_string());
    }
    let mut selected = IdSet::new();
    for id in table["selected_dreams"].as_array().unwrap() {
        selected.insert(id.as_str().unwrap());
    }
    let mode = match table["viewport_mode"].as_str().unwrap() {
        "Immediate" => ViewportMode::Immediate,
        "Deferred" => ViewportMode::Deferred,
        other => panic!("{} is no mode", other),
    };
    let colors = table["color_scheme"].as_table().unwrap();
    let mut scheme = ColorScheme::default();
    for (i, value) in colors["colors"].as_array().unwrap().iter().enumerate() {
        scheme.colors[i] = color_of(value);
    }
    scheme.name = colors["name"].as_str().unwrap().to_string();
    scheme.foreground = color_of(&colors["foreground"]);
    scheme.background = color_of(&colors["background"]);
    scheme.cursor = color_of(&colors["cursor"]);
    SettingsRaw::from_parts(
        blobs,
        table["attempt_multiscreen"].as_bool().unwrap(),
        table["show_fps"].as_bool().unwrap(),
        selected,
        mode,
        table["allow_dev_dreams"].as_bool().unwrap(),
        scheme,
    )
    .unwrap()
}

fn samples() -> Vec<SettingsRaw> {
    let mut samples = vec![SettingsRaw::default()];
    let mut busy = SettingsRaw::default();
    busy.set_attempt_multiscreen(true);
    busy.set_show_fps(true);
    busy.set_allow_dev_dreams(true);
    busy.set_viewport_mode(ViewportMode::Deferred);
    busy.set_dream_selected("solid_color", true);
    busy.set_dream_selected("monet", true);
    busy.set_dream_selected("a dream of \"tomorrow\"", true);
    busy.set_dream_selected("fractal_clock", false);
    busy.store_dream_settings("solid_color", "color = [99, 81, 71, 255]\n".to_string());
    busy.store_dream_settings("fractal_clock", "zoom = 0.25\ndepth = 9\n".to_string());
    busy.store_dream_settings("monet", String::new());
    busy.store_dream_settings("späte träume", "line one\nline \"two\"\t\\ end".to_string());
    let mut scheme = ColorScheme::default();
    scheme.name = "Dusk \u{1F319}".to_string();
    for (i, color) in scheme.colors.iter_mut().enumerate() {
        *color = Color::new_with_alpha(i as u8, (i * 16) as u8, 255 - i as u8, (i * 17) as u8);
    }
    scheme.cursor = Color::new(1, 2, 3);
    busy.set_color_scheme(scheme);
    samples.push(busy);
    samples
}

#[test]
fn settings_survive_their_written_form() {
    for settings in samples() {
        let text = toml::to_string(&to_table(&settings)).unwrap();
        let read = from_table(&text.parse::<Table>().unwrap());
        assert!(read.same_as(&settings));
        let again = toml::to_string(&to_table(&read)).unwrap();
        assert_eq!(again, text);
    }
}

#[test]
fn a_dream_finds_its_state_in_settings_that_were_written_and_read() {
    let mut settings = SettingsRaw::default();
    let mut dream = SolidColorDream::new(&settings);
    dream.configure("color = [1, 2, 3, 4]\n".to_string());
    dream.store(&mut settings);
    let text = toml::to_string(&to_table(&settings)).unwrap();
    let read = from_table(&text.parse::<Table>().unwrap());
    assert_eq!(SolidColorDream::new(&read).settings(), dream.settings());
}
