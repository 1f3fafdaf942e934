use ciphercanvas::{ConfigError, ConfigValue, Error, ImageConfig, ImageFormat, LuaAPI};

#[test]
fn defaults() {
    let c = ImageConfig::default();
    assert_eq!(c.size, 512);
    assert_eq!(c.format, "svg");
    assert_eq!(c.foreground, "#ffffff");
    assert_eq!(c.background, "#000000");
    let api = LuaAPI::new();
    assert_eq!(api.get_config().size, 512);
    assert_eq!(api.get_config().format, "svg");
}

#[test]
fn set_size_then_get() {
    let mut api = LuaAPI::new();
    assert_eq!(api.set_config("size", ConfigValue::Integer(1024)), Ok(()));
    assert_eq!(api.get_config().size, 1024);
}

#[test]
fn set_strings() {
    let mut api = LuaAPI::new();
    api.set_config("format", ConfigValue::Text("png".to_string())).unwrap();
    api.set_config("foreground", ConfigValue::Text("#112233".to_string())).unwrap();
    api.set_config("background", ConfigValue::Text("#445566".to_string())).unwrap();
    let c = api.get_config();
    assert_eq!(c.format, "png");
    assert_eq!(c.foreground, "#112233");
    assert_eq!(c.background, "#445566");
    assert_eq!(c.size, 512);
}

#[test]
fn unknown_key_is_an_error() {
    let mut api = LuaAPI::new();
    let r = api.set_config("colour", ConfigValue::Integer(3));
    assert_eq!(r, Err(ConfigError::UnknownKey("colour".to_string())));
    assert_eq!(api.get_config().size, 512);
}

#[test]
fn mismatched_value_is_ignored() {
    let mut api = LuaAPI::new();
    assert_eq!(api.set_config("size", ConfigValue::Text("big".to_string())), Ok(()));
    assert_eq!(api.set_config("format", ConfigValue::Integer(7)), Ok(()));
    assert_eq!(api.set_config("background", ConfigValue::Other), Ok(()));
    let c = api.get_config();
    assert_eq!(c.size, 512);
    assert_eq!(c.format, "svg");
    assert_eq!(c.background, "#000000");
}

#[test]
fn size_is_truncated_to_32_bits() {
    let mut api = LuaAPI::new();
    api.set_config("size", ConfigValue::Integer(-1)).unwrap();
    assert_eq!(api.get_config().size, u32::MAX);
    api.set_config("size", ConfigValue::Integer((1i64 << 32) + 5)).unwrap();
    assert_eq!(api.get_config().size, 5);
}

#[test]
fn save_started_before_a_change_keeps_its_snapshot() {
    let mut api = LuaAPI::new();
    let job = api.begin_save("wifi.out".to_string(), "<svg/>".to_string());
    api.set_config("size", ConfigValue::Integer(1024)).unwrap();
    api.set_config("format", ConfigValue::Text("png".to_string())).unwrap();
    assert_eq!(api.get_config().size, 1024);
    assert_eq!(job.config.size, 512);
    let plan = job.plan().unwrap();
    assert_eq!(plan.size, 512);
    assert_eq!(plan.format, ImageFormat::Svg);
    assert_eq!(plan.destination, Some("wifi.svg".to_string()));
}

#[test]
fn save_after_a_change_sees_it() {
    let mut api = LuaAPI::new();
    api.set_config("size", ConfigValue::Integer(1024)).unwrap();
    api.set_config("format", ConfigValue::Text("png".to_string())).unwrap();
    let job = api.begin_save("wifi".to_string(), "<svg/>".to_string());
    let plan = job.plan().unwrap();
    assert_eq!(plan.size, 1024);
    assert_eq!(plan.format, ImageFormat::Png);
    assert_eq!(plan.destination, Some("wifi.png".to_string()));
}

#[test]
fn save_with_unknown_format_fails() {
    let mut api = LuaAPI::new();
    api.set_config("format", ConfigValue::Text("gif".to_string())).unwrap();
    let job = api.begin_save("wifi".to_string(), "<svg/>".to_string());
    assert_eq!(job.plan().unwrap_err(), Error::UnsupportedFormat("gif".to_string()));
}
