use settings_shell::settings::{load_settings, save_settings, SettingsInput, StoreModel};
use settings_shell::value::JsonValue;

#[test]
fn load_empty_store_returns_defaults() {
    let store = StoreModel::empty();
    let record = load_settings(&store);
    assert_eq!(record.proxy, "");
    assert_eq!(record.theme, "light");
    assert!(!record.autolaunch);
}

#[test]
fn load_defaults_each_ill_typed_field() {
    let store = StoreModel {
        proxy: Some(JsonValue::Bool(true)),
        theme: Some(JsonValue::Int(3)),
        autolaunch: Some(JsonValue::Str("yes".to_string())),
    };
    let record = load_settings(&store);
    assert_eq!(record.proxy, "");
    assert_eq!(record.theme, "light");
    assert!(!record.autolaunch);
}

#[test]
fn load_reads_well_typed_fields() {
    let store = StoreModel {
        proxy: Some(JsonValue::Str("127.0.0.1:3128".to_string())),
        theme: Some(JsonValue::Str("dark".to_string())),
        autolaunch: Some(JsonValue::Bool(true)),
    };
    let record = load_settings(&store);
    assert_eq!(record.proxy, "127.0.0.1:3128");
    assert_eq!(record.theme, "dark");
    assert!(record.autolaunch);
}

#[test]
fn save_proxy_then_load_keeps_other_fields() {
    let mut store = StoreModel {
        proxy: None,
        theme: Some(JsonValue::Str("dark".to_string())),
        autolaunch: Some(JsonValue::Bool(true)),
    };
    let before = load_settings(&store);
    save_settings(
        &mut store,
        SettingsInput {
            proxy: Some(JsonValue::Str("1.2.3.4:8080".to_string())),
            theme: None,
            autolaunch: None,
        },
    );
    let after = load_settings(&store);
    assert_eq!(after.proxy, "1.2.3.4:8080");
    assert_eq!(after.theme, before.theme);
    assert_eq!(after.autolaunch, before.autolaunch);
}

#[test]
fn save_ill_typed_theme_leaves_stored_theme_unchanged() {
    let mut store = StoreModel {
        proxy: None,
        theme: Some(JsonValue::Str("dark".to_string())),
        autolaunch: None,
    };
    save_settings(
        &mut store,
        SettingsInput {
            proxy: None,
            theme: Some(JsonValue::Int(5)),
            autolaunch: None,
        },
    );
    assert_eq!(store.theme, Some(JsonValue::Str("dark".to_string())));
    assert_eq!(load_settings(&store).theme, "dark");
}

#[test]
fn save_ignores_every_ill_typed_field() {
    let stored = StoreModel {
        proxy: Some(JsonValue::Str("10.0.0.1:80".to_string())),
        theme: Some(JsonValue::Str("dark".to_string())),
        autolaunch: Some(JsonValue::Bool(true)),
    };
    let mut store = stored.clone();
    save_settings(
        &mut store,
        SettingsInput {
            proxy: Some(JsonValue::Bool(false)),
            theme: Some(JsonValue::Null),
            autolaunch: Some(JsonValue::Str("no".to_string())),
        },
    );
    assert_eq!(store, stored);
}

#[test]
fn save_empty_input_changes_nothing() {
    let stored = StoreModel {
        proxy: Some(JsonValue::Str("10.0.0.1:80".to_string())),
        theme: None,
        autolaunch: Some(JsonValue::Bool(false)),
    };
    let mut store = stored.clone();
    save_settings(
        &mut store,
        SettingsInput { proxy: None, theme: None, autolaunch: None },
    );
    assert_eq!(store, stored);
}

#[test]
fn save_accepts_empty_proxy_string() {
    let mut store = StoreModel {
        proxy: Some(JsonValue::Str("1.2.3.4:8080".to_string())),
        theme: None,
        autolaunch: None,
    };
    save_settings(
        &mut store,
        SettingsInput {
            proxy: Some(JsonValue::Str(String::new())),
            theme: None,
            autolaunch: None,
        },
    );
    assert_eq!(load_settings(&store).proxy, "");
}

#[test]
fn save_load_round_trip_is_idempotent() {
    let mut store = StoreModel {
        proxy: Some(JsonValue::Str("proxy.local:8118".to_string())),
        theme: Some(JsonValue::Int(9)),
        autolaunch: Some(JsonValue::Bool(true)),
    };
    let first = load_settings(&store);
    save_settings(&mut store, first.to_input());
    let second = load_settings(&store);
    assert_eq!(second, first);
}

#[test]
fn save_load_round_trip_is_idempotent_on_empty_store() {
    let mut store = StoreModel::empty();
    let first = load_settings(&store);
    save_settings(&mut store, first.to_input());
    let second = load_settings(&store);
    assert_eq!(second, first);
}

#[test]
fn full_record_input_overwrites_all_three_keys() {
    let mut store = StoreModel {
        proxy: Some(JsonValue::Null),
        theme: Some(JsonValue::Str("dark".to_string())),
        autolaunch: None,
    };
    let record = load_settings(&store);
    save_settings(&mut store, record.to_input());
    assert_eq!(store.proxy, Some(JsonValue::Str(String::new())));
    assert_eq!(store.theme, Some(JsonValue::Str("dark".to_string())));
    assert_eq!(store.autolaunch, Some(JsonValue::Bool(false)));
}
