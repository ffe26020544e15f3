use stremio_core_shell::text::trim;
use stremio_core_shell::config::{join_path, Config, InstanceConfig, ServerConfig, TrayConfig, WebViewConfig};
use stremio_core_shell::handler::{handler_data, is_handler};
use stremio_core_shell::property::{MpvProperty, MpvPropertyValue, UntypedValue};
use stremio_core_shell::types::Viewport;
use stremio_core_shell::wire::{wire_text, WireValue};

#[test]
fn path_joining() {
    assert_eq!(join_path("/run/user/1000", "tray"), "/run/user/1000/tray");
    assert_eq!(join_path("/data/", "server.js"), "/data/server.js");
    assert_eq!(join_path("", "log"), "log");
}

#[test]
fn config_paths() {
    let c = Config::new("/d", "/r");
    assert_eq!(c.instance.socket_file, "/r/stremio.sock");
    assert_eq!(c.server.file, "/d/server.js");
    assert_eq!(c.server.version_file, "/d/server_version");
    assert_eq!(c.webview.cache_dir, "/d/cef/cache");
    assert_eq!(c.webview.log_file, "/d/cef/log");
    assert_eq!(c.webview.lock_file, "/d/cef/cache/SingletonLock");
    assert_eq!(c.tray.icon_path, "/r/tray");
    assert_eq!(InstanceConfig::new("/x").socket_file, "/x/stremio.sock");
    assert_eq!(ServerConfig::new("/x").file, "/x/server.js");
    assert_eq!(WebViewConfig::new("/x").lock_file, "/x/cef/cache/SingletonLock");
    assert_eq!(TrayConfig::new("/x").icon_path, "/x/tray");
}

#[test]
fn viewport_default() {
    let v = Viewport::default();
    assert_eq!((v.width, v.height, v.scale_factor), (1700, 1004, 1));
}

#[test]
fn handler_matching() {
    assert!(is_handler(Some("ipc"), "ipc"));
    assert!(!is_handler(Some("ipcx"), "ipc"));
    assert!(!is_handler(None, "ipc"));
    let args = vec![Some("hello".to_string()), None];
    assert_eq!(handler_data(Some(&args[..])), Some("hello".to_string()));
    let args: Vec<Option<String>> = vec![None];
    assert_eq!(handler_data(Some(&args[..])), None);
    let args: Vec<Option<String>> = vec![];
    assert_eq!(handler_data(Some(&args[..])), None);
    assert_eq!(handler_data(None), None);
}

#[test]
fn wire_embeds_json_text() {
    let v = MpvPropertyValue::String("{\"a\":[1,2]}".to_string());
    assert!(matches!(v.wire(), WireValue::Json(s) if s == "{\"a\":[1,2]}"));
    let v = MpvPropertyValue::String("fast".to_string());
    assert!(matches!(v.wire(), WireValue::Text(s) if s == "fast"));
    assert!(matches!(wire_text("x".to_string(), true), WireValue::Json(_)));
    assert!(matches!(wire_text("x".to_string(), false), WireValue::Text(_)));
}

#[test]
fn wire_data_only_for_typed_values() {
    let p = MpvProperty("pause".to_string(), Some(UntypedValue::Bool(true)));
    assert!(matches!(p.wire_data(), Some(WireValue::Bool(true))));
    let p = MpvProperty("speed".to_string(), Some(UntypedValue::Number(2.0f64.to_bits())));
    assert!(matches!(p.wire_data(), Some(WireValue::Number(b)) if f64::from_bits(b) == 2.0));
    let p = MpvProperty("speed".to_string(), Some(UntypedValue::Bool(true)));
    assert!(p.wire_data().is_none());
    let p = MpvProperty("track-list".to_string(), Some(UntypedValue::String("[]".to_string())));
    assert!(matches!(p.wire_data(), Some(WireValue::Json(_))));
}

#[test]
fn trimming_white_space() {

    assert_eq!(trim("  app-ready \t\n"), "app-ready");
    assert_eq!(trim("\u{a0}\u{3000}x y\u{2029}\u{85}"), "x y");
    assert_eq!(trim("   "), "");
    assert_eq!(trim(""), "");
    assert_eq!(trim("\u{200b}a"), "\u{200b}a");
    for s in ["\u{1680} a \u{205f}", "\u{2000}\u{200a}b\u{202f}", "\u{b}\u{c}\r"] {
        assert_eq!(trim(s), s.trim());
    }
}
