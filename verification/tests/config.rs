use nuttty::args::apply_spec;
use nuttty::config::{parse_config, Config};

fn base() -> Config {
    Config {
        ups: None,
        host: "localhost".into(),
        port: 3493,
        user: None,
        pass: None,
        interval_ms: 2000,
        once: false,
        basic: false,
    }
}

#[test]
fn config_full_and_comments() {
    let mut cfg = base();
    let text = "\
# leading comment
ups = \"myups\"
host = nut-server
port = 3494 # inline comment
user = \"admin\"
password = \"se#ret\"
interval = 1500

";
    assert!(parse_config(text, "test", &mut cfg).is_ok());
    assert_eq!(cfg.ups.as_deref(), Some("myups"));
    assert_eq!(cfg.host, "nut-server");
    assert_eq!(cfg.port, 3494);
    assert_eq!(cfg.user.as_deref(), Some("admin"));
    // '#' inside a quoted value is literal, not a comment.
    assert_eq!(cfg.pass.as_deref(), Some("se#ret"));
    assert_eq!(cfg.interval_ms, 1500);
}

#[test]
fn config_rejects_unknown_key_and_bad_values() {
    let mut cfg = base();
    let err = parse_config("bogus = 1", "test", &mut cfg).err().unwrap();
    assert!(err.to_string().contains("unknown key 'bogus'"));
    let err = parse_config("port = zap", "test", &mut cfg).err().unwrap();
    assert!(err.to_string().contains("bad port"));
    let err = parse_config("just words", "test", &mut cfg).err().unwrap();
    assert!(err.to_string().contains("expected `key = value`"));
}

#[test]
fn spec_variants() {
    let mut cfg = base();
    assert!(apply_spec(&mut cfg, "myups").is_ok());
    assert_eq!(cfg.ups.as_deref(), Some("myups"));
    assert_eq!((cfg.host.as_str(), cfg.port), ("localhost", 3493));

    let mut cfg = base();
    assert!(apply_spec(&mut cfg, "myups@server").is_ok());
    assert_eq!(cfg.ups.as_deref(), Some("myups"));
    assert_eq!((cfg.host.as_str(), cfg.port), ("server", 3493));

    let mut cfg = base();
    assert!(apply_spec(&mut cfg, "myups@server:1234").is_ok());
    assert_eq!((cfg.host.as_str(), cfg.port), ("server", 1234));

    // Host-only: keep the UPS unset so the first server UPS is used.
    let mut cfg = base();
    assert!(apply_spec(&mut cfg, "@server").is_ok());
    assert_eq!(cfg.ups, None);
    assert_eq!(cfg.host, "server");

    let mut cfg = base();
    assert!(apply_spec(&mut cfg, "u@h:notaport").is_err());
}
