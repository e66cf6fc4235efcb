use nuttty::args::{
    apply_args, apply_spec, config_base, first_ups, listing_line, parse_args, poll_interval_ms,
    ArgError, ConfigBase, ConfigFile, Invocation, StartError,
};
use nuttty::config::{apply_environment, parse_config, Config, Environment, Problem};

fn strings(all: &[&str]) -> Vec<String> {
    all.iter().map(|s| s.to_string()).collect()
}

fn no_env() -> Environment {
    Environment {
        own_user: None,
        nut_user: None,
        own_pass: None,
        nut_pass: None,
    }
}

fn run(args: &[&str]) -> Config {
    match apply_args(Config::default(), &strings(args)) {
        Ok(Invocation::Run(cfg)) => cfg,
        _ => panic!("no run"),
    }
}

fn wrong(args: &[&str]) -> ArgError {
    match apply_args(Config::default(), &strings(args)) {
        Err(e) => e,
        Ok(_) => panic!("no error"),
    }
}

fn file(contents: &str) -> Option<ConfigFile> {
    Some(ConfigFile {
        origin: "cfg".to_string(),
        contents: contents.to_string(),
    })
}

#[test]
fn default_settings() {
    let cfg = Config::default();
    assert_eq!((cfg.host.as_str(), cfg.port, cfg.interval_ms), ("localhost", 3493, 2000));
    assert!(cfg.ups.is_none() && cfg.user.is_none() && cfg.pass.is_none());
    assert!(!cfg.once && !cfg.basic);
}

#[test]
fn options_set_what_they_name() {
    let cfg = run(&[
        "--user", "u", "--password", "-p", "--interval", "+500", "-b", "--once", "ups@h:99",
    ]);
    assert_eq!(cfg.user.as_deref(), Some("u"));
    assert_eq!(cfg.pass.as_deref(), Some("-p"));
    assert_eq!(cfg.interval_ms, 500);
    assert!(cfg.once && cfg.basic);
    assert_eq!((cfg.ups.as_deref(), cfg.host.as_str(), cfg.port), (Some("ups"), "h", 99));
    assert!(run(&["--basic"]).basic);
    // The last of several counts.
    assert_eq!(run(&["--user", "a", "--user", "b"]).user.as_deref(), Some("b"));
    assert_eq!(run(&["one@a:1", "two@b"]).ups.as_deref(), Some("two"));
    assert_eq!(run(&["one@a:1", "two@b"]).port, 1);
    assert_eq!(run(&["one@a:1", "@b"]).ups.as_deref(), Some("one"));
    assert_eq!(run(&[""]).ups, None);
}

#[test]
fn command_line_errors() {
    for option in ["--user", "--password", "--interval"] {
        let e = wrong(&[option]);
        assert!(matches!(&e, ArgError::NeedsValue(o) if o == option));
        assert_eq!(e.to_string(), format!("{option} needs a value"));
    }
    let e = wrong(&["--interval", "soon"]);
    assert!(matches!(&e, ArgError::BadInterval(t) if t == "soon"));
    assert_eq!(e.to_string(), "--interval must be milliseconds");
    let e = wrong(&["u@h:70000"]);
    assert!(matches!(&e, ArgError::BadPort(t) if t == "70000"));
    assert_eq!(e.to_string(), "bad port");
    let e = wrong(&["--frobnicate"]);
    assert!(matches!(&e, ArgError::UnknownOption(t) if t == "--frobnicate"));
    assert_eq!(e.to_string(), "unknown option '--frobnicate', see --help");
    assert_eq!(wrong(&["-"]).to_string(), "unknown option '-', see --help");
}

#[test]
fn help_ends_the_reading() {
    for args in [["-h", "--nonsense"], ["--help", "--user"]] {
        assert!(matches!(
            apply_args(Config::default(), &strings(&args)),
            Ok(Invocation::Help)
        ));
    }
    // As a value it asks for nothing.
    assert_eq!(run(&["--user", "-h"]).user.as_deref(), Some("-h"));
}

#[test]
fn bad_port_keeps_what_came_before_it() {
    let mut cfg = Config::default();
    assert!(apply_spec(&mut cfg, "u@h:x").is_err());
    assert_eq!((cfg.ups.as_deref(), cfg.host.as_str(), cfg.port), (Some("u"), "h", 3493));
}

#[test]
fn configuration_errors_name_file_and_line() {
    let cases = [
        ("host = a\nno value here", "cfg:2: expected `key = value`"),
        ("\n\n port = 99999", "cfg:3: bad port"),
        ("interval = 2s", "cfg:1: interval must be milliseconds"),
        ("colour = blue", "cfg:1: unknown key 'colour'"),
        ("= x", "cfg:1: unknown key ''"),
    ];
    for (contents, message) in cases {
        match parse_args(&file(contents), &no_env(), &strings(&[])) {
            Err(StartError::Config(e)) => {
                assert_eq!(e.to_string(), message);
                assert_eq!(e.origin, "cfg");
            }
            _ => panic!("{contents}"),
        }
    }
    let mut cfg = Config::default();
    let e = parse_config("port=1\nport=zap", "f", &mut cfg).err().unwrap();
    assert!(matches!(&e.problem, Problem::BadPort(t) if t == "zap"));
    assert_eq!((e.line, cfg.port), (2, 1));
}

#[test]
fn configuration_values() {
    let mut cfg = Config::default();
    let contents = "host = \"a # b\" # c\r\n  # note\nuser=plain # c\npassword = \" p \" trailing\nups = \"open # x\n";
    assert!(parse_config(contents, "f", &mut cfg).is_ok());
    assert_eq!(cfg.host, "a # b");
    assert_eq!(cfg.user.as_deref(), Some("plain"));
    assert_eq!(cfg.pass.as_deref(), Some(" p "));
    assert_eq!(cfg.ups.as_deref(), Some("open # x"));
    assert!(parse_config("user =\nups = #only a comment", "f", &mut cfg).is_ok());
    assert_eq!(cfg.user.as_deref(), Some(""));
    assert_eq!(cfg.ups.as_deref(), Some(""));
}

#[test]
fn later_sources_count_more() {
    let contents = "user = filer\npassword = filed\ninterval = 700\nhost = filehost\nups = filed\nport = 9";
    let mut env = no_env();
    env.nut_user = Some("nutter".to_string());
    env.own_pass = Some(String::new());
    let settings = |env: &Environment, args: &[&str]| match parse_args(&file(contents), env, &strings(args)) {
        Ok(Invocation::Run(cfg)) => cfg,
        _ => panic!("no run"),
    };
    let cfg = settings(&no_env(), &[]);
    assert_eq!((cfg.user.as_deref(), cfg.pass.as_deref()), (Some("filer"), Some("filed")));
    assert_eq!((cfg.interval_ms, cfg.host.as_str(), cfg.port), (700, "filehost", 9));
    // An empty variable does not count.
    let cfg = settings(&env, &[]);
    assert_eq!((cfg.user.as_deref(), cfg.pass.as_deref()), (Some("nutter"), Some("filed")));
    env.own_user = Some("own".to_string());
    assert_eq!(settings(&env, &[]).user.as_deref(), Some("own"));
    let cfg = settings(&env, &["--user", "me", "--interval", "1", "dev@there"]);
    assert_eq!((cfg.user.as_deref(), cfg.interval_ms), (Some("me"), 1));
    assert_eq!((cfg.ups.as_deref(), cfg.host.as_str(), cfg.port), (Some("dev"), "there", 9));
    // Without a file the defaults count.
    match parse_args(&None, &env, &strings(&["--oops"])) {
        Err(StartError::Args(e)) => assert_eq!(e.to_string(), "unknown option '--oops', see --help"),
        _ => panic!("no error"),
    }
}

#[test]
fn environment_variables() {
    let mut cfg = Config::default();
    cfg.user = Some("u".to_string());
    let mut env = no_env();
    apply_environment(&mut cfg, &env);
    assert_eq!(cfg.user.as_deref(), Some("u"));
    env.own_user = Some(String::new());
    env.nut_user = Some(String::new());
    apply_environment(&mut cfg, &env);
    assert_eq!(cfg.user.as_deref(), Some("u"));
    env.nut_user = None;
    apply_environment(&mut cfg, &env);
    assert_eq!(cfg.user.as_deref(), Some("u"));
    env.nut_pass = Some("p".to_string());
    apply_environment(&mut cfg, &env);
    assert_eq!(cfg.pass.as_deref(), Some("p"));
}

#[test]
fn small_decisions() {
    assert!(config_base(true, true) == ConfigBase::Xdg);
    assert!(config_base(true, false) == ConfigBase::Xdg);
    assert!(config_base(false, true) == ConfigBase::HomeConfig);
    assert!(config_base(false, false) == ConfigBase::Nowhere);
    let mut cfg = Config::default();
    for (ms, paced) in [(0, 250), (249, 250), (250, 250), (251, 251), (u64::MAX, u64::MAX)] {
        cfg.interval_ms = ms;
        assert_eq!(poll_interval_ms(&cfg), paced);
    }
    assert_eq!(first_ups(&vec![]), None);
    let known = vec![("a".to_string(), "x".to_string()), ("b".to_string(), "y".to_string())];
    assert_eq!(first_ups(&known).as_deref(), Some("a"));
    assert_eq!(listing_line("ups.status", "OL"), "ups.status: OL");
}
