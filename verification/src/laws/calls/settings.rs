//! What the calls that put the settings together promise.

use vstd::prelude::*;

use crate::args;
use crate::args::{ArgError, ConfigBase, ConfigFile, Invocation, Outcome, StartError};
use crate::config;
use crate::config::{Config, ConfigError, Environment};
use crate::laws;
use crate::number;
use crate::text;

verus! {

/// The settings are modelled by their fields, each by its own model.
pub proof fn model_of_the_settings(c: Config)
    ensures
        c@.ups == text::opt_view(c.ups) && c@.host == c.host@ && c@.port == c.port,
        c@.user == text::opt_view(c.user) && c@.pass == text::opt_view(c.pass),
        c@.interval_ms == c.interval_ms && c@.once == c.once && c@.basic == c.basic,
        c.user is None ==> c@.user is None,
        c.user matches Some(u) ==> c@.user == Some(u@),
{
}

/// Polls are a quarter of a second apart, or more where the settings say so.
pub proof fn pacing_polls(cfg: &Config, res: u64)
    requires
        call_ensures(args::poll_interval_ms, (cfg,), res),
    ensures
        res >= 250,
        cfg.interval_ms >= 250 ==> res == cfg.interval_ms,
        cfg.interval_ms < 250 ==> res == 250,
{
}

/// The configuration file is looked for where the environment says with an absolute
/// path, else in the home directory, else nowhere.
pub proof fn choosing_a_directory(absolute: bool, home: bool, res: ConfigBase)
    requires
        call_ensures(args::config_base, (absolute, home), res),
    ensures
        res == ConfigBase::Xdg <==> absolute,
        res == ConfigBase::HomeConfig <==> !absolute && home,
        res == ConfigBase::Nowhere <==> !absolute && !home,
{
}

/// The device is the first that the server knows, if it knows one.
pub proof fn choosing_a_device(known: &Vec<(String, String)>, res: Option<String>)
    requires
        call_ensures(args::first_ups, (known,), res),
    ensures
        known@.len() > 0 ==> res is Some && (res->0)@ == known@[0].0@,
        known@.len() == 0 ==> res is None,
{
}

/// A line of the plain listing is the name, a colon with a space, and the value.
pub proof fn listing_a_variable(name: &str, value: &str, res: String)
    requires
        call_ensures(args::listing_line, (name, value), res),
    ensures
        res@ == name@ + ": "@ + value@,
{
}

/// What is said of a wrong line of the file and of a wrong command line.
pub proof fn telling_what_is_wrong(e: &ConfigError, a: &ArgError, one: String, other: String)
    requires
        call_ensures(ConfigError::to_string, (e,), one),
        call_ensures(ArgError::to_string, (a,), other),
    ensures
        e.problem is NoValue ==> one@ == e.origin@ + ":"@ + number::decimal_of(e.line as nat) + ": "@
            + "expected `key = value`"@,
        e.problem is BadPort ==> one@ == e.origin@ + ":"@ + number::decimal_of(e.line as nat) + ": "@
            + "bad port"@,
        e.problem is BadInterval ==> one@ == e.origin@ + ":"@ + number::decimal_of(e.line as nat)
            + ": "@ + "interval must be milliseconds"@,
        e.problem matches config::Problem::UnknownKey(key) ==> one@ == e.origin@ + ":"@
            + number::decimal_of(e.line as nat) + ": "@ + ("unknown key '"@ + key@ + "'"@),
        a matches ArgError::NeedsValue(option) ==> other@ == option@ + " needs a value"@,
        a is BadInterval ==> other@ == "--interval must be milliseconds"@,
        a is BadPort ==> other@ == "bad port"@,
        a matches ArgError::UnknownOption(option) ==> other@ == "unknown option '"@ + option@
            + "', see --help"@,
{
}

/// Without anything that says otherwise the settings are those of a server on this
/// machine.
pub proof fn settings_by_default(res: Config)
    requires
        call_ensures(Config::default, (), res),
    ensures
        res.host@ == "localhost"@ && res.port == 3493 && res.interval_ms == 2000,
        res.ups is None && res.user is None && res.pass is None && !res.once && !res.basic,
{
    assert(res@.host == res.host@);
}

/// The file is taken over line by line, up to the first that is wrong, which is told
/// with the file's name.
pub proof fn taking_the_file_over(
    contents: &str,
    origin: &str,
    cfg: &mut Config,
    res: Result<(), ConfigError>,
)
    requires
        call_ensures(config::parse_config, (contents, origin, cfg), res),
    ensures
        final(cfg)@ == config::with_file(old(cfg)@, contents@).0,
        res is Ok <==> config::with_file(old(cfg)@, contents@).1 is None,
        res matches Err(e) ==> e.origin@ == origin@ && config::with_file(old(cfg)@, contents@).1
            == Some((e.line as nat, e.problem@)),
{
}

/// The environment gives the user and the password, the program's own variables before
/// the common ones, and nothing else.
pub proof fn taking_the_environment_over(cfg: &mut Config, env: &Environment, a: Seq<char>)
    requires
        call_ensures(config::apply_environment, (cfg, env), ()),
    ensures
        final(cfg)@ == config::with_environment(old(cfg)@, *env),
        text::opt_view(env.own_user) == Some(a) && a.len() > 0 ==> final(cfg)@.user == Some(a),
        text::opt_view(env.own_pass) == Some(a) && a.len() > 0 ==> final(cfg)@.pass == Some(a),
        final(cfg)@.host == old(cfg)@.host && final(cfg)@.port == old(cfg)@.port,
        final(cfg)@.ups == old(cfg)@.ups && final(cfg)@.interval_ms == old(cfg)@.interval_ms,
{
    laws::settings::environment_in_turn(old(cfg)@, *env, a, a);
}

/// An argument `UPS@HOST:PORT` sets the three of them, and one without a port the first
/// two.
pub proof fn taking_a_device_over(
    cfg: &mut Config,
    word: &str,
    ups: Seq<char>,
    host: Seq<char>,
    port: u16,
    res: Result<(), ArgError>,
)
    requires
        call_ensures(args::apply_spec, (cfg, word), res),
        ups.len() > 0,
        !ups.contains('@'),
        !host.contains(':'),
    ensures
        word@ == ups ==> res is Ok && final(cfg)@ == (config::ConfigModel {
            ups: Some(ups),
            ..old(cfg)@
        }),
        word@ == ups + seq!['@'] + host ==> res is Ok && final(cfg)@ == (config::ConfigModel {
            ups: Some(ups),
            host,
            ..old(cfg)@
        }),
        word@ == ups + seq!['@'] + (host + seq![':'] + number::decimal_of(port as nat))
            ==> res is Ok && final(cfg)@ == (config::ConfigModel {
            ups: Some(ups),
            host,
            port,
            ..old(cfg)@
        }),
        final(cfg)@ == args::with_spec(old(cfg)@, word@).0,
        res is Ok <==> args::with_spec(old(cfg)@, word@).1 is None,
{
    let p = number::decimal_of(port as nat);
    laws::text::split_takes_apart(ups, '@', host);
    laws::text::split_takes_apart(ups, '@', host + seq![':'] + p);
    laws::text::split_takes_apart(host, ':', p);
    number::decimal_reads_back(port as nat, 65535);
}

/// The arguments are taken one by one, over settings that come from the file and the
/// environment: what they ask for is what becomes of them there. A wrong file counts
/// before everything else.
pub proof fn putting_the_settings_together(
    file: &Option<ConfigFile>,
    env: &Environment,
    words: &Vec<String>,
    settings: Config,
    alone: Result<Invocation, ArgError>,
    all: Result<Invocation, StartError>,
)
    requires
        call_ensures(args::apply_args, (settings, words), alone),
        call_ensures(args::parse_args, (file, env, words), all),
    ensures
        match args::with_args(settings@, text::strings_view(words@)) {
            Outcome::Help => alone matches Ok(Invocation::Help),
            Outcome::Run(cfg) => alone matches Ok(Invocation::Run(c)) && c@ == cfg,
            Outcome::Wrong(problem) => alone matches Err(e) && e@ == problem,
        },
        match args::from_file(*file).1 {
            Some((line, problem)) => all matches Err(StartError::Config(e)) && e.line == line
                && e.problem@ == problem && (
            file matches Some(f) && e.origin@ == f.origin@),
            None => match args::with_args(
                config::with_environment(args::from_file(*file).0, *env),
                text::strings_view(words@),
            ) {
                Outcome::Help => all matches Ok(Invocation::Help),
                Outcome::Run(cfg) => all matches Ok(Invocation::Run(c)) && c@ == cfg,
                Outcome::Wrong(problem) => all matches Err(StartError::Args(e)) && e@ == problem,
            },
        },
{
}

} // verus!
