//! The command line, and the order in which the sources of settings count.

use vstd::prelude::*;

use crate::config;
use crate::config::{Config, ConfigError, ConfigModel, Environment};
use crate::number;
use crate::text;

verus! {

/// What is wrong with the command line.
pub enum ArgError {
    /// This option came without a value.
    NeedsValue(String),
    /// This is no number of milliseconds.
    BadInterval(String),
    /// This is no port.
    BadPort(String),
    /// This is no option.
    UnknownOption(String),
}

/// An [`ArgError`], its text taken by its characters.
pub enum ArgProblem {
    NeedsValue(Seq<char>),
    BadInterval(Seq<char>),
    BadPort(Seq<char>),
    UnknownOption(Seq<char>),
}

impl View for ArgError {
    type V = ArgProblem;

    open spec fn view(&self) -> ArgProblem {
        match *self {
            ArgError::NeedsValue(s) => ArgProblem::NeedsValue(s@),
            ArgError::BadInterval(s) => ArgProblem::BadInterval(s@),
            ArgError::BadPort(s) => ArgProblem::BadPort(s@),
            ArgError::UnknownOption(s) => ArgProblem::UnknownOption(s@),
        }
    }
}

/// What is said of a problem with the command line.
pub open spec fn said(problem: ArgProblem) -> Seq<char> {
    match problem {
        ArgProblem::NeedsValue(option) => option + " needs a value"@,
        ArgProblem::BadInterval(_) => "--interval must be milliseconds"@,
        ArgProblem::BadPort(_) => "bad port"@,
        ArgProblem::UnknownOption(s) => "unknown option '"@ + s + "', see --help"@,
    }
}

impl ArgError {
    /// The message that is shown.
    pub fn to_string(&self) -> (res: String)
        ensures
            res@ == said(self@),
    {
        match self {
            ArgError::NeedsValue(option) => {
                let mut out: String = option.clone();
                out.append(" needs a value");
                out
            },
            ArgError::BadInterval(_) => "--interval must be milliseconds".to_owned(),
            ArgError::BadPort(_) => "bad port".to_owned(),
            ArgError::UnknownOption(s) => {
                let mut out: String = "unknown option '".to_owned();
                out.append(s.as_str());
                out.append("', see --help");
                out
            },
        }
    }
}

/// The settings after a `UPS[@HOST[:PORT]]` argument, and what stands in place of
/// a port if it is none. Without a name before the `@` the device stays as it is.
pub open spec fn with_spec(cfg: ConfigModel, spec_text: Seq<char>) -> (
    ConfigModel,
    Option<Seq<char>>,
) {
    let (ups, place) = match text::split_at_first(spec_text, '@') {
        Some((u, h)) => (u, Some(h)),
        None => (spec_text, None),
    };
    let named = if ups.len() > 0 {
        ConfigModel { ups: Some(ups), ..cfg }
    } else {
        cfg
    };
    match place {
        None => (named, None),
        Some(h) => match text::split_at_first(h, ':') {
            None => (ConfigModel { host: h, ..named }, None),
            Some((host, port)) => match number::whole_number(port, u16::MAX as int) {
                Some(n) => (ConfigModel { host, port: n as u16, ..named }, None),
                None => (ConfigModel { host, ..named }, Some(port)),
            },
        },
    }
}

/// Takes a positional `UPS[@HOST[:PORT]]` argument over into the settings.
pub fn apply_spec(cfg: &mut Config, spec_text: &str) -> (res: Result<(), ArgError>)
    ensures
        final(cfg)@ == with_spec(old(cfg)@, spec_text@).0,
        match res {
            Ok(_) => with_spec(old(cfg)@, spec_text@).1 is None,
            Err(e) => with_spec(old(cfg)@, spec_text@).1 matches Some(port) && e@
                == ArgProblem::BadPort(port),
        },
{
    let (ups, place): (&str, Option<&str>) = match text::split_once(spec_text, '@') {
        Some((u, h)) => (u, Some(h)),
        None => (spec_text, None),
    };
    if ups.unicode_len() > 0 {
        cfg.ups = Some(ups.to_owned());
    }
    if let Some(h) = place {
        match text::split_once(h, ':') {
            Some((host, port)) => {
                cfg.host = host.to_owned();
                match number::parse_whole(port, u16::MAX as u64) {
                    Some(n) => {
                        cfg.port = n as u16;
                    },
                    None => {
                        return Err(ArgError::BadPort(port.to_owned()));
                    },
                }
            },
            None => {
                cfg.host = h.to_owned();
            },
        }
    }
    Ok(())
}

/// What a command line asks for.
pub enum Invocation {
    /// To show the help text.
    Help,
    /// To run with these settings.
    Run(Config),
}

/// What becomes of a command line.
pub enum Outcome {
    Help,
    Run(ConfigModel),
    Wrong(ArgProblem),
}

/// Whether the argument is an option that takes a value.
pub open spec fn takes_value(a: Seq<char>) -> bool {
    a == "--user"@ || a == "--password"@ || a == "--interval"@
}

/// The settings after an option and its value.
pub open spec fn with_option(cfg: ConfigModel, option: Seq<char>, value: Seq<char>) -> Result<
    ConfigModel,
    ArgProblem,
> {
    if option == "--user"@ {
        Ok(ConfigModel { user: Some(value), ..cfg })
    } else if option == "--password"@ {
        Ok(ConfigModel { pass: Some(value), ..cfg })
    } else {
        match number::whole_number(value, u64::MAX as int) {
            Some(n) => Ok(ConfigModel { interval_ms: n as u64, ..cfg }),
            None => Err(ArgProblem::BadInterval(value)),
        }
    }
}

/// The settings after an argument that stands for itself.
pub open spec fn with_word(cfg: ConfigModel, a: Seq<char>) -> Result<ConfigModel, ArgProblem> {
    if a == "--once"@ {
        Ok(ConfigModel { once: true, ..cfg })
    } else if a == "-b"@ || a == "--basic"@ {
        Ok(ConfigModel { basic: true, ..cfg })
    } else if text::opens_with(a, '-') {
        Err(ArgProblem::UnknownOption(a))
    } else {
        match with_spec(cfg, a) {
            (next, None) => Ok(next),
            (_, Some(port)) => Err(ArgProblem::BadPort(port)),
        }
    }
}

/// What becomes of the arguments, taken one after the other, up to the first
/// that asks for help or is wrong.
pub open spec fn with_args(cfg: ConfigModel, args: Seq<Seq<char>>) -> Outcome
    decreases args.len(),
{
    if args.len() == 0 {
        Outcome::Run(cfg)
    } else if args[0] == "-h"@ || args[0] == "--help"@ {
        Outcome::Help
    } else if takes_value(args[0]) {
        if args.len() == 1 {
            Outcome::Wrong(ArgProblem::NeedsValue(args[0]))
        } else {
            match with_option(cfg, args[0], args[1]) {
                Ok(next) => with_args(next, args.skip(2)),
                Err(problem) => Outcome::Wrong(problem),
            }
        }
    } else {
        match with_word(cfg, args[0]) {
            Ok(next) => with_args(next, args.skip(1)),
            Err(problem) => Outcome::Wrong(problem),
        }
    }
}

/// Whether a result is the given outcome.
pub open spec fn is_outcome(res: Result<Invocation, ArgError>, o: Outcome) -> bool {
    match res {
        Ok(Invocation::Help) => o is Help,
        Ok(Invocation::Run(cfg)) => o == Outcome::Run(cfg@),
        Err(e) => o == Outcome::Wrong(e@),
    }
}

fn set_option(cfg: &mut Config, option: &str, value: &str) -> (res: Result<(), ArgError>)
    ensures
        match res {
            Ok(_) => with_option(old(cfg)@, option@, value@) == Ok::<ConfigModel, ArgProblem>(
                final(cfg)@,
            ),
            Err(e) => with_option(old(cfg)@, option@, value@) == Err::<ConfigModel, ArgProblem>(e@),
        },
{
    if text::same(option, "--user") {
        cfg.user = Some(value.to_owned());
    } else if text::same(option, "--password") {
        cfg.pass = Some(value.to_owned());
    } else {
        match number::parse_whole(value, u64::MAX) {
            Some(n) => {
                cfg.interval_ms = n;
            },
            None => {
                return Err(ArgError::BadInterval(value.to_owned()));
            },
        }
    }
    Ok(())
}

fn set_word(cfg: &mut Config, a: &str) -> (res: Result<(), ArgError>)
    ensures
        match res {
            Ok(_) => with_word(old(cfg)@, a@) == Ok::<ConfigModel, ArgProblem>(final(cfg)@),
            Err(e) => with_word(old(cfg)@, a@) == Err::<ConfigModel, ArgProblem>(e@),
        },
{
    if text::same(a, "--once") {
        cfg.once = true;
        Ok(())
    } else if text::same(a, "-b") || text::same(a, "--basic") {
        cfg.basic = true;
        Ok(())
    } else if text::strip_first(a, '-').is_some() {
        Err(ArgError::UnknownOption(a.to_owned()))
    } else {
        apply_spec(cfg, a)
    }
}

/// Takes the arguments over into the settings.
pub fn apply_args(settings: Config, args: &Vec<String>) -> (res: Result<Invocation, ArgError>)
    ensures
        is_outcome(res, with_args(settings@, text::strings_view(args@))),
{
    let mut cfg: Config = settings;
    let ghost all = text::strings_view(args@);
    let mut i: usize = 0;
    assert(all.skip(0) =~= all);
    while i < args.len()
        invariant
            i <= args@.len(),
            all == text::strings_view(args@),
            with_args(cfg@, all.skip(i as int)) == with_args(settings@, all),
        decreases args@.len() - i,
    {
        let a: &str = args[i].as_str();
        assert(all.skip(i as int)[0] == a@);
        if text::same(a, "-h") || text::same(a, "--help") {
            return Ok(Invocation::Help);
        }
        if text::same(a, "--user") || text::same(a, "--password") || text::same(a, "--interval") {
            if i + 1 >= args.len() {
                return Err(ArgError::NeedsValue(a.to_owned()));
            }
            let value: &str = args[i + 1].as_str();
            assert(all.skip(i as int)[1] == value@);
            assert(all.skip(i as int).skip(2) =~= all.skip(i + 2));
            match set_option(&mut cfg, a, value) {
                Ok(_) => {},
                Err(e) => {
                    return Err(e);
                },
            }
            i = i + 2;
        } else {
            assert(all.skip(i as int).skip(1) =~= all.skip(i + 1));
            match set_word(&mut cfg, a) {
                Ok(_) => {},
                Err(e) => {
                    return Err(e);
                },
            }
            i = i + 1;
        }
    }
    Ok(Invocation::Run(cfg))
}

// ------------------------------------------------------------ all the sources

/// Why a run cannot start.
pub enum StartError {
    Config(ConfigError),
    Args(ArgError),
}

/// A configuration file: its text, and its path for messages.
pub struct ConfigFile {
    pub origin: String,
    pub contents: String,
}

/// The settings that the file leaves, and what is wrong with it.
pub open spec fn from_file(file: Option<ConfigFile>) -> (
    ConfigModel,
    Option<(nat, config::ProblemModel)>,
) {
    match file {
        Some(f) => config::with_file(config::defaults(), f.contents@),
        None => (config::defaults(), None),
    }
}

/// Puts the settings together. The command line counts more than the
/// environment, the environment more than the configuration file, and the file
/// more than the defaults.
pub fn parse_args(file: &Option<ConfigFile>, env: &Environment, args: &Vec<String>) -> (res: Result<
    Invocation,
    StartError,
>)
    ensures
        match res {
            Err(StartError::Config(e)) => {
                &&& from_file(*file).1 == Some((e.line as nat, e.problem@))
                &&& file matches Some(f) && e.origin@ == f.origin@
            },
            Ok(invocation) => {
                &&& from_file(*file).1 is None
                &&& is_outcome(
                    Ok(invocation),
                    with_args(
                        config::with_environment(from_file(*file).0, *env),
                        text::strings_view(args@),
                    ),
                )
            },
            Err(StartError::Args(e)) => {
                &&& from_file(*file).1 is None
                &&& is_outcome(
                    Err(e),
                    with_args(
                        config::with_environment(from_file(*file).0, *env),
                        text::strings_view(args@),
                    ),
                )
            },
        },
{
    let mut cfg: Config = Config::default();
    if let Some(f) = file {
        match config::parse_config(f.contents.as_str(), f.origin.as_str(), &mut cfg) {
            Ok(_) => {},
            Err(e) => {
                return Err(StartError::Config(e));
            },
        }
    }
    config::apply_environment(&mut cfg, env);
    match apply_args(cfg, args) {
        Ok(invocation) => Ok(invocation),
        Err(e) => Err(StartError::Args(e)),
    }
}

/// Where the directory of the configuration file is found.
#[derive(Clone, Copy, Debug, PartialEq, Eq, Structural)]
pub enum ConfigBase {
    /// In `$XDG_CONFIG_HOME`.
    Xdg,
    /// In `.config` of the home directory.
    HomeConfig,
    /// Nowhere: there is no home directory.
    Nowhere,
}

/// Chooses the directory. A relative `$XDG_CONFIG_HOME` is invalid and does not
/// count.
pub fn config_base(xdg_is_absolute: bool, has_home: bool) -> (res: ConfigBase)
    ensures
        xdg_is_absolute ==> res == ConfigBase::Xdg,
        !xdg_is_absolute && has_home ==> res == ConfigBase::HomeConfig,
        !xdg_is_absolute && !has_home ==> res == ConfigBase::Nowhere,
{
    if xdg_is_absolute {
        ConfigBase::Xdg
    } else if has_home {
        ConfigBase::HomeConfig
    } else {
        ConfigBase::Nowhere
    }
}

/// The time between two polls, in milliseconds: what the settings say, but never
/// less than a quarter of a second.
pub fn poll_interval_ms(cfg: &Config) -> (res: u64)
    ensures
        res == if cfg.interval_ms < 250 {
            250
        } else {
            cfg.interval_ms
        },
{
    if cfg.interval_ms < 250 {
        250
    } else {
        cfg.interval_ms
    }
}

/// The device to watch where the settings name none: the first one that the
/// server knows.
pub fn first_ups(known: &Vec<(String, String)>) -> (res: Option<String>)
    ensures
        known@.len() == 0 ==> res is None,
        known@.len() > 0 ==> res == Some(known@[0].0),
{
    if known.len() > 0 {
        Some(known[0].0.clone())
    } else {
        None
    }
}

/// One line of the plain listing of all variables.
pub fn listing_line(name: &str, value: &str) -> (res: String)
    ensures
        res@ == name@ + ": "@ + value@,
{
    let mut out: String = name.to_owned();
    out.append(": ");
    out.append(value);
    out
}

// -------------------------------------------------------------------- laws

/// The value that the arguments give to an option: the last one, if there are
/// several.
pub open spec fn given(args: Seq<Seq<char>>, option: Seq<char>) -> Option<Seq<char>>
    decreases args.len(),
{
    if args.len() == 0 {
        None
    } else if takes_value(args[0]) && args.len() > 1 {
        match given(args.skip(2), option) {
            Some(value) => Some(value),
            None => if args[0] == option {
                Some(args[1])
            } else {
                None
            },
        }
    } else {
        given(args.skip(1), option)
    }
}

proof fn lemma_options_differ()
    ensures
        "--user"@ != "--password"@,
        "--user"@ != "--interval"@,
        "--password"@ != "--interval"@,
{
    reveal_strlit("--user");
    reveal_strlit("--password");
    reveal_strlit("--interval");
    assert("--user"@[2] == 'u');
    assert("--password"@[2] == 'p');
    assert("--interval"@[2] == 'i');
}

proof fn lemma_args_decide(cfg: ConfigModel, args: Seq<Seq<char>>)
    ensures
        with_args(cfg, args) matches Outcome::Run(end) ==> {
            &&& end.user == config::or_else(given(args, "--user"@), cfg.user)
            &&& end.pass == config::or_else(given(args, "--password"@), cfg.pass)
            &&& end.interval_ms == match given(args, "--interval"@) {
                Some(value) => number::whole_number(value, u64::MAX as int)->0 as u64,
                None => cfg.interval_ms,
            }
            &&& given(args, "--interval"@) matches Some(value) ==> number::whole_number(
                value,
                u64::MAX as int,
            ) is Some
        },
    decreases args.len(),
{
    lemma_options_differ();
    if args.len() > 0 {
        if takes_value(args[0]) {
            if args.len() > 1 {
                if let Ok(next) = with_option(cfg, args[0], args[1]) {
                    lemma_args_decide(next, args.skip(2));
                }
            }
        } else {
            if let Ok(next) = with_word(cfg, args[0]) {
                lemma_args_decide(next, args.skip(1));
            }
        }
    }
}

/// Command line over environment over configuration file: in the settings of a
/// run, the user and the password are those of the last option that gives them;
/// failing that, those of the environment, of which an empty variable does not
/// count; failing that, those of the file. The interval is that of the last
/// option that gives it, else that of the file.
pub proof fn sources_take_precedence(file: Option<ConfigFile>, env: Environment, args: Seq<Seq<char>>)
    ensures
        with_args(config::with_environment(from_file(file).0, env), args) matches Outcome::Run(cfg)
            ==> {
            &&& cfg.user == config::or_else(
                given(args, "--user"@),
                config::or_else(env.user(), from_file(file).0.user),
            )
            &&& cfg.pass == config::or_else(
                given(args, "--password"@),
                config::or_else(env.pass(), from_file(file).0.pass),
            )
            &&& cfg.interval_ms == match given(args, "--interval"@) {
                Some(value) => number::whole_number(value, u64::MAX as int)->0 as u64,
                None => from_file(file).0.interval_ms,
            }
        },
{
    lemma_args_decide(config::with_environment(from_file(file).0, env), args);
}

/// The arguments that are neither options nor values of options.
pub open spec fn positional(args: Seq<Seq<char>>) -> Seq<Seq<char>>
    decreases args.len(),
{
    if args.len() == 0 {
        Seq::empty()
    } else if takes_value(args[0]) {
        if args.len() == 1 {
            Seq::empty()
        } else {
            positional(args.skip(2))
        }
    } else if text::opens_with(args[0], '-') {
        positional(args.skip(1))
    } else {
        seq![args[0]] + positional(args.skip(1))
    }
}

/// The settings after several `UPS[@HOST[:PORT]]` arguments.
pub open spec fn with_specs(cfg: ConfigModel, specs: Seq<Seq<char>>) -> ConfigModel
    decreases specs.len(),
{
    if specs.len() == 0 {
        cfg
    } else {
        with_specs(with_spec(cfg, specs[0]).0, specs.drop_first())
    }
}

/// Which device is watched, and where, is what the positional arguments make of
/// what the configuration file says; without any it is what the file says.
pub proof fn positional_arguments_name_the_device(
    file: Option<ConfigFile>,
    env: Environment,
    args: Seq<Seq<char>>,
)
    ensures
        with_args(config::with_environment(from_file(file).0, env), args) matches Outcome::Run(cfg)
            ==> {
            let named = with_specs(from_file(file).0, positional(args));
            &&& cfg.ups == named.ups
            &&& cfg.host == named.host
            &&& cfg.port == named.port
        },
{
    lemma_positional(config::with_environment(from_file(file).0, env), from_file(file).0, args);
}

proof fn lemma_positional(cfg: ConfigModel, other: ConfigModel, args: Seq<Seq<char>>)
    requires
        cfg.ups == other.ups,
        cfg.host == other.host,
        cfg.port == other.port,
    ensures
        with_args(cfg, args) matches Outcome::Run(end) ==> {
            let named = with_specs(other, positional(args));
            &&& end.ups == named.ups
            &&& end.host == named.host
            &&& end.port == named.port
        },
    decreases args.len(),
{
    lemma_dashes();
    if args.len() > 0 {
        if takes_value(args[0]) {
            if args.len() > 1 {
                if let Ok(next) = with_option(cfg, args[0], args[1]) {
                    lemma_positional(next, other, args.skip(2));
                }
            }
        } else if let Ok(next) = with_word(cfg, args[0]) {
            if text::opens_with(args[0], '-') {
                lemma_positional(next, other, args.skip(1));
            } else {
                let first = args[0];
                lemma_positional(next, with_spec(other, first).0, args.skip(1));
                let rest = seq![first] + positional(args.skip(1));
                assert(rest.drop_first() =~= positional(args.skip(1)));
            }
        }
    }
}

proof fn lemma_dashes()
    ensures
        text::opens_with("--once"@, '-'),
        text::opens_with("-b"@, '-'),
        text::opens_with("--basic"@, '-'),
{
    reveal_strlit("--once");
    reveal_strlit("-b");
    reveal_strlit("--basic");
}

/// Whether a variable of the environment is missing or empty.
pub open spec fn says_nothing(variable: Option<String>) -> bool {
    text::opt_view(variable) matches Some(s) ==> s.len() == 0
}

/// Empty variables of the environment count as if they were not there: where each
/// is missing or empty, they leave what the configuration file says.
pub proof fn empty_variable_does_not_count(cfg: ConfigModel, env: Environment)
    ensures
        says_nothing(env.own_user) && says_nothing(env.nut_user) ==> config::with_environment(
            cfg,
            env,
        ).user == cfg.user,
        says_nothing(env.own_pass) && says_nothing(env.nut_pass) ==> config::with_environment(
            cfg,
            env,
        ).pass == cfg.pass,
{
}

/// A later option overrides everything before it: arguments that end with
/// `--user U` leave the user `U`, with all else as the arguments before leave it.
pub proof fn last_user_counts(cfg: ConfigModel, args: Seq<Seq<char>>, user: Seq<char>, end: ConfigModel)
    requires
        with_args(cfg, args) == Outcome::Run(end),
    ensures
        with_args(cfg, args + seq!["--user"@, user]) == Outcome::Run(
            ConfigModel { user: Some(user), ..end },
        ),
{
    lemma_args_concatenate(cfg, args, seq!["--user"@, user], end);
    let last = seq!["--user"@, user];
    reveal_strlit("-h");
    reveal_strlit("--help");
    reveal_strlit("--user");
    assert("--user"@[2] == 'u');
    assert("--help"@[2] == 'h');
    assert(last.skip(2) =~= Seq::<Seq<char>>::empty());
    reveal_with_fuel(with_args, 2);
}

proof fn lemma_args_concatenate(cfg: ConfigModel, a: Seq<Seq<char>>, b: Seq<Seq<char>>, end: ConfigModel)
    requires
        with_args(cfg, a) == Outcome::Run(end),
    ensures
        with_args(cfg, a + b) == with_args(end, b),
    decreases a.len(),
{
    if a.len() == 0 {
        assert(a + b =~= b);
    } else if takes_value(a[0]) {
        assert((a + b).skip(2) =~= a.skip(2) + b);
        if let Ok(next) = with_option(cfg, a[0], a[1]) {
            lemma_args_concatenate(next, a.skip(2), b, end);
        }
    } else {
        assert((a + b).skip(1) =~= a.skip(1) + b);
        if let Ok(next) = with_word(cfg, a[0]) {
            lemma_args_concatenate(next, a.skip(1), b, end);
        }
    }
}

} // verus!
