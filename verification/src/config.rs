//! Settings: what they are, and what the configuration file and the environment
//! say of them.

use vstd::prelude::*;

use crate::number;
use crate::text;

verus! {

/// The settings of a run.
pub struct Config {
    pub ups: Option<String>,
    pub host: String,
    pub port: u16,
    pub user: Option<String>,
    pub pass: Option<String>,
    pub interval_ms: u64,
    pub once: bool,
    pub basic: bool,
}

/// A [`Config`], its texts taken by their characters.
#[verifier::ext_equal]
pub struct ConfigModel {
    pub ups: Option<Seq<char>>,
    pub host: Seq<char>,
    pub port: u16,
    pub user: Option<Seq<char>>,
    pub pass: Option<Seq<char>>,
    pub interval_ms: u64,
    pub once: bool,
    pub basic: bool,
}

impl View for Config {
    type V = ConfigModel;

    open spec fn view(&self) -> ConfigModel {
        ConfigModel {
            ups: text::opt_view(self.ups),
            host: self.host@,
            port: self.port,
            user: text::opt_view(self.user),
            pass: text::opt_view(self.pass),
            interval_ms: self.interval_ms,
            once: self.once,
            basic: self.basic,
        }
    }
}

/// The settings where nothing says otherwise: `upsd` on this machine, at its
/// usual port, polled every two seconds.
pub open spec fn defaults() -> ConfigModel {
    ConfigModel {
        ups: None,
        host: "localhost"@,
        port: 3493,
        user: None,
        pass: None,
        interval_ms: 2000,
        once: false,
        basic: false,
    }
}

impl Default for Config {
    fn default() -> (res: Self)
        ensures
            res@ == defaults(),
    {
        Config {
            ups: None,
            host: "localhost".to_owned(),
            port: 3493,
            user: None,
            pass: None,
            interval_ms: 2000,
            once: false,
            basic: false,
        }
    }
}

// -------------------------------------------------------- configuration file

/// What is wrong with a line of a configuration file.
pub enum Problem {
    /// There is no `=` in it.
    NoValue,
    /// This is no port.
    BadPort(String),
    /// This is no number of milliseconds.
    BadInterval(String),
    /// This is no setting.
    UnknownKey(String),
}

/// A [`Problem`], its text taken by its characters.
pub enum ProblemModel {
    NoValue,
    BadPort(Seq<char>),
    BadInterval(Seq<char>),
    UnknownKey(Seq<char>),
}

impl View for Problem {
    type V = ProblemModel;

    open spec fn view(&self) -> ProblemModel {
        match *self {
            Problem::NoValue => ProblemModel::NoValue,
            Problem::BadPort(s) => ProblemModel::BadPort(s@),
            Problem::BadInterval(s) => ProblemModel::BadInterval(s@),
            Problem::UnknownKey(s) => ProblemModel::UnknownKey(s@),
        }
    }
}

/// A problem and where it is: the file, and the line, counted from 1.
pub struct ConfigError {
    pub origin: String,
    pub line: usize,
    pub problem: Problem,
}

/// What is said of a problem.
pub open spec fn said(origin: Seq<char>, line: nat, problem: ProblemModel) -> Seq<char> {
    origin + ":"@ + number::decimal_of(line) + ": "@ + match problem {
        ProblemModel::NoValue => "expected `key = value`"@,
        ProblemModel::BadPort(_) => "bad port"@,
        ProblemModel::BadInterval(_) => "interval must be milliseconds"@,
        ProblemModel::UnknownKey(key) => "unknown key '"@ + key + "'"@,
    }
}

impl ConfigError {
    /// The message that is shown.
    pub fn to_string(&self) -> (res: String)
        ensures
            res@ == said(self.origin@, self.line as nat, self.problem@),
    {
        let mut out: String = self.origin.clone();
        out.append(":");
        out.append(number::decimal(self.line as u128).as_str());
        out.append(": ");
        match &self.problem {
            Problem::NoValue => {
                out.append("expected `key = value`");
            },
            Problem::BadPort(_) => {
                out.append("bad port");
            },
            Problem::BadInterval(_) => {
                out.append("interval must be milliseconds");
            },
            Problem::UnknownKey(key) => {
                let mut what: String = "unknown key '".to_owned();
                what.append(key.as_str());
                what.append("'");
                out.append(what.as_str());
            },
        }
        out
    }
}

/// The value that stands behind the `=`. Between quotation marks everything up
/// to the closing one counts, `#` too; an unquoted value stops at a comment.
pub open spec fn value_of(raw: Seq<char>) -> Seq<char> {
    let v = text::trimmed(raw);
    if text::opens_with(v, '"') {
        match text::split_at_first(v.skip(1), '"') {
            Some((inner, _)) => inner,
            None => v.skip(1),
        }
    } else {
        match text::split_at_first(v, '#') {
            Some((x, _)) => text::trimmed_end(x),
            None => text::trimmed_end(v),
        }
    }
}

/// The settings after `key = value`.
pub open spec fn with_setting(cfg: ConfigModel, key: Seq<char>, value: Seq<char>) -> Result<
    ConfigModel,
    ProblemModel,
> {
    if key == "ups"@ {
        Ok(ConfigModel { ups: Some(value), ..cfg })
    } else if key == "host"@ {
        Ok(ConfigModel { host: value, ..cfg })
    } else if key == "port"@ {
        match number::whole_number(value, u16::MAX as int) {
            Some(n) => Ok(ConfigModel { port: n as u16, ..cfg }),
            None => Err(ProblemModel::BadPort(value)),
        }
    } else if key == "user"@ {
        Ok(ConfigModel { user: Some(value), ..cfg })
    } else if key == "password"@ {
        Ok(ConfigModel { pass: Some(value), ..cfg })
    } else if key == "interval"@ {
        match number::whole_number(value, u64::MAX as int) {
            Some(n) => Ok(ConfigModel { interval_ms: n as u64, ..cfg }),
            None => Err(ProblemModel::BadInterval(value)),
        }
    } else {
        Err(ProblemModel::UnknownKey(key))
    }
}

/// The settings after one line. An empty line and one that starts with `#` say
/// nothing.
pub open spec fn with_line(cfg: ConfigModel, raw: Seq<char>) -> Result<ConfigModel, ProblemModel> {
    let line = text::trimmed(raw);
    if line.len() == 0 || text::opens_with(line, '#') {
        Ok(cfg)
    } else {
        match text::split_at_first(line, '=') {
            Some((k, v)) => with_setting(cfg, text::trimmed(k), value_of(v)),
            None => Err(ProblemModel::NoValue),
        }
    }
}

/// The settings after the lines, the first of which has the number `no`, up to
/// the first that is wrong; and the number of that line, with the problem.
pub open spec fn with_lines(cfg: ConfigModel, lines: Seq<Seq<char>>, no: nat) -> (
    ConfigModel,
    Option<(nat, ProblemModel)>,
)
    decreases lines.len(),
{
    if lines.len() == 0 {
        (cfg, None)
    } else {
        match with_line(cfg, lines[0]) {
            Ok(next) => with_lines(next, lines.drop_first(), no + 1),
            Err(problem) => (cfg, Some((no, problem))),
        }
    }
}

/// The settings after a configuration file.
pub open spec fn with_file(cfg: ConfigModel, contents: Seq<char>) -> (
    ConfigModel,
    Option<(nat, ProblemModel)>,
) {
    with_lines(cfg, text::lines_of(contents), 1)
}

fn read_value<'a>(raw: &'a str) -> (res: &'a str)
    ensures
        res@ == value_of(raw@),
{
    let v: &str = text::trim(raw);
    match text::strip_first(v, '"') {
        Some(rest) => match text::split_once(rest, '"') {
            Some((inner, _)) => inner,
            None => rest,
        },
        None => match text::split_once(v, '#') {
            Some((x, _)) => text::trim_end(x),
            None => text::trim_end(v),
        },
    }
}

fn set(cfg: &mut Config, key: &str, value: &str) -> (res: Result<(), Problem>)
    ensures
        match res {
            Ok(_) => with_setting(old(cfg)@, key@, value@) == Ok::<ConfigModel, ProblemModel>(
                final(cfg)@,
            ),
            Err(problem) => with_setting(old(cfg)@, key@, value@) == Err::<
                ConfigModel,
                ProblemModel,
            >(problem@) && *final(cfg) == *old(cfg),
        },
{
    if text::same(key, "ups") {
        cfg.ups = Some(value.to_owned());
    } else if text::same(key, "host") {
        cfg.host = value.to_owned();
    } else if text::same(key, "port") {
        match number::parse_whole(value, u16::MAX as u64) {
            Some(n) => {
                cfg.port = n as u16;
            },
            None => {
                return Err(Problem::BadPort(value.to_owned()));
            },
        }
    } else if text::same(key, "user") {
        cfg.user = Some(value.to_owned());
    } else if text::same(key, "password") {
        cfg.pass = Some(value.to_owned());
    } else if text::same(key, "interval") {
        match number::parse_whole(value, u64::MAX) {
            Some(n) => {
                cfg.interval_ms = n;
            },
            None => {
                return Err(Problem::BadInterval(value.to_owned()));
            },
        }
    } else {
        return Err(Problem::UnknownKey(key.to_owned()));
    }
    Ok(())
}

fn take_line(cfg: &mut Config, raw: &str) -> (res: Result<(), Problem>)
    ensures
        match res {
            Ok(_) => with_line(old(cfg)@, raw@) == Ok::<ConfigModel, ProblemModel>(final(cfg)@),
            Err(problem) => with_line(old(cfg)@, raw@) == Err::<ConfigModel, ProblemModel>(problem@)
                && *final(cfg) == *old(cfg),
        },
{
    let line: &str = text::trim(raw);
    if line.unicode_len() == 0 || text::strip_first(line, '#').is_some() {
        return Ok(());
    }
    match text::split_once(line, '=') {
        Some((k, v)) => set(cfg, text::trim(k), read_value(v)),
        None => Err(Problem::NoValue),
    }
}

/// Parses the text of a configuration file: flat `key = "value"` lines. `origin`
/// only tells an error where it is (the file path in real use).
pub fn parse_config(contents: &str, origin: &str, cfg: &mut Config) -> (res: Result<
    (),
    ConfigError,
>)
    ensures
        final(cfg)@ == with_file(old(cfg)@, contents@).0,
        match res {
            Ok(_) => with_file(old(cfg)@, contents@).1 is None,
            Err(e) => e.origin@ == origin@ && with_file(old(cfg)@, contents@).1 == Some(
                (e.line as nat, e.problem@),
            ),
        },
{
    let lines: Vec<String> = text::lines(contents);
    let ghost all = text::strings_view(lines@);
    let mut i: usize = 0;
    assert(all.skip(0) =~= all);
    while i < lines.len()
        invariant
            i <= lines@.len(),
            all == text::strings_view(lines@),
            all == text::lines_of(contents@),
            with_lines(cfg@, all.skip(i as int), (i + 1) as nat) == with_file(old(cfg)@, contents@),
        decreases lines@.len() - i,
    {
        assert(all.skip(i as int)[0] == lines@[i as int]@);
        assert(all.skip(i as int).drop_first() =~= all.skip(i + 1));
        match take_line(cfg, lines[i].as_str()) {
            Ok(_) => {},
            Err(problem) => {
                return Err(ConfigError { origin: origin.to_owned(), line: i + 1, problem });
            },
        }
        i = i + 1;
    }
    Ok(())
}

// --------------------------------------------------------------- environment

/// The first of the two texts that is there and not empty.
pub open spec fn first_given(a: Option<Seq<char>>, b: Option<Seq<char>>) -> Option<Seq<char>> {
    match (a, b) {
        (Some(s), _) if s.len() > 0 => Some(s),
        (_, Some(s)) if s.len() > 0 => Some(s),
        _ => None,
    }
}

/// What the environment says: for the user and for the password, the variable of
/// this program and the one that other programs for NUT use.
pub struct Environment {
    pub own_user: Option<String>,
    pub nut_user: Option<String>,
    pub own_pass: Option<String>,
    pub nut_pass: Option<String>,
}

impl Environment {
    /// The user that the environment names.
    pub open spec fn user(&self) -> Option<Seq<char>> {
        first_given(text::opt_view(self.own_user), text::opt_view(self.nut_user))
    }

    /// The password that the environment names.
    pub open spec fn pass(&self) -> Option<Seq<char>> {
        first_given(text::opt_view(self.own_pass), text::opt_view(self.nut_pass))
    }
}

/// `over` where it is there, else `under`.
pub open spec fn or_else(over: Option<Seq<char>>, under: Option<Seq<char>>) -> Option<Seq<char>> {
    match over {
        Some(s) => Some(s),
        None => under,
    }
}

/// The settings after the environment. A variable that is defined but empty says
/// nothing.
pub open spec fn with_environment(cfg: ConfigModel, env: Environment) -> ConfigModel {
    ConfigModel {
        user: or_else(env.user(), cfg.user),
        pass: or_else(env.pass(), cfg.pass),
        ..cfg
    }
}

fn nonempty(o: &Option<String>) -> (res: Option<String>)
    ensures
        text::opt_view(res) == first_given(text::opt_view(*o), None),
{
    match o {
        Some(s) => if s.as_str().unicode_len() > 0 {
            Some(s.clone())
        } else {
            None
        },
        None => None,
    }
}

fn env_nonempty(a: &Option<String>, b: &Option<String>) -> (res: Option<String>)
    ensures
        text::opt_view(res) == first_given(text::opt_view(*a), text::opt_view(*b)),
{
    match nonempty(a) {
        Some(s) => Some(s),
        None => nonempty(b),
    }
}

/// Takes over what the environment says.
pub fn apply_environment(cfg: &mut Config, env: &Environment)
    ensures
        final(cfg)@ == with_environment(old(cfg)@, *env),
{
    if let Some(u) = env_nonempty(&env.own_user, &env.nut_user) {
        cfg.user = Some(u);
    }
    if let Some(p) = env_nonempty(&env.own_pass, &env.nut_pass) {
        cfg.pass = Some(p);
    }
}

// -------------------------------------------------------------------- laws

/// A value between quotation marks counts as it stands, whatever follows the
/// closing one: `#` in it starts no comment, and its white space is kept.
pub proof fn quoted_value_is_literal(v: Seq<char>, rest: Seq<char>)
    requires
        !v.contains('"'),
    ensures
        value_of(seq!['"'] + v + seq!['"'] + rest) == v,
{
    let head = seq!['"'] + v + seq!['"'];
    let end = text::trimmed_end(rest);
    text::lemma_trimmed_end_stops(head, rest);
    assert(text::trimmed_start(head + rest) == head + rest);
    let behind = (head + end).skip(1);
    assert(behind =~= v + seq!['"'] + end);
    text::lemma_find_is(behind, '"', v.len() as int);
    assert(behind.take(v.len() as int) =~= v);
}

/// A value without quotation marks stops at a comment, and the white space before
/// the comment is no part of it.
pub proof fn comment_ends_plain_value(v: Seq<char>, gap: Seq<char>, comment: Seq<char>)
    requires
        v.len() > 0,
        v[0] != '"',
        !v.contains('#'),
        !text::white(v[0]),
        !text::white(v.last()),
        forall|i: int| 0 <= i < gap.len() ==> text::white(#[trigger] gap[i]),
    ensures
        value_of(v + gap + seq!['#'] + comment) == v,
{
    let head = v + gap + seq!['#'];
    let end = text::trimmed_end(comment);
    text::lemma_trimmed_end_stops(head, comment);
    assert(text::trimmed_start(head + comment) == head + comment);
    let all = head + end;
    assert forall|j: int| 0 <= j < v.len() + gap.len() implies all[j] != '#' by {
        if j < v.len() {
            assert(all[j] == v[j]);
        } else {
            assert(all[j] == gap[j - v.len()]);
        }
    }
    text::lemma_find_is(all, '#', (v.len() + gap.len()) as int);
    assert(all.take((v.len() + gap.len()) as int) =~= v + gap);
    text::lemma_trimmed_is(Seq::empty(), v, gap);
    assert(Seq::<char>::empty() + v + gap =~= v + gap);
    assert(text::trimmed_start(v + gap) == v + gap);
}

} // verus!
