//! Promises of the settings: the configuration file, the environment, the command
//! line, and which of them counts.

use vstd::prelude::*;

use crate::args;
use crate::args::{ArgProblem, ConfigFile, Outcome};
use crate::config;
use crate::config::{ConfigModel, Environment, ProblemModel};
use crate::laws;
use crate::number;
use crate::text;

verus! {

// -------------------------------------------------------- configuration file

/// Each key of the configuration file sets its own field to the value, and no other.
pub proof fn keys_set_their_fields(cfg: ConfigModel, v: Seq<char>)
    ensures
        config::with_setting(cfg, "ups"@, v) == Ok::<ConfigModel, ProblemModel>(
            ConfigModel { ups: Some(v), ..cfg },
        ),
        config::with_setting(cfg, "host"@, v) == Ok::<ConfigModel, ProblemModel>(
            ConfigModel { host: v, ..cfg },
        ),
        config::with_setting(cfg, "user"@, v) == Ok::<ConfigModel, ProblemModel>(
            ConfigModel { user: Some(v), ..cfg },
        ),
        config::with_setting(cfg, "password"@, v) == Ok::<ConfigModel, ProblemModel>(
            ConfigModel { pass: Some(v), ..cfg },
        ),
{
    lemma_keys();
}

proof fn lemma_keys()
    ensures
        "ups"@ != "host"@,
        "ups"@ != "user"@,
        "host"@ != "user"@,
        "ups"@ != "port"@,
        "host"@ != "port"@,
        "user"@ != "port"@,
        "password"@.len() == 8,
        "interval"@.len() == 8,
        "password"@ != "interval"@,
        "ups"@.len() == 3,
        "host"@.len() == 4,
        "port"@.len() == 4,
        "user"@.len() == 4,
{
    reveal_strlit("ups");
    reveal_strlit("host");
    reveal_strlit("port");
    reveal_strlit("user");
    reveal_strlit("password");
    reveal_strlit("interval");
    assert("ups"@.len() == 3 && "user"@.len() == 4);
    assert("host"@[0] == 'h' && "port"@[0] == 'p' && "user"@[0] == 'u');
    assert("password"@[0] == 'p' && "interval"@[0] == 'i');
}

/// The port and the interval are whole numbers that fit: every port and every number of
/// milliseconds is taken over, and nothing else is.
pub proof fn numbers_are_taken_over(cfg: ConfigModel, port: u16, ms: u64, v: Seq<char>)
    ensures
        config::with_setting(cfg, "port"@, number::decimal_of(port as nat)) == Ok::<
            ConfigModel,
            ProblemModel,
        >(ConfigModel { port, ..cfg }),
        config::with_setting(cfg, "interval"@, number::decimal_of(ms as nat)) == Ok::<
            ConfigModel,
            ProblemModel,
        >(ConfigModel { interval_ms: ms, ..cfg }),
        number::whole_number(v, 65535) is None ==> config::with_setting(cfg, "port"@, v) == Err::<
            ConfigModel,
            ProblemModel,
        >(ProblemModel::BadPort(v)),
        number::whole_number(v, 0xffff_ffff_ffff_ffff) is None ==> config::with_setting(
            cfg,
            "interval"@,
            v,
        ) == Err::<ConfigModel, ProblemModel>(ProblemModel::BadInterval(v)),
{
    lemma_keys();
    number::decimal_reads_back(port as nat, 65535);
    number::decimal_reads_back(ms as nat, 0xffff_ffff_ffff_ffff);
}

/// Any other key is refused, and named.
pub proof fn other_keys_are_refused(cfg: ConfigModel, key: Seq<char>, v: Seq<char>)
    requires
        key != "ups"@,
        key != "host"@,
        key != "port"@,
        key != "user"@,
        key != "password"@,
        key != "interval"@,
    ensures
        config::with_setting(cfg, key, v) == Err::<ConfigModel, ProblemModel>(
            ProblemModel::UnknownKey(key),
        ),
{
}

/// Whether a text can stand for itself: something, with no white space at its ends.
pub open spec fn neat(s: Seq<char>) -> bool {
    s.len() > 0 && !text::white(s[0]) && !text::white(s.last())
}

/// A line `key = value` sets the key to the value, with or without quotation marks
/// round the value, and with any white space round both.
pub proof fn line_sets_its_key(
    cfg: ConfigModel,
    left: Seq<char>,
    key: Seq<char>,
    gap: Seq<char>,
    space: Seq<char>,
    v: Seq<char>,
    right: Seq<char>,
)
    requires
        laws::text::blank(left),
        laws::text::blank(gap),
        laws::text::blank(space),
        laws::text::blank(right),
        neat(key),
        key[0] != '#',
        !key.contains('='),
    ensures
        !v.contains('"') ==> config::with_line(
            cfg,
            left + (key + gap + seq!['='] + (space + (seq!['"'] + v + seq!['"']))) + right,
        ) == config::with_setting(cfg, key, v),
        neat(v) && v[0] != '"' && !v.contains('#') ==> config::with_line(
            cfg,
            left + (key + gap + seq!['='] + (space + v)) + right,
        ) == config::with_setting(cfg, key, v),
{
    let none = Seq::<char>::empty();
    let q = seq!['"'] + v + seq!['"'];
    assert(q.last() == '"');
    lemma_line(cfg, left, key, gap, space, q, right);
    if !v.contains('"') {
        config::quoted_value_is_literal(v, none);
        assert(seq!['"'] + v + seq!['"'] + none =~= q);
        lemma_value_between(space, q);
    }
    if neat(v) && v[0] != '"' && !v.contains('#') {
        lemma_line(cfg, left, key, gap, space, v, right);
        laws::text::space_around_comes_off(space, v, none);
        assert(space + v + none =~= space + v);
        laws::text::split_takes_apart(v, '#', none);
        laws::text::trailing_space_comes_off(v, none);
        assert(v + none =~= v);
    }
}

proof fn lemma_value_between(space: Seq<char>, q: Seq<char>)
    requires
        laws::text::blank(space),
        neat(q),
    ensures
        config::value_of(space + q) == config::value_of(q),
{
    let none = Seq::<char>::empty();
    laws::text::space_around_comes_off(space, q, none);
    laws::text::space_around_comes_off(none, q, none);
    assert(space + q + none =~= space + q);
    assert(none + q + none =~= q);
}

proof fn lemma_line(
    cfg: ConfigModel,
    left: Seq<char>,
    key: Seq<char>,
    gap: Seq<char>,
    space: Seq<char>,
    v: Seq<char>,
    right: Seq<char>,
)
    requires
        laws::text::blank(left),
        laws::text::blank(gap),
        laws::text::blank(right),
        neat(key),
        key[0] != '#',
        !key.contains('='),
        neat(v),
    ensures
        config::with_line(cfg, left + (key + gap + seq!['='] + (space + v)) + right)
            == config::with_setting(cfg, key, config::value_of(space + v)),
{
    let none = Seq::<char>::empty();
    let body = key + gap + seq!['='] + (space + v);
    assert(body[0] == key[0]);
    assert(body.last() == v.last());
    laws::text::space_around_comes_off(left, body, right);
    assert(!(key + gap).contains('=')) by {
        assert forall|i: int| 0 <= i < (key + gap).len() implies (key + gap)[i] != '=' by {
            if i < key.len() {
                assert((key + gap)[i] == key[i]);
            } else {
                assert((key + gap)[i] == gap[i - key.len()]);
            }
        }
    }
    laws::text::split_takes_apart(key + gap, '=', space + v);
    laws::text::space_around_comes_off(none, key, gap);
    assert(none + key + gap =~= key + gap);
}

/// A line that says something is split at its first `=`: what stands before it, without
/// white space around it, is the key, and what stands behind it gives the value.
pub proof fn line_is_split_at_the_first_sign(
    cfg: ConfigModel,
    raw: Seq<char>,
    key: Seq<char>,
    behind: Seq<char>,
)
    requires
        text::trimmed(raw) == key + seq!['='] + behind,
        !key.contains('='),
        !text::opens_with(key, '#'),
    ensures
        config::with_line(cfg, raw) == config::with_setting(
            cfg,
            text::trimmed(key),
            config::value_of(behind),
        ),
{
    laws::text::split_takes_apart(key, '=', behind);
    let line = key + seq!['='] + behind;
    if key.len() > 0 {
        assert(line[0] == key[0]);
    } else {
        assert(line[0] == '=');
    }
}

/// What a value is: between quotation marks, all up to the closing one, or all that
/// follows where there is none; else all up to a comment, without white space around it.
pub proof fn values_with_and_without_marks(raw: Seq<char>, v: Seq<char>, rest: Seq<char>)
    ensures
        text::trimmed(raw) == seq!['"'] + v + seq!['"'] + rest && !v.contains('"')
            ==> config::value_of(raw) == v,
        text::trimmed(raw) == seq!['"'] + v && !v.contains('"') ==> config::value_of(raw) == v,
        text::trimmed(raw) == v + seq!['#'] + rest && !v.contains('#') && !text::opens_with(v, '"')
            ==> config::value_of(raw) == text::trimmed_end(v),
        text::trimmed(raw) == v && !v.contains('#') && !text::opens_with(v, '"')
            ==> config::value_of(raw) == text::trimmed_end(v),
{
    let t = text::trimmed(raw);
    if t == seq!['"'] + v + seq!['"'] + rest && !v.contains('"') {
        assert(t.skip(1) =~= v + seq!['"'] + rest);
        laws::text::split_takes_apart(v, '"', rest);
    }
    if t == seq!['"'] + v && !v.contains('"') {
        assert(t.skip(1) =~= v);
        laws::text::split_takes_apart(v, '"', rest);
    }
    if t == v + seq!['#'] + rest && !v.contains('#') && !text::opens_with(v, '"') {
        laws::text::split_takes_apart(v, '#', rest);
        assert(t[0] == if v.len() > 0 {
            v[0]
        } else {
            '#'
        });
    }
    if t == v && !v.contains('#') && !text::opens_with(v, '"') {
        laws::text::split_takes_apart(v, '#', rest);
    }
}

/// An empty line, one of white space, and one that starts with `#` say nothing. Any
/// other line without `=` is wrong.
pub proof fn lines_that_say_nothing(
    cfg: ConfigModel,
    left: Seq<char>,
    comment: Seq<char>,
    line: Seq<char>,
)
    requires
        laws::text::blank(left),
        neat(line),
        line[0] != '#',
        !line.contains('='),
    ensures
        config::with_line(cfg, left) == Ok::<ConfigModel, ProblemModel>(cfg),
        config::with_line(cfg, left + (seq!['#'] + comment)) == Ok::<ConfigModel, ProblemModel>(cfg),
        config::with_line(cfg, left + line) == Err::<ConfigModel, ProblemModel>(
            ProblemModel::NoValue,
        ),
{
    let none = Seq::<char>::empty();
    laws::text::space_around_comes_off(left, none, none);
    assert(left + none + none =~= left);
    let noted = seq!['#'] + comment;
    laws::text::leading_space_comes_off(left, noted);
    text::lemma_trimmed_end_stops(seq!['#'], comment);
    laws::text::space_around_comes_off(left, line, none);
    assert(left + line + none =~= left + line);
    laws::text::split_takes_apart(line, '=', none);
}

/// Lines are taken in turn. The first that is wrong ends it: it is reported with its
/// number, and the settings stay as the lines before it left them.
pub proof fn lines_in_turn(cfg: ConfigModel, a: Seq<Seq<char>>, b: Seq<Seq<char>>, no: nat)
    ensures
        config::with_lines(cfg, a, no).1 is None ==> config::with_lines(cfg, a + b, no)
            == config::with_lines(config::with_lines(cfg, a, no).0, b, no + a.len()),
        config::with_lines(cfg, a, no).1 is Some ==> config::with_lines(cfg, a + b, no)
            == config::with_lines(cfg, a, no),
    decreases a.len(),
{
    if a.len() == 0 {
        assert(a + b =~= b);
    } else {
        assert((a + b)[0] == a[0]);
        assert((a + b).drop_first() =~= a.drop_first() + b);
        if let Ok(next) = config::with_line(cfg, a[0]) {
            lines_in_turn(next, a.drop_first(), b, no + 1);
        }
    }
}

/// One line of a file: what it says is taken over, or it is reported, the first one as
/// line 1; the lines behind it follow.
pub proof fn first_line_of_a_file(cfg: ConfigModel, line: Seq<char>, rest: Seq<char>)
    requires
        !line.contains('\n'),
        !text::closes_with(line, '\r'),
    ensures
        match config::with_line(cfg, line) {
            Ok(next) => config::with_file(cfg, line + seq!['\n'] + rest) == config::with_lines(
                next,
                text::lines_of(rest),
                2,
            ),
            Err(problem) => config::with_file(cfg, line + seq!['\n'] + rest) == (
                cfg,
                Some((1nat, problem)),
            ),
        },
        config::with_file(cfg, Seq::<char>::empty()) == (cfg, None::<(nat, ProblemModel)>),
{
    laws::text::lines_come_one_by_one(line, rest);
    let all = seq![line] + text::lines_of(rest);
    assert(all.drop_first() =~= text::lines_of(rest));
}

/// What is said of a line that is wrong: the file, the number of the line, and what is
/// the matter with it.
pub proof fn messages_of_a_file(origin: Seq<char>, line: nat, s: Seq<char>)
    ensures
        config::said(origin, line, ProblemModel::NoValue) == origin + ":"@ + number::decimal_of(line)
            + ": "@ + "expected `key = value`"@,
        config::said(origin, line, ProblemModel::BadPort(s)) == origin + ":"@ + number::decimal_of(
            line,
        ) + ": "@ + "bad port"@,
        config::said(origin, line, ProblemModel::BadInterval(s)) == origin + ":"@
            + number::decimal_of(line) + ": "@ + "interval must be milliseconds"@,
        config::said(origin, line, ProblemModel::UnknownKey(s)) == origin + ":"@
            + number::decimal_of(line) + ": "@ + ("unknown key '"@ + s + "'"@),
{
}

/// Without a configuration file the device is looked for on this machine, at the usual
/// port, and polled every two seconds, with nobody logged in.
pub proof fn settings_without_a_file()
    ensures
        args::from_file(None) == (
            ConfigModel {
                ups: None,
                host: "localhost"@,
                port: 3493,
                user: None,
                pass: None,
                interval_ms: 2000,
                once: false,
                basic: false,
            },
            None::<(nat, ProblemModel)>,
        ),
{
}

/// A configuration file is taken over what holds without one.
pub proof fn file_over_the_defaults(file: ConfigFile)
    ensures
        args::from_file(Some(file)) == config::with_file(args::from_file(None).0, file.contents@),
{
}

// -------------------------------------------------------------- environment

/// The program's own variable counts where it is there and not empty, else the common
/// one where that is, else what was set before. Nothing else changes.
pub proof fn environment_in_turn(cfg: ConfigModel, env: Environment, a: Seq<char>, b: Seq<char>)
    ensures
        text::opt_view(env.own_user) == Some(a) && a.len() > 0 ==> config::with_environment(
            cfg,
            env,
        ).user == Some(a),
        args::says_nothing(env.own_user) && text::opt_view(env.nut_user) == Some(b) && b.len() > 0
            ==> config::with_environment(cfg, env).user == Some(b),
        args::says_nothing(env.own_user) && args::says_nothing(env.nut_user)
            ==> config::with_environment(cfg, env).user == cfg.user,
        text::opt_view(env.own_pass) == Some(a) && a.len() > 0 ==> config::with_environment(
            cfg,
            env,
        ).pass == Some(a),
        args::says_nothing(env.own_pass) && text::opt_view(env.nut_pass) == Some(b) && b.len() > 0
            ==> config::with_environment(cfg, env).pass == Some(b),
        args::says_nothing(env.own_pass) && args::says_nothing(env.nut_pass)
            ==> config::with_environment(cfg, env).pass == cfg.pass,
        config::with_environment(cfg, env) == (ConfigModel {
            user: config::with_environment(cfg, env).user,
            pass: config::with_environment(cfg, env).pass,
            ..cfg
        }),
{
}

// ------------------------------------------------------------- command line

/// Each option sets its own field, and the arguments behind it follow.
pub proof fn options_set_their_fields(cfg: ConfigModel, v: Seq<char>, ms: u64, rest: Seq<Seq<char>>)
    ensures
        args::with_args(cfg, seq!["--user"@, v] + rest) == args::with_args(
            ConfigModel { user: Some(v), ..cfg },
            rest,
        ),
        args::with_args(cfg, seq!["--password"@, v] + rest) == args::with_args(
            ConfigModel { pass: Some(v), ..cfg },
            rest,
        ),
        args::with_args(cfg, seq!["--interval"@, number::decimal_of(ms as nat)] + rest)
            == args::with_args(ConfigModel { interval_ms: ms, ..cfg }, rest),
        args::with_args(cfg, seq!["--once"@] + rest) == args::with_args(
            ConfigModel { once: true, ..cfg },
            rest,
        ),
        args::with_args(cfg, seq!["-b"@] + rest) == args::with_args(
            ConfigModel { basic: true, ..cfg },
            rest,
        ),
        args::with_args(cfg, seq!["--basic"@] + rest) == args::with_args(
            ConfigModel { basic: true, ..cfg },
            rest,
        ),
        args::with_args(cfg, Seq::<Seq<char>>::empty()) == Outcome::Run(cfg),
{
    lemma_options();
    let w = number::decimal_of(ms as nat);
    number::decimal_reads_back(ms as nat, 0xffff_ffff_ffff_ffff);
    assert((seq!["--user"@, v] + rest).skip(2) =~= rest);
    assert((seq!["--password"@, v] + rest).skip(2) =~= rest);
    assert((seq!["--interval"@, w] + rest).skip(2) =~= rest);
    assert((seq!["--once"@] + rest).skip(1) =~= rest);
    assert((seq!["-b"@] + rest).skip(1) =~= rest);
    assert((seq!["--basic"@] + rest).skip(1) =~= rest);
}

proof fn lemma_options()
    ensures
        "--user"@.len() == 6,
        "--password"@.len() == 10,
        "--interval"@.len() == 10,
        "--once"@.len() == 6,
        "-b"@.len() == 2,
        "--basic"@.len() == 7,
        "-h"@.len() == 2,
        "--help"@.len() == 6,
        "--user"@ != "--once"@,
        "--user"@ != "--help"@,
        "--once"@ != "--help"@,
        "--password"@ != "--interval"@,
        "-b"@ != "-h"@,
{
    reveal_strlit("--user");
    reveal_strlit("--password");
    reveal_strlit("--interval");
    reveal_strlit("--once");
    reveal_strlit("-b");
    reveal_strlit("--basic");
    reveal_strlit("-h");
    reveal_strlit("--help");
    assert("--user"@[2] == 'u' && "--once"@[2] == 'o' && "--help"@[2] == 'h');
    assert("--password"@[2] == 'p' && "--interval"@[2] == 'i');
    assert("-b"@[1] == 'b' && "-h"@[1] == 'h');
}

/// Who asks for help gets it, whatever follows. An option that takes a value needs one;
/// a number of milliseconds has to be one; any other option is refused, and named.
pub proof fn wrong_options_are_refused(
    cfg: ConfigModel,
    v: Seq<char>,
    option: Seq<char>,
    rest: Seq<Seq<char>>,
)
    ensures
        args::with_args(cfg, seq!["-h"@] + rest) is Help,
        args::with_args(cfg, seq!["--help"@] + rest) is Help,
        args::with_args(cfg, seq!["--user"@]) == Outcome::Wrong(ArgProblem::NeedsValue("--user"@)),
        args::with_args(cfg, seq!["--password"@]) == Outcome::Wrong(
            ArgProblem::NeedsValue("--password"@),
        ),
        args::with_args(cfg, seq!["--interval"@]) == Outcome::Wrong(
            ArgProblem::NeedsValue("--interval"@),
        ),
        number::whole_number(v, 0xffff_ffff_ffff_ffff) is None ==> args::with_args(
            cfg,
            seq!["--interval"@, v] + rest,
        ) == Outcome::Wrong(ArgProblem::BadInterval(v)),
        text::opens_with(option, '-') && option != "-h"@ && option != "--help"@ && option
            != "--user"@ && option != "--password"@ && option != "--interval"@ && option != "--once"@
            && option != "-b"@ && option != "--basic"@ ==> args::with_args(cfg, seq![option] + rest)
            == Outcome::Wrong(ArgProblem::UnknownOption(option)),
{
    lemma_options();
}

/// What is said of a command line that is wrong.
pub proof fn messages_of_a_command_line(s: Seq<char>)
    ensures
        args::said(ArgProblem::NeedsValue(s)) == s + " needs a value"@,
        args::said(ArgProblem::BadInterval(s)) == "--interval must be milliseconds"@,
        args::said(ArgProblem::BadPort(s)) == "bad port"@,
        args::said(ArgProblem::UnknownOption(s)) == "unknown option '"@ + s + "', see --help"@,
{
}

/// An argument that is no option names the device, and behind `@` the host and behind
/// `:` the port. What it leaves out stays as it is.
pub proof fn argument_names_the_device(
    cfg: ConfigModel,
    ups: Seq<char>,
    host: Seq<char>,
    port: u16,
    rest: Seq<Seq<char>>,
)
    requires
        !ups.contains('@'),
        !text::opens_with(ups, '-'),
        !host.contains(':'),
    ensures
        ups.len() > 0 ==> args::with_args(cfg, seq![ups] + rest) == args::with_args(
            ConfigModel { ups: Some(ups), ..cfg },
            rest,
        ),
        ups.len() > 0 ==> args::with_args(cfg, seq![ups + seq!['@'] + host] + rest)
            == args::with_args(ConfigModel { ups: Some(ups), host, ..cfg }, rest),
        ups.len() > 0 ==> args::with_args(
            cfg,
            seq![ups + seq!['@'] + (host + seq![':'] + number::decimal_of(port as nat))] + rest,
        ) == args::with_args(ConfigModel { ups: Some(ups), host, port, ..cfg }, rest),
        args::with_args(cfg, seq![seq!['@'] + host] + rest) == args::with_args(
            ConfigModel { host, ..cfg },
            rest,
        ),
        args::with_args(
            cfg,
            seq![seq!['@'] + (host + seq![':'] + number::decimal_of(port as nat))] + rest,
        ) == args::with_args(ConfigModel { host, port, ..cfg }, rest),
{
    let none = Seq::<char>::empty();
    let p = number::decimal_of(port as nat);
    let place = host + seq![':'] + p;
    laws::text::split_takes_apart(ups, '@', host);
    laws::text::split_takes_apart(ups, '@', place);
    laws::text::split_takes_apart(none, '@', host);
    laws::text::split_takes_apart(none, '@', place);
    assert(none + seq!['@'] + host =~= seq!['@'] + host);
    assert(none + seq!['@'] + place =~= seq!['@'] + place);
    laws::text::split_takes_apart(host, ':', p);
    number::decimal_reads_back(port as nat, 65535);
    if ups.len() > 0 {
        lemma_word(cfg, ups, rest);
        assert((ups + seq!['@'] + host)[0] == ups[0]);
        lemma_word(cfg, ups + seq!['@'] + host, rest);
        assert((ups + seq!['@'] + place)[0] == ups[0]);
        lemma_word(cfg, ups + seq!['@'] + place, rest);
    }
    lemma_word(cfg, seq!['@'] + host, rest);
    lemma_word(cfg, seq!['@'] + place, rest);
}

/// An empty argument says nothing.
pub proof fn empty_argument_says_nothing(cfg: ConfigModel, rest: Seq<Seq<char>>)
    ensures
        args::with_args(cfg, seq![Seq::<char>::empty()] + rest) == args::with_args(cfg, rest),
{
    let none = Seq::<char>::empty();
    laws::text::split_takes_apart(none, '@', none);
    lemma_word(cfg, none, rest);
}

/// A port that is no number from 0 to 65535 is refused.
pub proof fn bad_port_is_refused(
    cfg: ConfigModel,
    ups: Seq<char>,
    host: Seq<char>,
    port: Seq<char>,
    rest: Seq<Seq<char>>,
)
    requires
        !ups.contains('@'),
        !text::opens_with(ups, '-'),
        !host.contains(':'),
        number::whole_number(port, 65535) is None,
    ensures
        args::with_args(cfg, seq![ups + seq!['@'] + (host + seq![':'] + port)] + rest)
            == Outcome::Wrong(ArgProblem::BadPort(port)),
{
    let place = host + seq![':'] + port;
    let word = ups + seq!['@'] + place;
    laws::text::split_takes_apart(ups, '@', place);
    laws::text::split_takes_apart(host, ':', port);
    assert(word[0] == if ups.len() > 0 {
        ups[0]
    } else {
        '@'
    });
    lemma_word(cfg, word, rest);
}

/// An argument with a port that is none still gives the device and the host; the port
/// stays, and what stands in its place is told.
pub proof fn bad_port_leaves_the_port(
    cfg: ConfigModel,
    ups: Seq<char>,
    host: Seq<char>,
    port: Seq<char>,
)
    requires
        ups.len() > 0,
        !ups.contains('@'),
        !host.contains(':'),
        number::whole_number(port, 65535) is None,
    ensures
        args::with_spec(cfg, ups + seq!['@'] + (host + seq![':'] + port)) == (
            ConfigModel { ups: Some(ups), host, ..cfg },
            Some(port),
        ),
        args::with_spec(cfg, seq!['@'] + (host + seq![':'] + port)) == (
            ConfigModel { host, ..cfg },
            Some(port),
        ),
{
    let none = Seq::<char>::empty();
    let place = host + seq![':'] + port;
    laws::text::split_takes_apart(ups, '@', place);
    laws::text::split_takes_apart(none, '@', place);
    assert(none + seq!['@'] + place =~= seq!['@'] + place);
    laws::text::split_takes_apart(host, ':', port);
}

proof fn lemma_word(cfg: ConfigModel, word: Seq<char>, rest: Seq<Seq<char>>)
    requires
        !text::opens_with(word, '-'),
    ensures
        args::with_args(cfg, seq![word] + rest) == match args::with_spec(cfg, word) {
            (next, None) => args::with_args(next, rest),
            (_, Some(port)) => Outcome::Wrong(ArgProblem::BadPort(port)),
        },
{
    reveal_strlit("--user");
    reveal_strlit("--password");
    reveal_strlit("--interval");
    reveal_strlit("--once");
    reveal_strlit("-b");
    reveal_strlit("--basic");
    reveal_strlit("-h");
    reveal_strlit("--help");
    assert("--user"@[0] == '-' && "--password"@[0] == '-' && "--interval"@[0] == '-');
    assert("--once"@[0] == '-' && "-b"@[0] == '-' && "--basic"@[0] == '-');
    assert("-h"@[0] == '-' && "--help"@[0] == '-');
    assert((seq![word] + rest).skip(1) =~= rest);
}

/// Command line over environment over configuration file, for the user: a user that the
/// command line gives last counts; without one, one that the environment gives; without
/// either, one of the file. The same goes for the password.
pub proof fn command_line_over_environment_over_file(
    file: Option<ConfigFile>,
    env: Environment,
    words: Seq<Seq<char>>,
    cfg: ConfigModel,
    v: Seq<char>,
)
    requires
        args::with_args(config::with_environment(args::from_file(file).0, env), words)
            == Outcome::Run(cfg),
    ensures
        args::given(words, "--user"@) == Some(v) ==> cfg.user == Some(v),
        args::given(words, "--user"@) is None && text::opt_view(env.own_user) == Some(v) && v.len()
            > 0 ==> cfg.user == Some(v),
        args::given(words, "--user"@) is None && args::says_nothing(env.own_user)
            && args::says_nothing(env.nut_user) ==> cfg.user == args::from_file(file).0.user,
        args::given(words, "--password"@) == Some(v) ==> cfg.pass == Some(v),
        args::given(words, "--password"@) is None && text::opt_view(env.own_pass) == Some(v)
            && v.len() > 0 ==> cfg.pass == Some(v),
        args::given(words, "--password"@) is None && args::says_nothing(env.own_pass)
            && args::says_nothing(env.nut_pass) ==> cfg.pass == args::from_file(file).0.pass,
{
    args::sources_take_precedence(file, env, words);
}

} // verus!
