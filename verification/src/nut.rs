//! The line protocol of `upsd`: what is sent, and what the replies mean.

use vstd::prelude::*;

use crate::quote;
use crate::text;
use crate::vars;
use crate::vars::VarMap;

verus! {

// ---------------------------------------------------------- what is sent

/// The request for a list of `what`, of the device `arg` where there is one.
pub open spec fn list_request(what: Seq<char>, arg: Seq<char>) -> Seq<char> {
    if arg.len() == 0 {
        "LIST "@ + what + "\n"@
    } else {
        "LIST "@ + what + " "@ + arg + "\n"@
    }
}

/// The request for the description of a command.
pub open spec fn desc_request(ups: Seq<char>, cmd: Seq<char>) -> Seq<char> {
    "GET CMDDESC "@ + ups + " "@ + cmd + "\n"@
}

/// The request to run an instant command.
pub open spec fn inst_request(ups: Seq<char>, cmd: Seq<char>) -> Seq<char> {
    "INSTCMD "@ + ups + " "@ + cmd + "\n"@
}

/// The request to give a variable a value.
pub open spec fn set_request(ups: Seq<char>, name: Seq<char>, value: Seq<char>) -> Seq<char> {
    "SET VAR "@ + ups + " "@ + name + " \""@ + quote::escaped(value) + "\"\n"@
}

/// Writes the request for a list.
pub fn list_line(what: &str, arg: &str) -> (res: String)
    ensures
        res@ == list_request(what@, arg@),
{
    let mut out: String = "LIST ".to_owned();
    out.append(what);
    if arg.unicode_len() > 0 {
        out.append(" ");
        out.append(arg);
    }
    out.append("\n");
    out
}

/// Writes the request for the description of a command.
pub fn desc_line(ups: &str, cmd: &str) -> (res: String)
    ensures
        res@ == desc_request(ups@, cmd@),
{
    let mut out: String = "GET CMDDESC ".to_owned();
    out.append(ups);
    out.append(" ");
    out.append(cmd);
    out.append("\n");
    out
}

/// Writes the request to run an instant command.
pub fn inst_line(ups: &str, cmd: &str) -> (res: String)
    ensures
        res@ == inst_request(ups@, cmd@),
{
    let mut out: String = "INSTCMD ".to_owned();
    out.append(ups);
    out.append(" ");
    out.append(cmd);
    out.append("\n");
    out
}

/// Writes the request to give a variable a value.
pub fn set_var_line(ups: &str, name: &str, value: &str) -> (res: String)
    ensures
        res@ == set_request(ups@, name@, value@),
{
    let mut out: String = "SET VAR ".to_owned();
    out.append(ups);
    out.append(" ");
    out.append(name);
    out.append(" \"");
    out.append(quote::quote_value(value).as_str());
    out.append("\"\n");
    out
}

// ----------------------------------------------------- what a reply means

/// The items that are there, in order.
pub open spec fn kept<T>(s: Seq<Option<T>>) -> Seq<T>
    decreases s.len(),
{
    if s.len() == 0 {
        Seq::empty()
    } else {
        match s.last() {
            Some(x) => kept(s.drop_last()).push(x),
            None => kept(s.drop_last()),
        }
    }
}

/// What a `<TAG> <ups> <name> "<value>"` line says: the name and the value.
pub open spec fn tagged(l: Seq<char>, tag: Seq<char>) -> Option<(Seq<char>, Seq<char>)> {
    match (text::field_of(l, 0), text::field_of(l, 2), text::behind_spaces(l, 3)) {
        (Some(t), Some(name), Some(value)) => if t == tag {
            Some((name, quote::unquoted(value)))
        } else {
            None
        },
        _ => None,
    }
}

/// What a `UPS <name> "<description>"` line says. The description may be
/// missing.
pub open spec fn ups_entry(l: Seq<char>) -> Option<(Seq<char>, Seq<char>)> {
    match text::without_prefix(l, "UPS "@) {
        Some(rest) => match text::split_at_first(rest, ' ') {
            Some((name, desc)) => Some((name, quote::unquoted(desc))),
            None => Some((rest, quote::unquoted(""@))),
        },
        None => None,
    }
}

/// The devices that the lines of a reply name, with their descriptions.
pub open spec fn ups_entries(lines: Seq<Seq<char>>) -> Seq<(Seq<char>, Seq<char>)> {
    kept(lines.map_values(|l: Seq<char>| ups_entry(l)))
}

/// The commands that the lines of a reply name: the third field of each line
/// that has one.
pub open spec fn cmd_names(lines: Seq<Seq<char>>) -> Seq<Seq<char>> {
    kept(lines.map_values(|l: Seq<char>| text::field_of(l, 2)))
}

/// The names and values of the lines with the given tag.
pub open spec fn tagged_lines(lines: Seq<Seq<char>>, tag: Seq<char>) -> Seq<(Seq<char>, Seq<char>)> {
    kept(lines.map_values(|l: Seq<char>| tagged(l, tag)))
}

/// The variables that the lines of a reply give; the last value of a name counts.
pub open spec fn var_values(lines: Seq<Seq<char>>) -> Map<Seq<char>, Seq<char>> {
    vars::map_of(tagged_lines(lines, "VAR"@))
}

/// The names of the variables that the lines of a reply call writable.
pub open spec fn rw_names(lines: Seq<Seq<char>>) -> Seq<Seq<char>> {
    tagged_lines(lines, "RW"@).map_values(|p: (Seq<char>, Seq<char>)| p.0)
}

/// The description in a `CMDDESC <ups> <cmd> "<description>"` line. A driver
/// that has none says "Unavailable".
pub open spec fn description(l: Seq<char>) -> Seq<char> {
    match text::behind_spaces(l, 3) {
        Some(d) => if quote::unquoted(d) == "Unavailable"@ {
            Seq::empty()
        } else {
            quote::unquoted(d)
        },
        None => Seq::empty(),
    }
}

/// Parses a `<TAG> <ups> <name> "<value>"` response line (TAG is VAR or RW).
pub fn parse_tagged_line(l: &str, tag: &str) -> (res: Option<(String, String)>)
    ensures
        match res {
            Some((name, value)) => tagged(l@, tag@) == Some((name@, value@)),
            None => tagged(l@, tag@) is None,
        },
{
    let first: &str = match text::field(l, 0) {
        Some(t) => t,
        None => {
            return None;
        },
    };
    if !text::same(first, tag) {
        return None;
    }
    match (text::field(l, 2), text::after_spaces(l, 3)) {
        (Some(name), Some(value)) => Some((name.to_owned(), quote::unquote(value))),
        _ => None,
    }
}

/// Reads the reply to `LIST UPS`.
pub fn ups_in(lines: &Vec<String>) -> (res: Vec<(String, String)>)
    ensures
        text::pairs_view(res@) == ups_entries(text::strings_view(lines@)),
{
    let ghost all = text::strings_view(lines@);
    let ghost entries = all.map_values(|l: Seq<char>| ups_entry(l));
    let mut out: Vec<(String, String)> = Vec::new();
    let mut i: usize = 0;
    assert(entries.take(0) =~= Seq::empty());
    while i < lines.len()
        invariant
            i <= lines@.len(),
            all == text::strings_view(lines@),
            entries == all.map_values(|l: Seq<char>| ups_entry(l)),
            text::pairs_view(out@) == kept(entries.take(i as int)),
        decreases lines@.len() - i,
    {
        let ghost before = out@;
        proof {
            assert(entries.take(i + 1).drop_last() =~= entries.take(i as int));
            assert(entries.take(i + 1).last() == ups_entry(lines@[i as int]@));
        }
        if let Some(rest) = text::strip_prefix(lines[i].as_str(), "UPS ") {
            let (name, desc) = match text::split_once(rest, ' ') {
                Some((name, desc)) => (name, desc),
                None => (rest, ""),
            };
            out.push((name.to_owned(), quote::unquote(desc)));
            assert(text::pairs_view(out@) =~= text::pairs_view(before).push(
                (name@, quote::unquoted(desc@)),
            ));
        }
        i = i + 1;
    }
    assert(entries.take(i as int) =~= entries);
    out
}

/// Reads the names in the reply to `LIST CMD`.
pub fn cmds_in(lines: &Vec<String>) -> (res: Vec<String>)
    ensures
        text::strings_view(res@) == cmd_names(text::strings_view(lines@)),
{
    let ghost all = text::strings_view(lines@);
    let ghost names = all.map_values(|l: Seq<char>| text::field_of(l, 2));
    let mut out: Vec<String> = Vec::new();
    let mut i: usize = 0;
    assert(names.take(0) =~= Seq::empty());
    while i < lines.len()
        invariant
            i <= lines@.len(),
            all == text::strings_view(lines@),
            names == all.map_values(|l: Seq<char>| text::field_of(l, 2)),
            text::strings_view(out@) == kept(names.take(i as int)),
        decreases lines@.len() - i,
    {
        let ghost before = out@;
        proof {
            assert(names.take(i + 1).drop_last() =~= names.take(i as int));
            assert(names.take(i + 1).last() == text::field_of(lines@[i as int]@, 2));
        }
        if let Some(name) = text::field(lines[i].as_str(), 2) {
            out.push(name.to_owned());
            assert(text::strings_view(out@) =~= text::strings_view(before).push(name@));
        }
        i = i + 1;
    }
    assert(names.take(i as int) =~= names);
    out
}

/// Reads the lines with the given tag.
fn tagged_in(lines: &Vec<String>, tag: &str) -> (res: Vec<(String, String)>)
    ensures
        text::pairs_view(res@) == tagged_lines(text::strings_view(lines@), tag@),
{
    let ghost all = text::strings_view(lines@);
    let ghost found = all.map_values(|l: Seq<char>| tagged(l, tag@));
    let mut out: Vec<(String, String)> = Vec::new();
    let mut i: usize = 0;
    assert(found.take(0) =~= Seq::empty());
    while i < lines.len()
        invariant
            i <= lines@.len(),
            all == text::strings_view(lines@),
            found == all.map_values(|l: Seq<char>| tagged(l, tag@)),
            text::pairs_view(out@) == kept(found.take(i as int)),
        decreases lines@.len() - i,
    {
        let ghost before = out@;
        proof {
            assert(found.take(i + 1).drop_last() =~= found.take(i as int));
            assert(found.take(i + 1).last() == tagged(lines@[i as int]@, tag@));
        }
        if let Some(pair) = parse_tagged_line(lines[i].as_str(), tag) {
            let ghost p = (pair.0@, pair.1@);
            out.push(pair);
            assert(text::pairs_view(out@) =~= text::pairs_view(before).push(p));
        }
        i = i + 1;
    }
    assert(found.take(i as int) =~= found);
    out
}

/// Reads the reply to `LIST VAR`.
pub fn vars_in(lines: &Vec<String>) -> (res: VarMap)
    ensures
        res@ == var_values(text::strings_view(lines@)),
{
    let pairs: Vec<(String, String)> = tagged_in(lines, "VAR");
    let ghost all = text::pairs_view(pairs@);
    let mut map = VarMap::new();
    let mut i: usize = 0;
    assert(all.take(0) =~= Seq::empty());
    while i < pairs.len()
        invariant
            i <= pairs@.len(),
            all == text::pairs_view(pairs@),
            map@ == vars::map_of(all.take(i as int)),
        decreases pairs@.len() - i,
    {
        assert(all.take(i + 1).drop_last() =~= all.take(i as int));
        assert(all.take(i + 1).last() == (pairs@[i as int].0@, pairs@[i as int].1@));
        map.insert(pairs[i].0.clone(), pairs[i].1.clone());
        i = i + 1;
    }
    assert(all.take(i as int) =~= all);
    map
}

/// Reads the names in the reply to `LIST RW`.
pub fn rw_in(lines: &Vec<String>) -> (res: Vec<String>)
    ensures
        text::strings_view(res@) == rw_names(text::strings_view(lines@)),
{
    let pairs: Vec<(String, String)> = tagged_in(lines, "RW");
    let ghost all = text::pairs_view(pairs@).map_values(|p: (Seq<char>, Seq<char>)| p.0);
    let mut out: Vec<String> = Vec::new();
    let mut i: usize = 0;
    assert(all.take(0) =~= Seq::empty());
    while i < pairs.len()
        invariant
            i <= pairs@.len(),
            all == text::pairs_view(pairs@).map_values(|p: (Seq<char>, Seq<char>)| p.0),
            text::strings_view(out@) == all.take(i as int),
        decreases pairs@.len() - i,
    {
        let ghost before = text::strings_view(out@);
        out.push(pairs[i].0.clone());
        assert(text::strings_view(out@) =~= before.push(pairs@[i as int].0@));
        assert(all.take(i + 1) =~= all.take(i as int).push(pairs@[i as int].0@));
        i = i + 1;
    }
    assert(all.take(i as int) =~= all);
    out
}

/// Reads the reply to `GET CMDDESC`.
pub fn description_in(l: &str) -> (res: String)
    ensures
        res@ == description(l@),
{
    match text::after_spaces(l, 3) {
        Some(d) => {
            let desc: String = quote::unquote(d);
            if text::same(desc.as_str(), "Unavailable") {
                String::new()
            } else {
                desc
            }
        },
        None => String::new(),
    }
}

// -------------------------------------------------------------------- laws

/// A text without spaces, then a space: the field ends there.
proof fn lemma_skip_field(a: Seq<char>, rest: Seq<char>)
    requires
        !a.contains(' '),
    ensures
        text::find(a + seq![' '] + rest, ' ') == a.len(),
        (a + seq![' '] + rest).take(a.len() as int) == a,
        forall|n: nat|
            n > 0 ==> #[trigger] text::behind_spaces(a + seq![' '] + rest, n)
                == text::behind_spaces(rest, (n - 1) as nat),
{
    let s = a + seq![' '] + rest;
    text::lemma_find_is(s, ' ', a.len() as int);
    assert(s.take(a.len() as int) =~= a);
    assert(s.skip(a.len() as int + 1) =~= rest);
}

/// A line that gives a variable its quoted value is read back: the name and the
/// value come out as they went in, whatever characters the value holds. White
/// space at the end of the line does no harm.
pub proof fn tagged_line_reads_back(
    tag: Seq<char>,
    ups: Seq<char>,
    name: Seq<char>,
    value: Seq<char>,
    end: Seq<char>,
)
    requires
        !tag.contains(' '),
        !ups.contains(' '),
        !name.contains(' '),
        forall|i: int| 0 <= i < end.len() ==> text::white(#[trigger] end[i]),
    ensures
        tagged(
            tag + seq![' '] + (ups + seq![' '] + (name + seq![' '] + (quote::quoted(value) + end))),
            tag,
        ) == Some((name, value)),
{
    let l3 = quote::quoted(value) + end;
    let l2 = name + seq![' '] + l3;
    let l1 = ups + seq![' '] + l2;
    let l0 = tag + seq![' '] + l1;
    lemma_skip_field(tag, l1);
    lemma_skip_field(ups, l2);
    lemma_skip_field(name, l3);
    assert(text::behind_spaces(l0, 0) == Some(l0));
    assert(text::behind_spaces(l0, 2) == text::behind_spaces(l1, 1));
    assert(text::behind_spaces(l1, 1) == text::behind_spaces(l2, 0));
    assert(text::behind_spaces(l0, 3) == text::behind_spaces(l1, 2));
    assert(text::behind_spaces(l1, 2) == text::behind_spaces(l2, 1));
    assert(text::behind_spaces(l2, 1) == text::behind_spaces(l3, 0));
    quote::unquoted_undoes_quoted(value, Seq::empty(), end);
    assert(Seq::<char>::empty() + quote::quoted(value) + end =~= l3);
}

/// What a request sets is what a reply in the same words reports: behind its
/// first word, the request is a `VAR` line that gives the variable the value.
pub proof fn set_request_reads_back(ups: Seq<char>, name: Seq<char>, value: Seq<char>)
    requires
        !ups.contains(' '),
        !name.contains(' '),
    ensures
        text::split_at_first(set_request(ups, name, value), ' ') matches Some((word, line))
            && word == "SET"@ && tagged(line, "VAR"@) == Some((name, value)),
{
    reveal_strlit("SET VAR ");
    reveal_strlit("SET");
    reveal_strlit("VAR");
    reveal_strlit(" ");
    reveal_strlit(" \"");
    reveal_strlit("\"\n");
    let end = seq!['\n'];
    let line = "VAR"@ + seq![' '] + (ups + seq![' '] + (name + seq![' '] + (quote::quoted(value)
        + end)));
    assert(set_request(ups, name, value) =~= "SET"@ + seq![' '] + line);
    lemma_skip_field("SET"@, line);
    assert(("SET"@ + seq![' '] + line).skip(4) =~= line);
    tagged_line_reads_back("VAR"@, ups, name, value, end);
}

/// A variable has the value that the last line of a reply which names it gives.
pub proof fn last_line_for_a_name_counts(
    before: Seq<Seq<char>>,
    line: Seq<char>,
    behind: Seq<Seq<char>>,
    name: Seq<char>,
    value: Seq<char>,
)
    requires
        tagged(line, "VAR"@) == Some((name, value)),
        forall|i: int|
            0 <= i < behind.len() ==> (tagged(#[trigger] behind[i], "VAR"@) matches Some((other, _))
                ==> other != name),
    ensures
        vars::value_in(var_values(before.push(line) + behind), name) == Some(value),
    decreases behind.len(),
{
    let all = before.push(line) + behind;
    let found = all.map_values(|l: Seq<char>| tagged(l, "VAR"@));
    let shorter = found.drop_last();
    assert(found.last() == tagged(all.last(), "VAR"@));
    if behind.len() == 0 {
        assert(all =~= before.push(line));
        assert(tagged_lines(all, "VAR"@) == kept(shorter).push((name, value)));
        assert(kept(shorter).push((name, value)).drop_last() =~= kept(shorter));
    } else {
        let rest = behind.drop_last();
        assert(all.drop_last() =~= before.push(line) + rest);
        assert forall|i: int| 0 <= i < rest.len() implies (tagged(#[trigger] rest[i], "VAR"@) matches Some(
            (other, _),
        ) ==> other != name) by {
            assert(rest[i] == behind[i]);
        }
        last_line_for_a_name_counts(before, line, rest, name, value);
        assert(shorter =~= (before.push(line) + rest).map_values(
            |l: Seq<char>| tagged(l, "VAR"@),
        ));
        assert(all.last() == behind[behind.len() - 1]);
        if let Some(pair) = found.last() {
            assert(kept(shorter).push(pair).drop_last() =~= kept(shorter));
        }
    }
}

/// A device whose description is missing is not left out: it is listed with an
/// empty one.
pub proof fn device_without_description_is_listed(name: Seq<char>)
    requires
        !name.contains(' '),
    ensures
        ups_entry("UPS "@ + name) == Some((name, Seq::<char>::empty())),
{
    let l = "UPS "@ + name;
    assert(l.skip("UPS "@.len() as int) =~= name);
    assert("UPS "@.is_prefix_of(l)) by {
        assert(l.subrange(0, "UPS "@.len() as int) =~= "UPS "@);
    }
    text::lemma_find_is(name, ' ', name.len() as int);
    reveal_strlit("");
    assert(""@ =~= Seq::<char>::empty());
    assert(quote::unquoted(""@) =~= Seq::<char>::empty());
}

/// What the polling connection carries is no part of a login: its requests start
/// neither with a user name nor with a password.
pub proof fn polling_never_logs_in(what: Seq<char>, arg: Seq<char>, ups: Seq<char>, cmd: Seq<char>)
    ensures
        !"USERNAME "@.is_prefix_of(list_request(what, arg)),
        !"PASSWORD "@.is_prefix_of(list_request(what, arg)),
        !"USERNAME "@.is_prefix_of(desc_request(ups, cmd)),
        !"PASSWORD "@.is_prefix_of(desc_request(ups, cmd)),
{
    reveal_strlit("USERNAME ");
    reveal_strlit("PASSWORD ");
    reveal_strlit("LIST ");
    reveal_strlit("GET CMDDESC ");
    assert(list_request(what, arg)[0] == 'L');
    assert(desc_request(ups, cmd)[0] == 'G');
    assert("USERNAME "@[0] == 'U');
    assert("PASSWORD "@[0] == 'P');
}

} // verus!
