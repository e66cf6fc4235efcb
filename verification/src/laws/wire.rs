//! Promises of the line protocol: what a request says, what a reply means, and what
//! becomes of an exchange.

use vstd::prelude::*;

use crate::auth;
use crate::auth::{AuthStage, AuthedModel};
use crate::client;
use crate::client::{ActionModel, DialTaskModel, EventModel, ExchangeModel, Stage};
use crate::laws;
use crate::number;
use crate::nut;
use crate::quote;
use crate::text;
use crate::vars;

verus! {

// ---------------------------------------------------------------- requests

/// A request for a list is one line: the word LIST, what is to be listed, and the
/// device, if there is one.
pub proof fn list_request_in_fields(what: Seq<char>, arg: Seq<char>)
    requires
        !what.contains(' '),
        !arg.contains(' '),
    ensures
        ({
            let req = nut::list_request(what, arg);
            let line = req.drop_last();
            &&& req.last() == '\n'
            &&& text::field_of(line, 0) == Some("LIST"@)
            &&& text::field_of(line, 1) == Some(what)
            &&& text::field_of(line, 2) == if arg.len() > 0 {
                Some(arg)
            } else {
                None
            }
            &&& text::field_of(line, 3) is None
        }),
{
    reveal_strlit("LIST ");
    reveal_strlit("LIST");
    reveal_strlit(" ");
    reveal_strlit("\n");
    let list = "LIST"@;
    let line = nut::list_request(what, arg).drop_last();
    if arg.len() > 0 {
        assert(line =~= list + seq![' '] + (what + seq![' '] + arg));
        laws::text::fields_come_one_by_one(list, what + seq![' '] + arg, 0);
        laws::text::fields_come_one_by_one(list, what + seq![' '] + arg, 1);
        laws::text::fields_come_one_by_one(list, what + seq![' '] + arg, 2);
        laws::text::fields_come_one_by_one(what, arg, 0);
        laws::text::fields_come_one_by_one(what, arg, 1);
        laws::text::fields_come_one_by_one(arg, arg, 0);
    } else {
        assert(line =~= list + seq![' '] + what);
        laws::text::fields_come_one_by_one(list, what, 0);
        laws::text::fields_come_one_by_one(list, what, 1);
        laws::text::fields_come_one_by_one(list, what, 2);
        laws::text::fields_come_one_by_one(what, what, 0);
        laws::text::fields_come_one_by_one(what, what, 1);
    }
}

proof fn lemma_four_fields(a: Seq<char>, b: Seq<char>, c: Seq<char>, rest: Seq<char>)
    requires
        !a.contains(' '),
        !b.contains(' '),
        !c.contains(' '),
    ensures
        ({
            let l = a + seq![' '] + (b + seq![' '] + (c + seq![' '] + rest));
            &&& text::field_of(l, 0) == Some(a)
            &&& text::field_of(l, 1) == Some(b)
            &&& text::field_of(l, 2) == Some(c)
            &&& text::field_of(l, 3) == text::field_of(rest, 0)
            &&& text::behind_spaces(l, 3) == Some(rest)
        }),
{
    let l3 = c + seq![' '] + rest;
    let l2 = b + seq![' '] + l3;
    laws::text::fields_come_one_by_one(a, l2, 0);
    laws::text::fields_come_one_by_one(a, l2, 1);
    laws::text::fields_come_one_by_one(a, l2, 2);
    laws::text::fields_come_one_by_one(b, l3, 0);
    laws::text::fields_come_one_by_one(b, l3, 1);
    laws::text::fields_come_one_by_one(c, rest, 0);
}

/// A request for a description is one line that names the device and the command, and
/// so is a request to run a command; one to set a variable names the device and the
/// variable, with the value in quotation marks behind them.
pub proof fn requests_in_fields(ups: Seq<char>, name: Seq<char>, value: Seq<char>)
    requires
        !ups.contains(' '),
        !name.contains(' '),
    ensures
        ({
            let desc = nut::desc_request(ups, name);
            let inst = nut::inst_request(ups, name);
            let change = nut::set_request(ups, name, value);
            &&& desc.last() == '\n' && inst.last() == '\n' && change.last() == '\n'
            &&& text::field_of(desc.drop_last(), 0) == Some("GET"@)
            &&& text::field_of(desc.drop_last(), 1) == Some("CMDDESC"@)
            &&& text::field_of(desc.drop_last(), 2) == Some(ups)
            &&& text::behind_spaces(desc.drop_last(), 3) == Some(name)
            &&& text::field_of(inst.drop_last(), 0) == Some("INSTCMD"@)
            &&& text::field_of(inst.drop_last(), 1) == Some(ups)
            &&& text::behind_spaces(inst.drop_last(), 2) == Some(name)
            &&& text::field_of(change, 0) == Some("SET"@)
            &&& text::field_of(change, 1) == Some("VAR"@)
            &&& text::field_of(change, 2) == Some(ups)
            &&& text::field_of(change, 3) == Some(name)
            &&& text::behind_spaces(change, 4) == Some(quote::quoted(value).push('\n'))
            &&& quote::unquoted(quote::quoted(value).push('\n')) == value
        }),
{
    reveal_strlit("GET CMDDESC ");
    reveal_strlit("GET");
    reveal_strlit("CMDDESC");
    reveal_strlit("INSTCMD ");
    reveal_strlit("INSTCMD");
    reveal_strlit("SET VAR ");
    reveal_strlit("SET");
    reveal_strlit("VAR");
    reveal_strlit(" ");
    reveal_strlit(" \"");
    reveal_strlit("\"\n");
    reveal_strlit("\n");
    let desc = nut::desc_request(ups, name).drop_last();
    assert(desc =~= "GET"@ + seq![' '] + ("CMDDESC"@ + seq![' '] + (ups + seq![' '] + name)));
    lemma_four_fields("GET"@, "CMDDESC"@, ups, name);
    let inst = nut::inst_request(ups, name).drop_last();
    assert(inst =~= "INSTCMD"@ + seq![' '] + (ups + seq![' '] + name));
    laws::text::fields_come_one_by_one("INSTCMD"@, ups + seq![' '] + name, 0);
    laws::text::fields_come_one_by_one("INSTCMD"@, ups + seq![' '] + name, 1);
    laws::text::fields_come_one_by_one(ups, name, 0);
    let tail = quote::quoted(value).push('\n');
    let behind = name + seq![' '] + tail;
    let change = nut::set_request(ups, name, value);
    assert(change =~= "SET"@ + seq![' '] + ("VAR"@ + seq![' '] + (ups + seq![' '] + behind)));
    lemma_four_fields("SET"@, "VAR"@, ups, behind);
    laws::text::fields_come_one_by_one(name, tail, 0);
    laws::text::fields_come_one_by_one("SET"@, "VAR"@ + seq![' '] + (ups + seq![' '] + behind), 3);
    laws::text::fields_come_one_by_one("VAR"@, ups + seq![' '] + behind, 2);
    laws::text::fields_come_one_by_one(ups, behind, 1);
    let end = seq!['\n'];
    quote::unquoted_undoes_quoted(value, Seq::empty(), end);
    assert(Seq::<char>::empty() + quote::quoted(value) + end =~= tail);
}

// ----------------------------------------------------------------- replies

/// Of a list of things that may be missing, those that are there are kept, in order.
pub proof fn what_is_there_is_kept<T>(a: Seq<Option<T>>, b: Seq<Option<T>>, x: T)
    ensures
        nut::kept(a + b) == nut::kept(a) + nut::kept(b),
        nut::kept(seq![Some(x)]) == seq![x],
        nut::kept(seq![None::<T>]) == Seq::<T>::empty(),
    decreases b.len(),
{
    assert(seq![Some(x)].drop_last() =~= Seq::<Option<T>>::empty());
    assert(seq![None::<T>].drop_last() =~= Seq::<Option<T>>::empty());
    assert(nut::kept(Seq::<Option<T>>::empty()) =~= Seq::<T>::empty());
    assert(nut::kept(seq![Some(x)]) =~= seq![x]);
    if b.len() == 0 {
        assert(a + b =~= a);
        assert(nut::kept(a) + nut::kept(b) =~= nut::kept(a));
    } else {
        what_is_there_is_kept(a, b.drop_last(), x);
        assert((a + b).drop_last() =~= a + b.drop_last());
        assert((a + b).last() == b.last());
        assert(nut::kept(a + b) =~= nut::kept(a) + nut::kept(b));
    }
}

/// Replies are read line by line: what two parts of a reply say is what they say one
/// after the other.
pub proof fn replies_are_read_line_by_line(a: Seq<Seq<char>>, b: Seq<Seq<char>>, tag: Seq<char>)
    ensures
        nut::ups_entries(a + b) == nut::ups_entries(a) + nut::ups_entries(b),
        nut::cmd_names(a + b) == nut::cmd_names(a) + nut::cmd_names(b),
        nut::tagged_lines(a + b, tag) == nut::tagged_lines(a, tag) + nut::tagged_lines(b, tag),
        nut::rw_names(a + b) == nut::rw_names(a) + nut::rw_names(b),
{
    let e = |l: Seq<char>| nut::ups_entry(l);
    let n = |l: Seq<char>| text::field_of(l, 2);
    let t = |l: Seq<char>| nut::tagged(l, tag);
    let w = |l: Seq<char>| nut::tagged(l, "RW"@);
    let first = |p: (Seq<char>, Seq<char>)| p.0;
    assert((a + b).map_values(e) =~= a.map_values(e) + b.map_values(e));
    assert((a + b).map_values(n) =~= a.map_values(n) + b.map_values(n));
    assert((a + b).map_values(t) =~= a.map_values(t) + b.map_values(t));
    assert((a + b).map_values(w) =~= a.map_values(w) + b.map_values(w));
    let some = (Seq::<char>::empty(), Seq::<char>::empty());
    what_is_there_is_kept(a.map_values(e), b.map_values(e), some);
    what_is_there_is_kept(a.map_values(n), b.map_values(n), Seq::empty());
    what_is_there_is_kept(a.map_values(t), b.map_values(t), some);
    what_is_there_is_kept(a.map_values(w), b.map_values(w), some);
    let x = nut::tagged_lines(a, "RW"@);
    let y = nut::tagged_lines(b, "RW"@);
    assert((x + y).map_values(first) =~= x.map_values(first) + y.map_values(first));
}

/// A line that lists a device gives its name and its description.
pub proof fn device_line_reads_back(name: Seq<char>, desc: Seq<char>)
    requires
        !name.contains(' '),
    ensures
        nut::ups_entries(seq!["UPS "@ + name + seq![' '] + quote::quoted(desc)]) == seq![(name, desc)],
        nut::ups_entries(seq!["UPS "@ + name]) == seq![(name, Seq::<char>::empty())],
{
    let rest = name + seq![' '] + quote::quoted(desc);
    let line = "UPS "@ + name + seq![' '] + quote::quoted(desc);
    assert(line =~= "UPS "@ + rest);
    laws::text::prefix_comes_off(rest, "UPS "@);
    laws::text::split_takes_apart(name, ' ', quote::quoted(desc));
    quote::unquoted_undoes_quoted(desc, Seq::empty(), Seq::empty());
    assert(Seq::<char>::empty() + quote::quoted(desc) + Seq::<char>::empty() =~= quote::quoted(desc));
    let e = |l: Seq<char>| nut::ups_entry(l);
    assert(seq![line].map_values(e) =~= seq![Some((name, desc))]);
    what_is_there_is_kept(Seq::empty(), Seq::empty(), (name, desc));
    nut::device_without_description_is_listed(name);
    let none = (name, Seq::<char>::empty());
    assert(seq!["UPS "@ + name].map_values(e) =~= seq![Some(none)]);
    what_is_there_is_kept(Seq::empty(), Seq::empty(), none);
}

/// A line that does not start with `UPS ` lists no device.
pub proof fn other_lines_list_no_device(line: Seq<char>)
    requires
        !"UPS "@.is_prefix_of(line),
    ensures
        nut::ups_entries(seq![line]).len() == 0,
{
    let e = |l: Seq<char>| nut::ups_entry(l);
    assert(seq![line].map_values(e) =~= seq![None::<(Seq<char>, Seq<char>)>]);
    what_is_there_is_kept(Seq::empty(), Seq::empty(), (line, line));
}

/// A line that lists a command gives its name, the third field; a line with fewer
/// fields gives none.
pub proof fn command_line_reads_back(tag: Seq<char>, ups: Seq<char>, name: Seq<char>)
    requires
        !tag.contains(' '),
        !ups.contains(' '),
        !name.contains(' '),
    ensures
        nut::cmd_names(seq![tag + seq![' '] + (ups + seq![' '] + name)]) == seq![name],
        nut::cmd_names(seq![tag + seq![' '] + ups]).len() == 0,
{
    let n = |l: Seq<char>| text::field_of(l, 2);
    let line = tag + seq![' '] + (ups + seq![' '] + name);
    laws::text::fields_come_one_by_one(tag, ups + seq![' '] + name, 1);
    laws::text::fields_come_one_by_one(ups, name, 0);
    laws::text::fields_come_one_by_one(name, name, 0);
    assert(seq![line].map_values(n) =~= seq![Some(name)]);
    let short = tag + seq![' '] + ups;
    laws::text::fields_come_one_by_one(tag, ups, 1);
    laws::text::fields_come_one_by_one(ups, ups, 0);
    assert(seq![short].map_values(n) =~= seq![None::<Seq<char>>]);
    what_is_there_is_kept(Seq::empty(), Seq::empty(), name);
}

/// A line with another tag, or without a value, gives no variable.
pub proof fn other_lines_give_no_variable(
    first: Seq<char>,
    rest: Seq<char>,
    ups: Seq<char>,
    name: Seq<char>,
    tag: Seq<char>,
)
    requires
        !first.contains(' '),
        !ups.contains(' '),
        !name.contains(' '),
    ensures
        first != tag ==> nut::tagged(first + seq![' '] + rest, tag) is None,
        nut::tagged(first + seq![' '] + (ups + seq![' '] + name), tag) is None,
        nut::tagged(first, tag) is None,
{
    laws::text::fields_come_one_by_one(first, rest, 0);
    let line = first + seq![' '] + (ups + seq![' '] + name);
    laws::text::fields_come_one_by_one(first, ups + seq![' '] + name, 2);
    laws::text::fields_come_one_by_one(ups, name, 1);
    laws::text::fields_come_one_by_one(name, name, 0);
    laws::text::fields_come_one_by_one(first, rest, 2);
}

/// A reply that calls a variable writable gives its name, and one that gives a value
/// gives both, whatever characters the value holds.
pub proof fn variable_lines_read_back(ups: Seq<char>, name: Seq<char>, value: Seq<char>)
    requires
        !ups.contains(' '),
        !name.contains(' '),
    ensures
        ({
            let behind = ups + seq![' '] + (name + seq![' '] + quote::quoted(value));
            &&& nut::rw_names(seq!["RW"@ + seq![' '] + behind]) == seq![name]
            &&& nut::var_values(seq!["VAR"@ + seq![' '] + behind]) == Map::empty().insert(name, value)
            &&& nut::rw_names(seq!["VAR"@ + seq![' '] + behind]).len() == 0
            &&& nut::var_values(seq!["RW"@ + seq![' '] + behind]) == Map::<
                Seq<char>,
                Seq<char>,
            >::empty()
        }),
{
    reveal_strlit("RW");
    reveal_strlit("VAR");
    let q = quote::quoted(value);
    let behind = ups + seq![' '] + (name + seq![' '] + q);
    let none = Seq::<char>::empty();
    nut::tagged_line_reads_back("RW"@, ups, name, value, none);
    nut::tagged_line_reads_back("VAR"@, ups, name, value, none);
    assert(q + none =~= q);
    let rw = "RW"@ + seq![' '] + behind;
    let var = "VAR"@ + seq![' '] + behind;
    assert("RW"@.len() != "VAR"@.len());
    other_lines_give_no_variable("RW"@, behind, none, none, "VAR"@);
    other_lines_give_no_variable("VAR"@, behind, none, none, "RW"@);
    let t = |l: Seq<char>| nut::tagged(l, "VAR"@);
    let w = |l: Seq<char>| nut::tagged(l, "RW"@);
    let pair = (name, value);
    assert(seq![rw].map_values(w) =~= seq![Some(pair)]);
    assert(seq![var].map_values(t) =~= seq![Some(pair)]);
    assert(seq![rw].map_values(t) =~= seq![None::<(Seq<char>, Seq<char>)>]);
    assert(seq![var].map_values(w) =~= seq![None::<(Seq<char>, Seq<char>)>]);
    what_is_there_is_kept(Seq::empty(), Seq::empty(), pair);
    let first = |p: (Seq<char>, Seq<char>)| p.0;
    assert(seq![pair].map_values(first) =~= seq![name]);
    assert(seq![pair].drop_last() =~= Seq::<(Seq<char>, Seq<char>)>::empty());
    assert(vars::map_of(seq![pair].drop_last()) =~= Map::empty());
    assert(vars::map_of(seq![pair]) =~= Map::empty().insert(name, value));
}

/// A variable that no line of a reply names has no value.
pub proof fn unnamed_variable_has_no_value(lines: Seq<Seq<char>>, name: Seq<char>)
    requires
        forall|i: int|
            0 <= i < lines.len() ==> (nut::tagged(#[trigger] lines[i], "VAR"@) matches Some((other, _))
                ==> other != name),
    ensures
        vars::value_in(nut::var_values(lines), name) is None,
    decreases lines.len(),
{
    let t = |l: Seq<char>| nut::tagged(l, "VAR"@);
    let found = lines.map_values(t);
    if lines.len() > 0 {
        let rest = lines.drop_last();
        assert forall|i: int| 0 <= i < rest.len() implies (nut::tagged(#[trigger] rest[i], "VAR"@) matches Some(
            (other, _),
        ) ==> other != name) by {
            assert(rest[i] == lines[i]);
        }
        unnamed_variable_has_no_value(rest, name);
        assert(found.drop_last() =~= rest.map_values(t));
        assert(found.last() == nut::tagged(lines[lines.len() - 1], "VAR"@));
        if let Some(pair) = found.last() {
            assert(nut::kept(found.drop_last()).push(pair).drop_last() =~= nut::kept(
                found.drop_last(),
            ));
        }
    }
}

/// The description of a command is what the reply quotes, but for the word with which
/// a driver says that it has none.
pub proof fn description_reads_back(ups: Seq<char>, cmd: Seq<char>, desc: Seq<char>)
    requires
        !ups.contains(' '),
        !cmd.contains(' '),
    ensures
        ({
            let line = "CMDDESC"@ + seq![' '] + (ups + seq![' '] + (cmd + seq![' '] + quote::quoted(
                desc,
            )));
            &&& desc != "Unavailable"@ ==> nut::description(line) == desc
            &&& desc == "Unavailable"@ ==> nut::description(line).len() == 0
        }),
{
    reveal_strlit("CMDDESC");
    lemma_four_fields("CMDDESC"@, ups, cmd, quote::quoted(desc));
    let none = Seq::<char>::empty();
    quote::unquoted_undoes_quoted(desc, none, none);
    assert(none + quote::quoted(desc) + none =~= quote::quoted(desc));
}

/// The lines of a reply, whatever stands behind the names: a device with what is said of
/// it, a command, a variable with its value, a description. What is quoted loses its
/// marks.
pub proof fn lines_in_general(
    tag: Seq<char>,
    ups: Seq<char>,
    name: Seq<char>,
    rest: Seq<char>,
)
    requires
        !tag.contains(' '),
        !ups.contains(' '),
        !name.contains(' '),
    ensures
        ({
            let line = tag + seq![' '] + (ups + seq![' '] + (name + seq![' '] + rest));
            &&& nut::ups_entry("UPS "@ + (name + seq![' '] + rest)) == Some(
                (name, quote::unquoted(rest)),
            )
            &&& nut::cmd_names(seq![line]) == seq![name]
            &&& nut::tagged(line, tag) == Some((name, quote::unquoted(rest)))
            &&& quote::unquoted(rest) != "Unavailable"@ ==> nut::description(line)
                == quote::unquoted(rest)
            &&& quote::unquoted(rest) == "Unavailable"@ ==> nut::description(line).len() == 0
            &&& nut::description(tag + seq![' '] + (ups + seq![' '] + name)).len() == 0
        }),
{
    let line = tag + seq![' '] + (ups + seq![' '] + (name + seq![' '] + rest));
    laws::text::prefix_comes_off(name + seq![' '] + rest, "UPS "@);
    laws::text::split_takes_apart(name, ' ', rest);
    lemma_four_fields(tag, ups, name, rest);
    let n = |l: Seq<char>| text::field_of(l, 2);
    assert(seq![line].map_values(n) =~= seq![Some(name)]);
    what_is_there_is_kept(Seq::empty(), Seq::empty(), name);
    laws::text::fields_come_one_by_one(tag, ups + seq![' '] + name, 2);
    laws::text::fields_come_one_by_one(ups, name, 1);
    laws::text::fields_come_one_by_one(name, name, 0);
}

// --------------------------------------------------------------- exchanges

/// A client without a connection opens one before anything else, and then does what one
/// with a connection does: it sends its request, once, and reads.
pub proof fn exchange_starts(request: Seq<char>, listing: bool)
    ensures
        client::asks(client::fresh(false, request, listing)) == ActionModel::Open,
        client::after(client::fresh(false, request, listing), EventModel::Opened) == client::fresh(
            true,
            request,
            listing,
        ),
        client::connected_after(
            false,
            client::fresh(false, request, listing),
            EventModel::Opened,
        ),
        client::asks(client::fresh(true, request, listing)) == ActionModel::Send(request),
        client::asks(client::after(client::fresh(true, request, listing), EventModel::Sent))
            == ActionModel::Read,
        client::fresh(true, request, listing).lines.len() == 0,
{
}

/// Whether an exchange waits for a line of its reply.
pub open spec fn reading(ex: ExchangeModel) -> bool {
    client::asks(ex) == ActionModel::Read
}

/// An error in place of a list ends the exchange, and says why.
pub proof fn error_reply_fails_a_list(ex: ExchangeModel, why: Seq<char>, gap: Seq<char>)
    requires
        reading(ex),
        ex.listing,
        why.len() > 0,
        !text::white(why.last()),
        laws::text::blank(gap),
    ensures
        ({
            let end = client::after(ex, EventModel::Line("ERR "@ + why + gap));
            &&& client::asks(end) == ActionModel::Done
            &&& end.stage == Stage::Failed
            &&& end.error == "upsd: "@ + why
        }),
{
    reveal_strlit("ERR ");
    reveal_strlit("BEGIN ");
    reveal_strlit("END ");
    let line = "ERR "@ + why;
    assert(line.last() == why.last());
    laws::text::trailing_space_comes_off(line, gap);
    laws::text::prefix_comes_off(why, "ERR "@);
    assert(line[0] == 'E' && line[1] == 'R');
    assert("BEGIN "@[0] == 'B' && "END "@[1] == 'N');
}

/// Each line of a list that is neither a frame nor an error is an item, without the
/// white space behind it, and the list goes on.
pub proof fn items_are_collected(ex: ExchangeModel, item: Seq<char>, gap: Seq<char>)
    requires
        reading(ex),
        ex.listing,
        laws::text::blank(gap),
        item.len() == 0 || !text::white(item.last()),
        !"BEGIN "@.is_prefix_of(item),
        !"END "@.is_prefix_of(item),
        !"ERR "@.is_prefix_of(item),
    ensures
        client::after(ex, EventModel::Line(item + gap)) == (ExchangeModel {
            lines: ex.lines.push(item),
            ..ex
        }),
{
    laws::text::trailing_space_comes_off(item, gap);
}

/// A reply of one line ends with that line, whatever it says.
pub proof fn single_line_ends_the_exchange(ex: ExchangeModel, line: Seq<char>, gap: Seq<char>)
    requires
        reading(ex),
        !ex.listing,
        laws::text::blank(gap),
        line.len() == 0 || !text::white(line.last()),
    ensures
        ({
            let end = client::after(ex, EventModel::Line(line + gap));
            &&& end.stage == Stage::Finished
            &&& end.lines == ex.lines.push(line)
            &&& client::asks(end) == ActionModel::Done
        }),
{
    laws::text::trailing_space_comes_off(line, gap);
}

/// Whatever fails while an exchange is under way ends it with that reason, and so does a
/// server that hangs up. What has ended stays as it is.
pub proof fn failures_end_the_exchange(ex: ExchangeModel, why: Seq<char>, ev: EventModel)
    ensures
        !(client::asks(ex) is Done) ==> {
            let end = client::after(ex, EventModel::Failed(why));
            end.stage == Stage::Failed && end.error == why && !client::connected_after(
                true,
                ex,
                EventModel::Failed(why),
            )
        },
        reading(ex) ==> {
            let end = client::after(ex, EventModel::Eof);
            end.stage == Stage::Failed && end.error == "connection closed by upsd"@
                && !client::connected_after(true, ex, EventModel::Eof)
        },
        client::asks(ex) is Done ==> client::after(ex, ev) == ex,
{
}

/// The steps of an exchange: once the connection is open the request is sent, once it is
/// sent the reply is read. The first line of a list changes nothing, and the last one
/// ends it.
pub proof fn steps_of_an_exchange(ex: ExchangeModel, rest: Seq<char>, gap: Seq<char>)
    requires
        laws::text::blank(gap),
        rest.len() > 0,
        !text::white(rest.last()),
    ensures
        ex.stage == Stage::Opening ==> client::after(ex, EventModel::Opened) == (ExchangeModel {
            stage: Stage::Sending,
            ..ex
        }),
        ex.stage == Stage::Sending ==> client::after(ex, EventModel::Sent) == (ExchangeModel {
            stage: Stage::Reading,
            ..ex
        }),
        ex.stage == Stage::Reading && ex.listing ==> client::after(
            ex,
            EventModel::Line("BEGIN "@ + rest + gap),
        ) == ex,
        ex.stage == Stage::Reading && ex.listing ==> client::after(
            ex,
            EventModel::Line("END "@ + rest + gap),
        ) == (ExchangeModel { stage: Stage::Finished, ..ex }),
{
    reveal_strlit("BEGIN ");
    reveal_strlit("END ");
    let first = "BEGIN "@ + rest;
    let last = "END "@ + rest;
    assert(first.last() == rest.last() && last.last() == rest.last());
    laws::text::trailing_space_comes_off(first, gap);
    laws::text::trailing_space_comes_off(last, gap);
    laws::text::prefix_comes_off(rest, "BEGIN "@);
    laws::text::prefix_comes_off(rest, "END "@);
    assert(last[0] == 'E' && "BEGIN "@[0] == 'B');
}

/// Whether an event answers what an exchange asks for.
pub open spec fn is_answer(asked: ActionModel, ev: EventModel) -> bool {
    match asked {
        ActionModel::Open => ev is Opened || ev is Failed,
        ActionModel::Send(_) => ev is Sent || ev is Failed,
        ActionModel::Read => ev is Line || ev is Eof || ev is Failed,
        ActionModel::Done => false,
    }
}

/// What does not answer an exchange changes nothing, and so it is with a login. Whether
/// there is a connection changes only by opening one and by a failure.
pub proof fn what_is_no_answer_changes_nothing(
    ex: ExchangeModel,
    a: AuthedModel,
    ev: EventModel,
    connected: bool,
)
    ensures
        !is_answer(client::asks(ex), ev) ==> client::after(ex, ev) == ex
            && client::connected_after(connected, ex, ev) == connected,
        !is_answer(auth::asks(a), ev) ==> auth::after(a, ev) == a,
        is_answer(client::asks(ex), ev) && client::after(ex, ev).stage == Stage::Failed
            ==> !client::connected_after(connected, ex, ev),
        is_answer(client::asks(ex), ev) && client::after(ex, ev).stage != Stage::Failed
            ==> client::connected_after(connected, ex, ev) == (connected || ev is Opened),
        client::after(ex, ev).request == ex.request && client::after(ex, ev).listing == ex.listing,
        auth::after(a, ev).host == a.host && auth::after(a, ev).port == a.port,
        auth::after(a, ev).user == a.user && auth::after(a, ev).pass == a.pass,
        auth::after(a, ev).request == a.request,
{
}

/// A server that hangs up during a login is taken to have said nothing.
pub proof fn hanging_up_says_nothing(a: AuthedModel)
    ensures
        a.stage == AuthStage::ReadUser ==> auth::after(a, EventModel::Eof) == (AuthedModel {
            stage: AuthStage::Failed,
            outcome: "USERNAME: "@,
            ..a
        }),
        a.stage == AuthStage::ReadPassword ==> auth::after(a, EventModel::Eof) == (AuthedModel {
            stage: AuthStage::Failed,
            outcome: "PASSWORD: "@,
            ..a
        }),
        a.stage == AuthStage::ReadReply ==> auth::after(a, EventModel::Eof) == (AuthedModel {
            stage: AuthStage::Finished,
            outcome: Seq::empty(),
            ..a
        }),
{
    reveal_strlit("OK");
    let none = Seq::<char>::empty();
    laws::text::trailing_space_comes_off(none, none);
    assert(none + none =~= none);
    assert("USERNAME: "@ + none =~= "USERNAME: "@);
    assert("PASSWORD: "@ + none =~= "PASSWORD: "@);
}

/// A server is named by its host and, behind a colon, its port in decimal notation.
pub proof fn address_reads_back(host: Seq<char>, port: u16)
    requires
        !host.contains(':'),
    ensures
        text::split_at_first(client::address(host, port), ':') matches Some((h, p)) && h == host
            && number::whole_number(p, 65535) == Some(port as int),
{
    reveal_strlit(":");
    let p = number::decimal_of(port as nat);
    assert(client::address(host, port) =~= host + seq![':'] + p);
    laws::text::split_takes_apart(host, ':', p);
    number::decimal_reads_back(port as nat, 65535);
}

/// Of the addresses of a server, each that refuses is followed by the next, one that
/// accepts is used, and when none is left the last refusal is told with the server's
/// name.
pub proof fn addresses_in_turn(d: client::DialerModel, why: Seq<char>)
    requires
        !d.accepted,
        0 <= d.refused < d.addresses,
    ensures
        client::dial_task(d) == DialTaskModel::Try(d.refused),
        client::dial_task(client::after_try(d, None)) == DialTaskModel::Use(d.refused),
        d.refused + 1 < d.addresses ==> client::dial_task(client::after_try(d, Some(why)))
            == DialTaskModel::Try(d.refused + 1),
        d.refused + 1 == d.addresses ==> client::dial_task(client::after_try(d, Some(why)))
            == DialTaskModel::GiveUp(
            "connect "@ + client::address(d.host, d.port) + ": "@ + why,
        ),
{
}

/// Once an address has accepted it is used whatever is said of others, and once all have
/// refused there is nothing more to try.
pub proof fn dialing_ends(d: client::DialerModel, refusal: Option<Seq<char>>)
    ensures
        d.accepted ==> client::dial_task(d) == DialTaskModel::Use(d.refused),
        d.accepted || d.refused >= d.addresses ==> client::after_try(d, refusal) == d,
        !d.accepted && d.refused >= d.addresses && d.last is None ==> client::dial_task(d)
            == DialTaskModel::GiveUp(
            "connect "@ + client::address(d.host, d.port) + ": "@
                + "hostname resolved to no addresses"@,
        ),
{
}

// ------------------------------------------------------------------- login

/// A request whose user and password the server accepts sends both and then itself, in
/// this order, and ends with the reply to it.
pub proof fn accepted_login_runs_the_request(
    host: Seq<char>,
    port: u16,
    user: Seq<char>,
    pass: Seq<char>,
    request: Seq<char>,
    x: Seq<char>,
    y: Seq<char>,
    reply: Seq<char>,
    gap: Seq<char>,
)
    requires
        laws::text::blank(gap),
        reply.len() == 0 || !text::white(reply.last()),
        x.len() == 0 || !text::white(x.last()),
        y.len() == 0 || !text::white(y.last()),
    ensures
        ({
            let a0 = auth::fresh(host, port, user, pass, request);
            let a1 = auth::after(a0, EventModel::Opened);
            let a2 = auth::after(a1, EventModel::Sent);
            let a3 = auth::after(a2, EventModel::Line("OK"@ + x));
            let a4 = auth::after(a3, EventModel::Sent);
            let a5 = auth::after(a4, EventModel::Line("OK"@ + y));
            let a6 = auth::after(a5, EventModel::Sent);
            let a7 = auth::after(a6, EventModel::Line(reply + gap));
            &&& auth::asks(a0) == ActionModel::Open
            &&& auth::asks(a1) == ActionModel::Send("USERNAME "@ + user + "\n"@)
            &&& auth::asks(a2) == ActionModel::Read
            &&& auth::asks(a3) == ActionModel::Send("PASSWORD "@ + pass + "\n"@)
            &&& auth::asks(a4) == ActionModel::Read
            &&& auth::asks(a5) == ActionModel::Send(request)
            &&& auth::asks(a6) == ActionModel::Read
            &&& auth::asks(a7) == ActionModel::Done
            &&& a7.stage == AuthStage::Finished
            &&& a7.outcome == reply
            &&& a7.host == host && a7.port == port
        }),
{
    lemma_accepted(x);
    lemma_accepted(y);
    laws::text::trailing_space_comes_off(reply, gap);
}

proof fn lemma_accepted(x: Seq<char>)
    requires
        x.len() == 0 || !text::white(x.last()),
    ensures
        auth::accepts("OK"@ + x),
{
    reveal_strlit("OK");
    let s = "OK"@ + x;
    let none = Seq::<char>::empty();
    assert(s.last() == if x.len() > 0 {
        x.last()
    } else {
        'K'
    });
    laws::text::trailing_space_comes_off(s, none);
    assert(s + none =~= s);
    assert(s.subrange(0, 2) =~= "OK"@);
}

/// A server that does not accept the user, or the password, ends the request with its
/// words; nothing more is sent. So does a failure, with its reason.
pub proof fn refused_login_ends_the_request(
    a: AuthedModel,
    reply: Seq<char>,
    gap: Seq<char>,
    why: Seq<char>,
)
    requires
        laws::text::blank(gap),
        reply.len() == 0 || !text::white(reply.last()),
        !"OK"@.is_prefix_of(reply),
    ensures
        a.stage == AuthStage::ReadUser ==> auth::after(a, EventModel::Line(reply + gap)) == (
        AuthedModel { stage: AuthStage::Failed, outcome: "USERNAME: "@ + reply, ..a }),
        a.stage == AuthStage::ReadPassword ==> auth::after(a, EventModel::Line(reply + gap)) == (
        AuthedModel { stage: AuthStage::Failed, outcome: "PASSWORD: "@ + reply, ..a }),
        !(auth::asks(a) is Done) ==> auth::after(a, EventModel::Failed(why)) == (AuthedModel {
            stage: AuthStage::Failed,
            outcome: why,
            ..a
        }),
        a.stage == AuthStage::ReadUser ==> auth::after(a, EventModel::Eof).stage
            == AuthStage::Failed,
        a.stage == AuthStage::ReadPassword ==> auth::after(a, EventModel::Eof).stage
            == AuthStage::Failed,
        a.stage == AuthStage::Failed || a.stage == AuthStage::Finished ==> auth::asks(a) is Done,
{
    laws::text::trailing_space_comes_off(reply, gap);
    reveal_strlit("OK");
    let none = Seq::<char>::empty();
    laws::text::trailing_space_comes_off(none, none);
    assert(none + none =~= none);
}

} // verus!
