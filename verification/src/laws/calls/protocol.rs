//! What the calls of the line protocol promise: requests, replies, exchanges, logins and
//! the polling side.

use vstd::prelude::*;

use crate::app::WorkerCmd;
use crate::auth;
use crate::auth::{AuthStage, AuthedLine};
use crate::client;
use crate::client::{
    Action, ActionModel, CmdListing, DialTask, Dialer, Event, EventModel, Exchange, NutClient, Stage,
};
use crate::laws;
use crate::number;
use crate::nut;
use crate::quote;
use crate::text;
use crate::vars::VarMap;
use crate::worker;
use crate::worker::{Phase, Report, Task, TaskModel, Worker};

verus! {

// ----------------------------------------------------------------- requests

/// The lines that are sent, each ended by a line feed. The value of a variable stands
/// escaped between quotation marks.
pub proof fn writing_requests(
    what: &str,
    arg: &str,
    ups: &str,
    name: &str,
    value: &str,
    list: String,
    desc: String,
    inst: String,
    change: String,
)
    requires
        call_ensures(nut::list_line, (what, arg), list),
        call_ensures(nut::desc_line, (ups, name), desc),
        call_ensures(nut::inst_line, (ups, name), inst),
        call_ensures(nut::set_var_line, (ups, name, value), change),
    ensures
        arg@.len() == 0 ==> list@ == "LIST "@ + what@ + "\n"@,
        arg@.len() > 0 ==> list@ == "LIST "@ + what@ + " "@ + arg@ + "\n"@,
        desc@ == "GET CMDDESC "@ + ups@ + " "@ + name@ + "\n"@,
        inst@ == "INSTCMD "@ + ups@ + " "@ + name@ + "\n"@,
        change@ == "SET VAR "@ + ups@ + " "@ + name@ + " "@ + quote::quoted(value@) + "\n"@,
{
    reveal_strlit(" \"");
    reveal_strlit(" ");
    reveal_strlit("\"\n");
    reveal_strlit("\n");
    assert(change@ =~= "SET VAR "@ + ups@ + " "@ + name@ + " "@ + quote::quoted(value@) + "\n"@);
}

// ------------------------------------------------------------------ replies

/// Replies are read as the lines say: the devices, the commands, the variables, the ones
/// that can be set, a tagged line, a description.
pub proof fn reading_replies(
    lines: &Vec<String>,
    l: &str,
    tag: &str,
    devices: Vec<(String, String)>,
    cmds: Vec<String>,
    values: VarMap,
    rw: Vec<String>,
    pair: Option<(String, String)>,
    desc: String,
)
    requires
        call_ensures(nut::ups_in, (lines,), devices),
        call_ensures(nut::cmds_in, (lines,), cmds),
        call_ensures(nut::vars_in, (lines,), values),
        call_ensures(nut::rw_in, (lines,), rw),
        call_ensures(nut::parse_tagged_line, (l, tag), pair),
        call_ensures(nut::description_in, (l,), desc),
    ensures
        ({
            let all = text::strings_view(lines@);
            &&& text::pairs_view(devices@) == nut::ups_entries(all)
            &&& text::strings_view(cmds@) == nut::cmd_names(all)
            &&& values@ == nut::var_values(all)
            &&& text::strings_view(rw@) == nut::rw_names(all)
            &&& pair is None ==> nut::tagged(l@, tag@) is None
            &&& pair matches Some(p) ==> nut::tagged(l@, tag@) == Some((p.0@, p.1@))
            &&& desc@ == nut::description(l@)
        }),
{
}

/// A line that gives a variable its quoted value is read as that variable and value.
pub proof fn reading_a_variable(
    l: &str,
    tag: &str,
    ups: Seq<char>,
    name: Seq<char>,
    value: Seq<char>,
    pair: Option<(String, String)>,
)
    requires
        call_ensures(nut::parse_tagged_line, (l, tag), pair),
        !tag@.contains(' '),
        !ups.contains(' '),
        !name.contains(' '),
        l@ == tag@ + seq![' '] + (ups + seq![' '] + (name + seq![' '] + quote::quoted(value))),
    ensures
        pair matches Some(p) && p.0@ == name && p.1@ == value,
{
    let none = Seq::<char>::empty();
    nut::tagged_line_reads_back(tag@, ups, name, value, none);
    assert(quote::quoted(value) + none =~= quote::quoted(value));
}

// ---------------------------------------------------------------- exchanges

/// A new client has no connection. Its requests ask for the lists of the devices, and of
/// the commands, the variables and the settable variables of a device, and for the
/// description of a command.
pub proof fn asking_for_lists(
    c: &NutClient,
    ups: &str,
    cmd: &str,
    host: &str,
    port: u16,
    new: NutClient,
    devices: Exchange,
    cmds: Exchange,
    values: Exchange,
    rw: Exchange,
    desc: Exchange,
)
    requires
        call_ensures(NutClient::new, (host, port), new),
        call_ensures(NutClient::list_ups, (c,), devices),
        call_ensures(NutClient::list_cmds, (c, ups), cmds),
        call_ensures(NutClient::list_vars, (c, ups), values),
        call_ensures(NutClient::list_rw, (c, ups), rw),
        call_ensures(NutClient::cmd_desc, (c, ups, cmd), desc),
        ups@.len() > 0,
    ensures
        new.host@ == host@ && new.port == port && !new.connected,
        devices@.request == "LIST UPS\n"@,
        cmds@.request == "LIST CMD "@ + ups@ + "\n"@,
        values@.request == "LIST VAR "@ + ups@ + "\n"@,
        rw@.request == "LIST RW "@ + ups@ + "\n"@,
        desc@.request == "GET CMDDESC "@ + ups@ + " "@ + cmd@ + "\n"@,
        devices.listing && cmds.listing && values.listing && rw.listing && !desc.listing,
        devices@.lines.len() == 0 && cmds@.lines.len() == 0 && values@.lines.len() == 0,
        rw@.lines.len() == 0 && desc@.lines.len() == 0,
        c.connected ==> client::asks(devices@) == ActionModel::Send(devices@.request),
        !c.connected ==> client::asks(devices@) is Open && client::asks(cmds@) is Open
            && client::asks(values@) is Open && client::asks(rw@) is Open && client::asks(
            desc@,
        ) is Open,
{
    reveal_strlit("");
    reveal_strlit(" ");
    reveal_strlit("\n");
    reveal_strlit("LIST ");
    reveal_strlit("UPS");
    reveal_strlit("CMD");
    reveal_strlit("VAR");
    reveal_strlit("RW");
    reveal_strlit("LIST UPS\n");
    reveal_strlit("LIST CMD ");
    reveal_strlit("LIST VAR ");
    reveal_strlit("LIST RW ");
    assert(devices@.request =~= "LIST UPS\n"@);
    assert(cmds@.request =~= "LIST CMD "@ + ups@ + "\n"@);
    assert(values@.request =~= "LIST VAR "@ + ups@ + "\n"@);
    assert(rw@.request =~= "LIST RW "@ + ups@ + "\n"@);
}

/// An exchange asks for what its stage needs, and an event takes it one step further. The
/// client holds a connection as long as nothing fails, and keeps its server.
pub proof fn stepping_an_exchange(
    c: &mut NutClient,
    ex: &mut Exchange,
    ev: Event,
    other: &Exchange,
    action: Action,
)
    requires
        call_ensures(NutClient::handle, (c, ex, ev), ()),
        call_ensures(Exchange::action, (other,), action),
    ensures
        action@ == client::asks(other@),
        final(ex)@ == client::after(old(ex)@, ev@),
        final(c).connected == client::connected_after(old(c).connected, old(ex)@, ev@),
        final(c).host == old(c).host && final(c).port == old(c).port,
        old(ex).stage != Stage::Failed && final(ex).stage == Stage::Failed ==> !final(c).connected,
        old(c).connected && final(ex).stage != Stage::Failed ==> final(c).connected,
{
    if old(ex).stage != Stage::Failed && final(ex).stage == Stage::Failed {
        client::failure_reconnects(old(c).connected, old(ex)@, ev@, Seq::empty(), true);
    }
    if final(ex).stage != Stage::Failed {
        client::success_keeps_connection(old(ex)@, ev@);
    }
}

/// Commands are described one after the other: the next one is the first without a
/// description, and a reply gives it its description, or an empty one where there is no
/// reply.
pub proof fn describing_commands(
    lines: &Vec<String>,
    listing: &mut CmdListing,
    reply: Option<&str>,
    new: CmdListing,
    next: Option<String>,
)
    requires
        call_ensures(CmdListing::new, (lines,), new),
        call_ensures(CmdListing::next, (&*old(listing),), next),
        call_ensures(CmdListing::describe, (listing, reply), ()),
    ensures
        text::strings_view(new.names@) == nut::cmd_names(text::strings_view(lines@)),
        new.described@.len() == 0,
        final(listing).names@ == old(listing).names@,
        old(listing).described@.len() >= old(listing).names@.len() ==> next is None
            && final(listing).described@ == old(listing).described@,
        old(listing).described@.len() < old(listing).names@.len() ==> {
            let n = old(listing).described@.len() as int;
            let is = final(listing).described@;
            &&& next == Some(old(listing).names@[n])
            &&& is.len() == n + 1
            &&& is[n].0@ == old(listing).names@[n]@
            &&& reply matches Some(l) ==> is[n].1@ == nut::description(l@)
            &&& reply is None ==> is[n].1@.len() == 0
            &&& forall|i: int|
                0 <= i < n ==> (#[trigger] is[i]).0@ == old(listing).described@[i].0@ && is[i].1@
                    == old(listing).described@[i].1@
        },
{
    let was = old(listing).described@;
    let is = final(listing).described@;
    if was.len() < old(listing).names@.len() {
        let n = was.len() as int;
        let a = text::pairs_view(was);
        let b = text::pairs_view(is);
        assert(a.len() == was.len() && b.len() == is.len());
        assert(b[n] == (is[n].0@, is[n].1@));
        assert forall|i: int| 0 <= i < n implies (#[trigger] is[i]).0@ == was[i].0@ && is[i].1@
            == was[i].1@ by {
            assert(b[i] == (is[i].0@, is[i].1@));
            assert(a[i] == (was[i].0@, was[i].1@));
            assert(b[i] == a[i]);
        }
    }
}

/// A server is named by its host and port, and what could not be connected to is told
/// with the last failure, or with the fact that there was no address.
pub proof fn naming_a_server(
    host: &str,
    port: u16,
    why: &str,
    name: String,
    failed: String,
    none: String,
)
    requires
        call_ensures(client::address_text, (host, port), name),
        call_ensures(client::connect_error, (host, port, Some(why)), failed),
        call_ensures(client::connect_error, (host, port, None::<&str>), none),
    ensures
        name@ == host@ + ":"@ + number::decimal_of(port as nat),
        failed@ == "connect "@ + name@ + ": "@ + why@,
        none@ == "connect "@ + name@ + ": "@ + "hostname resolved to no addresses"@,
{
}

/// The addresses of a server are tried in order, the first that accepts is used, and the
/// last refusal is told when none is left.
pub proof fn dialing(
    host: &str,
    port: u16,
    addresses: usize,
    d: &mut Dialer,
    refusal: Option<String>,
    new: Dialer,
    first: DialTask,
    task: DialTask,
)
    requires
        call_ensures(Dialer::new, (host, port, addresses), new),
        call_ensures(Dialer::task, (&new,), first),
        call_ensures(Dialer::tried, (d, refusal), ()),
        call_ensures(Dialer::task, (&*final(d),), task),
        !old(d).accepted,
        old(d).refused < old(d).addresses,
    ensures
        addresses > 0 ==> (first matches DialTask::Try(i) && i == 0),
        addresses == 0 ==> (first matches DialTask::GiveUp(why) && why@ == "connect "@
            + client::address(host@, port) + ": "@ + "hostname resolved to no addresses"@),
        refusal is None ==> (task matches DialTask::Use(i) && i == old(d).refused),
        refusal is Some && old(d).refused + 1 < old(d).addresses ==> (task matches DialTask::Try(i)
            && i == old(d).refused + 1),
        refusal matches Some(r) ==> (old(d).refused + 1 == old(d).addresses ==> (
        task matches DialTask::GiveUp(why) && why@ == "connect "@ + client::address(
            old(d).host@,
            old(d).port,
        ) + ": "@ + r@)),
{
}

// ------------------------------------------------------------------- logins

/// A command and a setting are requests with a login of their own, which have not begun.
pub proof fn preparing_a_login(
    host: &str,
    port: u16,
    ups: &str,
    name: &str,
    value: &str,
    user: &str,
    pass: &str,
    inst: AuthedLine,
    change: AuthedLine,
)
    requires
        call_ensures(auth::instcmd, (host, port, ups, name, user, pass), inst),
        call_ensures(auth::set_var, (host, port, ups, name, value, user, pass), change),
    ensures
        inst.host@ == host@ && inst.port == port && inst.user@ == user@ && inst.pass@ == pass@,
        change.host@ == host@ && change.port == port && change.user@ == user@ && change.pass@
            == pass@,
        inst.request@ == "INSTCMD "@ + ups@ + " "@ + name@ + "\n"@,
        change.request@ == "SET VAR "@ + ups@ + " "@ + name@ + " \""@ + quote::escaped(value@)
            + "\"\n"@,
        inst.stage == AuthStage::Opening && change.stage == AuthStage::Opening,
{
    assert(inst@.host == inst.host@ && inst@.user == inst.user@ && inst@.pass == inst.pass@);
    assert(inst@.request == inst.request@ && inst@.port == inst.port);
    assert(change@.host == change.host@ && change@.user == change.user@);
    assert(change@.pass == change.pass@ && change@.request == change.request@);
}

/// A request with a login asks for what its stage needs, an event takes it one step
/// further, and its result is there once it has ended.
pub proof fn stepping_a_login(
    a: &mut AuthedLine,
    ev: Event,
    b: &AuthedLine,
    action: Action,
    result: Option<Result<String, String>>,
)
    requires
        call_ensures(AuthedLine::handle, (a, ev), ()),
        call_ensures(AuthedLine::action, (b,), action),
        call_ensures(AuthedLine::result, (b,), result),
    ensures
        final(a)@ == auth::after(old(a)@, ev@),
        action@ == auth::asks(b@),
        b.stage == AuthStage::Finished ==> (result matches Some(Ok(reply)) && reply@ == b.outcome@),
        b.stage == AuthStage::Failed ==> (result matches Some(Err(why)) && why@ == b.outcome@),
        b.stage != AuthStage::Finished && b.stage != AuthStage::Failed ==> result is None,
{
}

/// Actions and events are modelled one by one.
pub proof fn model_of_actions_and_events(s: String)
    ensures
        Action::Open@ is Open,
        Action::Send(s)@ == ActionModel::Send(s@),
        Action::Read@ is Read,
        Action::Done@ is Done,
        Event::Opened@ is Opened,
        Event::Sent@ is Sent,
        Event::Line(s)@ == EventModel::Line(s@),
        Event::Eof@ is Eof,
        Event::Failed(s)@ == EventModel::Failed(s@),
{
}

// ------------------------------------------------------------------ polling

/// The polling side starts with a poll, and a report takes it to its next task.
pub proof fn stepping_the_polling_side(
    ups: String,
    host: String,
    port: u16,
    user: Option<String>,
    pass: Option<String>,
    new: Worker,
    w: &mut Worker,
    r: Report,
    task: Task,
)
    requires
        call_ensures(Worker::new, (ups, host, port, user, pass), new),
        call_ensures(Worker::step, (w, r), task),
    ensures
        new.ups@ == ups@ && new.host@ == host@ && new.port == port,
        text::opt_view(new.user) == text::opt_view(user),
        text::opt_view(new.pass) == text::opt_view(pass),
        new.phase == Phase::Polling && !new.cmds_sent && !new.rw_sent,
        (final(w)@, task@) == worker::after(old(w)@, r@),
        final(w).ups@ == old(w).ups@ && final(w).host@ == old(w).host@ && final(w).port == old(
            w,
        ).port,
{
    laws::polling::goes_on_while_answered(old(w)@, r@);
    assert(new@.ups == new.ups@ && new@.host == new.host@);
    assert(final(w)@.ups == final(w).ups@ && final(w)@.host == final(w).host@);
    assert(final(w)@.port == final(w).port && old(w)@.port == old(w).port);
    assert(old(w)@.ups == old(w).ups@ && old(w)@.host == old(w).host@);
}

/// A command is carried out with the request that it stands for, and only with a user
/// and a password.
pub proof fn commanding(
    w: &mut Worker,
    v: &mut Worker,
    cmd: String,
    name: String,
    value: String,
    run: Task,
    change: Task,
)
    requires
        call_ensures(Worker::step, (w, Report::Command(WorkerCmd::Inst(cmd))), run),
        call_ensures(Worker::step, (v, Report::Command(WorkerCmd::SetVar { name, value })), change),
        old(w).phase == Phase::Waiting,
        old(v).phase == Phase::Waiting,
    ensures
        old(w).user is Some && old(w).pass is Some ==> (run matches Task::Run(a) && a.request@
            == "INSTCMD "@ + old(w).ups@ + " "@ + cmd@ + "\n"@ && a.user@ == (old(w).user->0)@
            && a.pass@ == (old(w).pass->0)@ && a.host@ == old(w).host@ && a.port == old(w).port),
        old(v).user is Some && old(v).pass is Some ==> (change matches Task::Run(a) && a.request@
            == "SET VAR "@ + old(v).ups@ + " "@ + name@ + " \""@ + quote::escaped(value@) + "\"\n"@
            && a.user@ == (old(v).user->0)@ && a.pass@ == (old(v).pass->0)@ && a.host@ == old(
            v,
        ).host@ && a.port == old(v).port),
        old(w).user is None || old(w).pass is None ==> run is Tell,
        old(v).user is None || old(v).pass is None ==> change is Tell,
{
    let r = Report::Command(WorkerCmd::Inst(cmd));
    let s = Report::Command(WorkerCmd::SetVar { name, value });
    assert(run@ == worker::after(old(w)@, r@).1);
    assert(change@ == worker::after(old(v)@, s@).1);
    if let Task::Run(a) = run {
        assert(run@ == TaskModel::Run(a@));
        assert(a@.request == a.request@ && a@.user == a.user@ && a@.pass == a.pass@);
        assert(a@.host == a.host@);
    }
    if let Task::Run(a) = change {
        assert(change@ == TaskModel::Run(a@));
        assert(a@.request == a.request@ && a@.user == a.user@ && a@.pass == a.pass@);
        assert(a@.host == a.host@);
    }
}

} // verus!
