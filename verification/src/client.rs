//! The client of one `upsd`: in which order it connects, sends and reads.
//!
//! Nothing here touches a socket. An [`Exchange`] says what has to be done
//! next; whoever holds the connection does it and reports what came of it as
//! an [`Event`].

use vstd::prelude::*;

use crate::number;
use crate::nut;
use crate::text;

verus! {

/// What has to be done next.
pub enum Action {
    /// Open a connection to the server.
    Open,
    /// Send this text.
    Send(String),
    /// Read one line.
    Read,
    /// Nothing: the exchange is over.
    Done,
}

/// What came of the last action.
pub enum Event {
    /// The connection is open.
    Opened,
    /// The text was sent.
    Sent,
    /// This line was read.
    Line(String),
    /// The server closed the connection.
    Eof,
    /// The action failed, for this reason.
    Failed(String),
}

/// An [`Action`], its text taken by its characters.
pub enum ActionModel {
    Open,
    Send(Seq<char>),
    Read,
    Done,
}

/// An [`Event`], its text taken by its characters.
pub enum EventModel {
    Opened,
    Sent,
    Line(Seq<char>),
    Eof,
    Failed(Seq<char>),
}

impl View for Action {
    type V = ActionModel;

    open spec fn view(&self) -> ActionModel {
        match *self {
            Action::Open => ActionModel::Open,
            Action::Send(s) => ActionModel::Send(s@),
            Action::Read => ActionModel::Read,
            Action::Done => ActionModel::Done,
        }
    }
}

impl View for Event {
    type V = EventModel;

    open spec fn view(&self) -> EventModel {
        match *self {
            Event::Opened => EventModel::Opened,
            Event::Sent => EventModel::Sent,
            Event::Line(s) => EventModel::Line(s@),
            Event::Eof => EventModel::Eof,
            Event::Failed(s) => EventModel::Failed(s@),
        }
    }
}

/// How far an exchange has come.
#[derive(Clone, Copy, Debug, PartialEq, Eq, Structural)]
pub enum Stage {
    Opening,
    Sending,
    Reading,
    Finished,
    Failed,
}

/// One request and its reply.
pub struct Exchange {
    /// What is sent.
    pub request: String,
    /// Whether the reply is a list of lines rather than one line.
    pub listing: bool,
    /// The lines of the reply so far.
    pub lines: Vec<String>,
    /// Why the exchange failed, if it did.
    pub error: String,
    pub stage: Stage,
}

#[verifier::ext_equal]
pub struct ExchangeModel {
    pub request: Seq<char>,
    pub listing: bool,
    pub lines: Seq<Seq<char>>,
    pub error: Seq<char>,
    pub stage: Stage,
}

impl View for Exchange {
    type V = ExchangeModel;

    open spec fn view(&self) -> ExchangeModel {
        ExchangeModel {
            request: self.request@,
            listing: self.listing,
            lines: text::strings_view(self.lines@),
            error: self.error@,
            stage: self.stage,
        }
    }
}

/// An exchange at its start. A connection that is open is used; else one is
/// opened first.
pub open spec fn fresh(connected: bool, request: Seq<char>, listing: bool) -> ExchangeModel {
    ExchangeModel {
        request,
        listing,
        lines: Seq::empty(),
        error: Seq::empty(),
        stage: if connected {
            Stage::Sending
        } else {
            Stage::Opening
        },
    }
}

/// What an exchange asks for.
pub open spec fn asks(ex: ExchangeModel) -> ActionModel {
    match ex.stage {
        Stage::Opening => ActionModel::Open,
        Stage::Sending => ActionModel::Send(ex.request),
        Stage::Reading => ActionModel::Read,
        Stage::Finished | Stage::Failed => ActionModel::Done,
    }
}

pub open spec fn failed(ex: ExchangeModel, why: Seq<char>) -> ExchangeModel {
    ExchangeModel { stage: Stage::Failed, error: why, ..ex }
}

/// An exchange after one line of its reply. In a list, `BEGIN` and `END` frame
/// the lines, and `ERR` tells why there are none.
pub open spec fn after_line(ex: ExchangeModel, raw: Seq<char>) -> ExchangeModel {
    let line = text::trimmed_end(raw);
    if !ex.listing {
        ExchangeModel { lines: ex.lines.push(line), stage: Stage::Finished, ..ex }
    } else if "BEGIN "@.is_prefix_of(line) {
        ex
    } else if "END "@.is_prefix_of(line) {
        ExchangeModel { stage: Stage::Finished, ..ex }
    } else {
        match text::without_prefix(line, "ERR "@) {
            Some(why) => failed(ex, "upsd: "@ + why),
            None => ExchangeModel { lines: ex.lines.push(line), ..ex },
        }
    }
}

/// An exchange after an event. One that does not answer what the exchange asked
/// for changes nothing.
pub open spec fn after(ex: ExchangeModel, ev: EventModel) -> ExchangeModel {
    match (ex.stage, ev) {
        (Stage::Opening, EventModel::Opened) => ExchangeModel { stage: Stage::Sending, ..ex },
        (Stage::Sending, EventModel::Sent) => ExchangeModel { stage: Stage::Reading, ..ex },
        (Stage::Reading, EventModel::Line(raw)) => after_line(ex, raw),
        (Stage::Reading, EventModel::Eof) => failed(ex, "connection closed by upsd"@),
        (Stage::Opening, EventModel::Failed(why)) => failed(ex, why),
        (Stage::Sending, EventModel::Failed(why)) => failed(ex, why),
        (Stage::Reading, EventModel::Failed(why)) => failed(ex, why),
        _ => ex,
    }
}

/// Whether the client holds a connection after an event. A failure drops it.
pub open spec fn connected_after(connected: bool, ex: ExchangeModel, ev: EventModel) -> bool {
    match (ex.stage, after(ex, ev).stage) {
        (Stage::Finished, _) | (Stage::Failed, _) => connected,
        (_, Stage::Failed) => false,
        (Stage::Opening, Stage::Sending) => true,
        _ => connected,
    }
}

impl Exchange {
    fn start(connected: bool, request: String, listing: bool) -> (res: Exchange)
        ensures
            res@ == fresh(connected, request@, listing),
    {
        let res = Exchange {
            request,
            listing,
            lines: Vec::new(),
            error: String::new(),
            stage: if connected {
                Stage::Sending
            } else {
                Stage::Opening
            },
        };
        assert(res@ =~= fresh(connected, request@, listing));
        res
    }

    /// What has to be done next.
    pub fn action(&self) -> (res: Action)
        ensures
            res@ == asks(self@),
    {
        match self.stage {
            Stage::Opening => Action::Open,
            Stage::Sending => Action::Send(self.request.clone()),
            Stage::Reading => Action::Read,
            Stage::Finished => Action::Done,
            Stage::Failed => Action::Done,
        }
    }

    fn fail(&mut self, why: String)
        ensures
            final(self)@ == failed(old(self)@, why@),
    {
        self.stage = Stage::Failed;
        self.error = why;
    }

    fn take_line(&mut self, raw: &str)
        ensures
            final(self)@ == after_line(old(self)@, raw@),
    {
        let ghost was = self@;
        let line: &str = text::trim_end(raw);
        if !self.listing {
            self.lines.push(line.to_owned());
            self.stage = Stage::Finished;
            assert(self@.lines =~= was.lines.push(line@));
        } else if text::starts_with(line, "BEGIN ") {
        } else if text::starts_with(line, "END ") {
            self.stage = Stage::Finished;
        } else {
            match text::strip_prefix(line, "ERR ") {
                Some(why) => {
                    let mut error: String = "upsd: ".to_owned();
                    error.append(why);
                    self.fail(error);
                },
                None => {
                    self.lines.push(line.to_owned());
                    assert(self@.lines =~= was.lines.push(line@));
                },
            }
        }
    }
}

/// A client of the server at a host and port.
pub struct NutClient {
    pub host: String,
    pub port: u16,
    /// Whether there is an open connection.
    pub connected: bool,
}

impl NutClient {
    /// A client without a connection.
    pub fn new(host: &str, port: u16) -> (res: Self)
        ensures
            res.host@ == host@,
            res.port == port,
            !res.connected,
    {
        NutClient { host: host.to_owned(), port, connected: false }
    }

    /// Starts the exchange that asks for a list.
    pub fn request_list(&self, what: &str, arg: &str) -> (res: Exchange)
        ensures
            res@ == fresh(self.connected, nut::list_request(what@, arg@), true),
    {
        Exchange::start(self.connected, nut::list_line(what, arg), true)
    }

    /// Asks which devices the server knows. [`nut::ups_in`] reads the reply.
    pub fn list_ups(&self) -> (res: Exchange)
        ensures
            res@ == fresh(self.connected, nut::list_request("UPS"@, ""@), true),
    {
        self.request_list("UPS", "")
    }

    /// Asks which instant commands the device supports. [`CmdListing`] goes on
    /// from the reply.
    pub fn list_cmds(&self, ups: &str) -> (res: Exchange)
        ensures
            res@ == fresh(self.connected, nut::list_request("CMD"@, ups@), true),
    {
        self.request_list("CMD", ups)
    }

    /// Asks for the variables of the device. [`nut::vars_in`] reads the reply.
    pub fn list_vars(&self, ups: &str) -> (res: Exchange)
        ensures
            res@ == fresh(self.connected, nut::list_request("VAR"@, ups@), true),
    {
        self.request_list("VAR", ups)
    }

    /// Asks which variables can be set. [`nut::rw_in`] reads the reply.
    pub fn list_rw(&self, ups: &str) -> (res: Exchange)
        ensures
            res@ == fresh(self.connected, nut::list_request("RW"@, ups@), true),
    {
        self.request_list("RW", ups)
    }

    /// Asks for the description of a command. [`nut::description_in`] reads the
    /// reply.
    pub fn cmd_desc(&self, ups: &str, cmd: &str) -> (res: Exchange)
        ensures
            res@ == fresh(self.connected, nut::desc_request(ups@, cmd@), false),
    {
        Exchange::start(self.connected, nut::desc_line(ups, cmd), false)
    }

    /// Takes an exchange one step further.
    pub fn handle(&mut self, ex: &mut Exchange, ev: Event)
        ensures
            final(ex)@ == after(old(ex)@, ev@),
            final(self).connected == connected_after(old(self).connected, old(ex)@, ev@),
            final(self).host == old(self).host,
            final(self).port == old(self).port,
    {
        match (ex.stage, ev) {
            (Stage::Opening, Event::Opened) => {
                self.connected = true;
                ex.stage = Stage::Sending;
            },
            (Stage::Sending, Event::Sent) => {
                ex.stage = Stage::Reading;
            },
            (Stage::Reading, Event::Line(raw)) => {
                ex.take_line(raw.as_str());
            },
            (Stage::Reading, Event::Eof) => {
                ex.fail("connection closed by upsd".to_owned());
            },
            (Stage::Opening, Event::Failed(why)) => {
                ex.fail(why);
            },
            (Stage::Sending, Event::Failed(why)) => {
                ex.fail(why);
            },
            (Stage::Reading, Event::Failed(why)) => {
                ex.fail(why);
            },
            _ => {
                return;
            },
        }
        // Drop the connection on any error so that the next exchange reconnects.
        if ex.stage == Stage::Failed {
            self.connected = false;
        }
    }
}

/// The commands of a device on their way to their descriptions: each name is
/// asked for in turn, and a description that cannot be had stays empty.
pub struct CmdListing {
    pub names: Vec<String>,
    /// The names so far, with their descriptions.
    pub described: Vec<(String, String)>,
}

impl CmdListing {
    /// How many commands are through, and that they are the first ones.
    pub open spec fn in_order(&self) -> bool {
        &&& self.described@.len() <= self.names@.len()
        &&& forall|i: int|
            0 <= i < self.described@.len() ==> (#[trigger] self.described@[i]).0@
                == self.names@[i]@
    }

    /// The listing at its start, from the reply to `LIST CMD`.
    pub fn new(lines: &Vec<String>) -> (res: Self)
        ensures
            text::strings_view(res.names@) == nut::cmd_names(text::strings_view(lines@)),
            res.described@.len() == 0,
            res.in_order(),
    {
        CmdListing { names: nut::cmds_in(lines), described: Vec::new() }
    }

    /// The command whose description is to be asked for next.
    pub fn next(&self) -> (res: Option<String>)
        ensures
            self.described@.len() < self.names@.len() ==> res == Some(
                self.names@[self.described@.len() as int],
            ),
            self.described@.len() >= self.names@.len() ==> res is None,
    {
        let i: usize = self.described.len();
        if i < self.names.len() {
            Some(self.names[i].clone())
        } else {
            None
        }
    }

    /// Takes the reply for the command that [`Self::next`] named, or the news
    /// that there is none.
    pub fn describe(&mut self, reply: Option<&str>)
        ensures
            old(self).in_order() ==> final(self).in_order(),
            final(self).names == old(self).names,
            old(self).described@.len() >= old(self).names@.len() ==> *final(self) == *old(self),
            old(self).described@.len() < old(self).names@.len() ==> text::pairs_view(
                final(self).described@,
            ) == text::pairs_view(old(self).described@).push(
                (
                    old(self).names@[old(self).described@.len() as int]@,
                    match reply {
                        Some(l) => nut::description(l@),
                        None => Seq::empty(),
                    },
                ),
            ),
    {
        let i: usize = self.described.len();
        if i < self.names.len() {
            let ghost before = text::pairs_view(self.described@);
            let desc: String = match reply {
                Some(l) => nut::description_in(l),
                None => String::new(),
            };
            self.described.push((self.names[i].clone(), desc));
            assert(text::pairs_view(self.described@) =~= before.push((self.names@[i as int]@, desc@)));
        }
    }
}

/// What names a server: its host and port.
pub open spec fn address(host: Seq<char>, port: u16) -> Seq<char> {
    host + ":"@ + number::decimal_of(port as nat)
}

/// Writes the host and port of a server.
pub fn address_text(host: &str, port: u16) -> (res: String)
    ensures
        res@ == address(host@, port),
{
    let mut out: String = host.to_owned();
    out.append(":");
    out.append(number::decimal(port as u128).as_str());
    out
}

/// What is said when no address of a server could be connected to: the last
/// failure, if an address was tried at all.
pub open spec fn connect_message(host: Seq<char>, port: u16, last: Option<Seq<char>>) -> Seq<char> {
    "connect "@ + address(host, port) + ": "@ + match last {
        Some(why) => why,
        None => "hostname resolved to no addresses"@,
    }
}

/// Writes what is said when no address of a server could be connected to.
pub fn connect_error(host: &str, port: u16, last: Option<&str>) -> (res: String)
    ensures
        res@ == connect_message(host@, port, text::opt_str_view(last)),
{
    let mut out: String = "connect ".to_owned();
    out.append(address_text(host, port).as_str());
    out.append(": ");
    match last {
        Some(why) => out.append(why),
        None => out.append("hostname resolved to no addresses"),
    }
    out
}

/// What has to be done next to connect to a server.
pub enum DialTask {
    /// Try the address with this number.
    Try(usize),
    /// Use the connection to the address with this number.
    Use(usize),
    /// Give up, for this reason.
    GiveUp(String),
}

/// A [`DialTask`], its text taken by its characters.
pub enum DialTaskModel {
    Try(int),
    Use(int),
    GiveUp(Seq<char>),
}

impl View for DialTask {
    type V = DialTaskModel;

    open spec fn view(&self) -> DialTaskModel {
        match *self {
            DialTask::Try(i) => DialTaskModel::Try(i as int),
            DialTask::Use(i) => DialTaskModel::Use(i as int),
            DialTask::GiveUp(why) => DialTaskModel::GiveUp(why@),
        }
    }
}

/// Connects to the first address of a server that accepts.
pub struct Dialer {
    pub host: String,
    pub port: u16,
    /// How many addresses the server has.
    pub addresses: usize,
    /// How many of them have refused.
    pub refused: usize,
    /// Why the last of these refused.
    pub last: Option<String>,
    /// Whether the next one has accepted.
    pub accepted: bool,
}

/// A [`Dialer`], its texts taken by their characters.
#[verifier::ext_equal]
pub struct DialerModel {
    pub host: Seq<char>,
    pub port: u16,
    pub addresses: int,
    pub refused: int,
    pub last: Option<Seq<char>>,
    pub accepted: bool,
}

impl View for Dialer {
    type V = DialerModel;

    open spec fn view(&self) -> DialerModel {
        DialerModel {
            host: self.host@,
            port: self.port,
            addresses: self.addresses as int,
            refused: self.refused as int,
            last: text::opt_view(self.last),
            accepted: self.accepted,
        }
    }
}

/// Before the first address is tried.
pub open spec fn fresh_dialer(host: Seq<char>, port: u16, addresses: int) -> DialerModel {
    DialerModel { host, port, addresses, refused: 0, last: None, accepted: false }
}

/// What has to be done next: the addresses are tried in order, up to the first that
/// accepts.
pub open spec fn dial_task(d: DialerModel) -> DialTaskModel {
    if d.accepted {
        DialTaskModel::Use(d.refused)
    } else if d.refused < d.addresses {
        DialTaskModel::Try(d.refused)
    } else {
        DialTaskModel::GiveUp(connect_message(d.host, d.port, d.last))
    }
}

/// After an address was tried: it accepted, or it refused for a reason. Where none
/// was to be tried, nothing changes.
pub open spec fn after_try(d: DialerModel, refusal: Option<Seq<char>>) -> DialerModel {
    if d.accepted || d.refused >= d.addresses {
        d
    } else {
        match refusal {
            None => DialerModel { accepted: true, ..d },
            Some(why) => DialerModel { refused: d.refused + 1, last: Some(why), ..d },
        }
    }
}

impl Dialer {
    /// Before the first address is tried.
    pub fn new(host: &str, port: u16, addresses: usize) -> (res: Self)
        ensures
            res@ == fresh_dialer(host@, port, addresses as int),
    {
        Dialer { host: host.to_owned(), port, addresses, refused: 0, last: None, accepted: false }
    }

    /// What has to be done next.
    pub fn task(&self) -> (res: DialTask)
        ensures
            res@ == dial_task(self@),
    {
        if self.accepted {
            DialTask::Use(self.refused)
        } else if self.refused < self.addresses {
            DialTask::Try(self.refused)
        } else {
            let last: Option<&str> = match &self.last {
                Some(why) => Some(why.as_str()),
                None => None,
            };
            DialTask::GiveUp(connect_error(self.host.as_str(), self.port, last))
        }
    }

    /// Takes what came of a try: nothing where the address accepted, else why it
    /// refused.
    pub fn tried(&mut self, refusal: Option<String>)
        ensures
            final(self)@ == after_try(old(self)@, text::opt_view(refusal)),
    {
        if self.accepted || self.refused >= self.addresses {
            return;
        }
        match refusal {
            None => {
                self.accepted = true;
            },
            Some(why) => {
                self.refused = self.refused + 1;
                self.last = Some(why);
            },
        }
    }
}

// -------------------------------------------------------------------- laws

/// A failure drops the connection, so that the next exchange, whatever it asks,
/// starts by opening a new one.
pub proof fn failure_reconnects(
    connected: bool,
    ex: ExchangeModel,
    ev: EventModel,
    request: Seq<char>,
    listing: bool,
)
    requires
        ex.stage != Stage::Failed,
        after(ex, ev).stage == Stage::Failed,
    ensures
        !connected_after(connected, ex, ev),
        asks(fresh(connected_after(connected, ex, ev), request, listing)) == ActionModel::Open,
{
}

/// An exchange that has not failed leaves an open connection open.
pub proof fn success_keeps_connection(ex: ExchangeModel, ev: EventModel)
    requires
        after(ex, ev).stage != Stage::Failed,
    ensures
        connected_after(true, ex, ev),
{
}

/// An exchange after several events.
pub open spec fn after_all(ex: ExchangeModel, evs: Seq<EventModel>) -> ExchangeModel
    decreases evs.len(),
{
    if evs.len() == 0 {
        ex
    } else {
        after(after_all(ex, evs.drop_last()), evs.last())
    }
}

/// Whether a line of a list carries an item rather than frames the list or
/// reports an error.
pub open spec fn is_item(raw: Seq<char>) -> bool {
    let line = text::trimmed_end(raw);
    &&& !"BEGIN "@.is_prefix_of(line)
    &&& !"END "@.is_prefix_of(line)
    &&& !"ERR "@.is_prefix_of(line)
}

/// The events in which a server lists the items: a first line, the items, a last
/// line.
pub open spec fn list_events(first: Seq<char>, items: Seq<Seq<char>>, end: Seq<char>) -> Seq<EventModel> {
    seq![EventModel::Sent, EventModel::Line(first)] + items.map_values(
        |l: Seq<char>| EventModel::Line(l),
    ) + seq![EventModel::Line(end)]
}

/// A client that asks for a list over an open connection gets what the server
/// lists: the items between the two framing lines, without the white space at
/// their ends, in order, and nothing else.
pub proof fn list_is_received(request: Seq<char>, first: Seq<char>, items: Seq<Seq<char>>, end: Seq<char>)
    requires
        "BEGIN "@.is_prefix_of(text::trimmed_end(first)),
        "END "@.is_prefix_of(text::trimmed_end(end)),
        forall|i: int| 0 <= i < items.len() ==> is_item(#[trigger] items[i]),
    ensures
        ({
            let ex = after_all(fresh(true, request, true), list_events(first, items, end));
            &&& ex.stage == Stage::Finished
            &&& ex.lines == items.map_values(|l: Seq<char>| text::trimmed_end(l))
        }),
{
    let start = fresh(true, request, true);
    let all = list_events(first, items, end);
    assert(all.drop_last() =~= seq![EventModel::Sent, EventModel::Line(first)] + items.map_values(
        |l: Seq<char>| EventModel::Line(l),
    ));
    lemma_items_are_received(start, first, items);
    reveal_strlit("BEGIN ");
    reveal_strlit("END ");
    let line = text::trimmed_end(end);
    assert(line[0] == "END "@[0]);
    if "BEGIN "@.is_prefix_of(line) {
        assert(line[0] == "BEGIN "@[0]);
    }
}

proof fn lemma_items_are_received(start: ExchangeModel, first: Seq<char>, items: Seq<Seq<char>>)
    requires
        start.stage == Stage::Sending,
        start.listing,
        start.lines.len() == 0,
        "BEGIN "@.is_prefix_of(text::trimmed_end(first)),
        forall|i: int| 0 <= i < items.len() ==> is_item(#[trigger] items[i]),
    ensures
        after_all(
            start,
            seq![EventModel::Sent, EventModel::Line(first)] + items.map_values(
                |l: Seq<char>| EventModel::Line(l),
            ),
        ) == (ExchangeModel {
            stage: Stage::Reading,
            lines: items.map_values(|l: Seq<char>| text::trimmed_end(l)),
            ..start
        }),
    decreases items.len(),
{
    let evs = seq![EventModel::Sent, EventModel::Line(first)] + items.map_values(
        |l: Seq<char>| EventModel::Line(l),
    );
    if items.len() == 0 {
        assert(evs =~= seq![EventModel::Sent, EventModel::Line(first)]);
        assert(evs.drop_last() =~= seq![EventModel::Sent]);
        assert(evs.drop_last().drop_last() =~= Seq::<EventModel>::empty());
        reveal_with_fuel(after_all, 3);
        assert(items.map_values(|l: Seq<char>| text::trimmed_end(l)) =~= start.lines);
    } else {
        let rest = items.drop_last();
        assert forall|i: int| 0 <= i < rest.len() implies is_item(#[trigger] rest[i]) by {
            assert(is_item(items[i]));
        }
        lemma_items_are_received(start, first, rest);
        assert(evs.drop_last() =~= seq![EventModel::Sent, EventModel::Line(first)]
            + rest.map_values(|l: Seq<char>| EventModel::Line(l)));
        assert(evs.last() == EventModel::Line(items.last()));
        assert(is_item(items[items.len() - 1]));
        assert(rest.map_values(|l: Seq<char>| text::trimmed_end(l)).push(
            text::trimmed_end(items.last()),
        ) =~= items.map_values(|l: Seq<char>| text::trimmed_end(l)));
    }
}

/// After several addresses were tried.
pub open spec fn after_tries(d: DialerModel, refusals: Seq<Option<Seq<char>>>) -> DialerModel
    decreases refusals.len(),
{
    if refusals.len() == 0 {
        d
    } else {
        after_try(after_tries(d, refusals.drop_last()), refusals.last())
    }
}

/// The first address that accepts is used, and where all refuse, the last refusal is
/// reported. Until then each address is tried once, in order.
pub proof fn first_address_that_accepts_is_used(
    host: Seq<char>,
    port: u16,
    addresses: int,
    refusals: Seq<Option<Seq<char>>>,
)
    requires
        refusals.len() <= addresses,
        forall|i: int| 0 <= i < refusals.len() - 1 ==> #[trigger] refusals[i] is Some,
    ensures
        ({
            let task = dial_task(after_tries(fresh_dialer(host, port, addresses), refusals));
            if refusals.len() > 0 && refusals.last() is None {
                task == DialTaskModel::Use(refusals.len() - 1)
            } else if refusals.len() < addresses {
                task == DialTaskModel::Try(refusals.len() as int)
            } else {
                task == DialTaskModel::GiveUp(
                    connect_message(
                        host,
                        port,
                        if refusals.len() > 0 {
                            refusals.last()
                        } else {
                            None
                        },
                    ),
                )
            }
        }),
{
    if refusals.len() > 0 {
        lemma_refusals_are_counted(host, port, addresses, refusals.drop_last());
    }
}

proof fn lemma_refusals_are_counted(
    host: Seq<char>,
    port: u16,
    addresses: int,
    refusals: Seq<Option<Seq<char>>>,
)
    requires
        refusals.len() <= addresses,
        forall|i: int| 0 <= i < refusals.len() ==> #[trigger] refusals[i] is Some,
    ensures
        after_tries(fresh_dialer(host, port, addresses), refusals) == (DialerModel {
            refused: refusals.len() as int,
            last: if refusals.len() > 0 {
                refusals.last()
            } else {
                None
            },
            ..fresh_dialer(host, port, addresses)
        }),
    decreases refusals.len(),
{
    if refusals.len() > 0 {
        let rest = refusals.drop_last();
        assert forall|i: int| 0 <= i < rest.len() implies #[trigger] rest[i] is Some by {
            assert(refusals[i] is Some);
        }
        lemma_refusals_are_counted(host, port, addresses, rest);
        assert(refusals[refusals.len() - 1] is Some);
    }
}

} // verus!
