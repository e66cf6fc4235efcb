//! Requests that need a user: each is sent on a connection of its own, so that
//! the polling connection never carries the state of a login.

use vstd::prelude::*;

use crate::client::{Action, ActionModel, Event, EventModel};
use crate::nut;
use crate::text;

verus! {

/// How far a request has come.
#[derive(Clone, Copy, Debug, PartialEq, Eq, Structural)]
pub enum AuthStage {
    Opening,
    SendUser,
    ReadUser,
    SendPassword,
    ReadPassword,
    SendRequest,
    ReadReply,
    Finished,
    Failed,
}

/// One authenticated request on a short-lived connection.
pub struct AuthedLine {
    pub host: String,
    pub port: u16,
    pub user: String,
    pub pass: String,
    /// What is sent once the server has accepted the user.
    pub request: String,
    /// The reply to the request, or why there is none.
    pub outcome: String,
    pub stage: AuthStage,
}

#[verifier::ext_equal]
pub struct AuthedModel {
    pub host: Seq<char>,
    pub port: u16,
    pub user: Seq<char>,
    pub pass: Seq<char>,
    pub request: Seq<char>,
    pub outcome: Seq<char>,
    pub stage: AuthStage,
}

impl View for AuthedLine {
    type V = AuthedModel;

    open spec fn view(&self) -> AuthedModel {
        AuthedModel {
            host: self.host@,
            port: self.port,
            user: self.user@,
            pass: self.pass@,
            request: self.request@,
            outcome: self.outcome@,
            stage: self.stage,
        }
    }
}

/// A request at its start.
pub open spec fn fresh(
    host: Seq<char>,
    port: u16,
    user: Seq<char>,
    pass: Seq<char>,
    request: Seq<char>,
) -> AuthedModel {
    AuthedModel {
        host,
        port,
        user,
        pass,
        request,
        outcome: Seq::empty(),
        stage: AuthStage::Opening,
    }
}

/// What a request asks for.
pub open spec fn asks(a: AuthedModel) -> ActionModel {
    match a.stage {
        AuthStage::Opening => ActionModel::Open,
        AuthStage::SendUser => ActionModel::Send("USERNAME "@ + a.user + "\n"@),
        AuthStage::SendPassword => ActionModel::Send("PASSWORD "@ + a.pass + "\n"@),
        AuthStage::SendRequest => ActionModel::Send(a.request),
        AuthStage::ReadUser | AuthStage::ReadPassword | AuthStage::ReadReply => ActionModel::Read,
        AuthStage::Finished | AuthStage::Failed => ActionModel::Done,
    }
}

pub open spec fn at(a: AuthedModel, stage: AuthStage) -> AuthedModel {
    AuthedModel { stage, ..a }
}

pub open spec fn ended(a: AuthedModel, stage: AuthStage, outcome: Seq<char>) -> AuthedModel {
    AuthedModel { stage, outcome, ..a }
}

/// Whether the server accepts what it was sent.
pub open spec fn accepts(reply: Seq<char>) -> bool {
    "OK"@.is_prefix_of(text::trimmed_end(reply))
}

/// What was read, if anything was: a line, or nothing before the server closed
/// the connection.
pub open spec fn reply_in(ev: EventModel) -> Option<Seq<char>> {
    match ev {
        EventModel::Line(l) => Some(l),
        EventModel::Eof => Some(Seq::empty()),
        _ => None,
    }
}

/// A request after the reply to the step that it has reached.
pub open spec fn after_reply(a: AuthedModel, reply: Seq<char>) -> AuthedModel {
    let line = text::trimmed_end(reply);
    match a.stage {
        AuthStage::ReadUser => if accepts(reply) {
            at(a, AuthStage::SendPassword)
        } else {
            ended(a, AuthStage::Failed, "USERNAME: "@ + line)
        },
        AuthStage::ReadPassword => if accepts(reply) {
            at(a, AuthStage::SendRequest)
        } else {
            ended(a, AuthStage::Failed, "PASSWORD: "@ + line)
        },
        AuthStage::ReadReply => ended(a, AuthStage::Finished, line),
        _ => a,
    }
}

/// A request after an event. One that does not answer what the request asked
/// for changes nothing.
pub open spec fn after(a: AuthedModel, ev: EventModel) -> AuthedModel {
    match (asks(a), ev) {
        (ActionModel::Done, _) => a,
        (_, EventModel::Failed(why)) => ended(a, AuthStage::Failed, why),
        (ActionModel::Open, EventModel::Opened) => at(a, AuthStage::SendUser),
        (ActionModel::Send(_), EventModel::Sent) => match a.stage {
            AuthStage::SendUser => at(a, AuthStage::ReadUser),
            AuthStage::SendPassword => at(a, AuthStage::ReadPassword),
            _ => at(a, AuthStage::ReadReply),
        },
        (ActionModel::Read, _) => match reply_in(ev) {
            Some(reply) => after_reply(a, reply),
            None => a,
        },
        _ => a,
    }
}

impl AuthedLine {
    fn start(host: &str, port: u16, user: &str, pass: &str, request: String) -> (res: Self)
        ensures
            res@ == fresh(host@, port, user@, pass@, request@),
    {
        AuthedLine {
            host: host.to_owned(),
            port,
            user: user.to_owned(),
            pass: pass.to_owned(),
            request,
            outcome: String::new(),
            stage: AuthStage::Opening,
        }
    }

    /// What has to be done next.
    pub fn action(&self) -> (res: Action)
        ensures
            res@ == asks(self@),
    {
        match self.stage {
            AuthStage::Opening => Action::Open,
            AuthStage::SendUser => {
                let mut out: String = "USERNAME ".to_owned();
                out.append(self.user.as_str());
                out.append("\n");
                Action::Send(out)
            },
            AuthStage::SendPassword => {
                let mut out: String = "PASSWORD ".to_owned();
                out.append(self.pass.as_str());
                out.append("\n");
                Action::Send(out)
            },
            AuthStage::SendRequest => Action::Send(self.request.clone()),
            AuthStage::ReadUser => Action::Read,
            AuthStage::ReadPassword => Action::Read,
            AuthStage::ReadReply => Action::Read,
            AuthStage::Finished => Action::Done,
            AuthStage::Failed => Action::Done,
        }
    }

    fn take_reply(&mut self, reply: &str)
        ensures
            final(self)@ == after_reply(old(self)@, reply@),
    {
        let line: &str = text::trim_end(reply);
        match self.stage {
            AuthStage::ReadUser => {
                if text::starts_with(line, "OK") {
                    self.stage = AuthStage::SendPassword;
                } else {
                    let mut why: String = "USERNAME: ".to_owned();
                    why.append(line);
                    self.outcome = why;
                    self.stage = AuthStage::Failed;
                }
            },
            AuthStage::ReadPassword => {
                if text::starts_with(line, "OK") {
                    self.stage = AuthStage::SendRequest;
                } else {
                    let mut why: String = "PASSWORD: ".to_owned();
                    why.append(line);
                    self.outcome = why;
                    self.stage = AuthStage::Failed;
                }
            },
            AuthStage::ReadReply => {
                self.outcome = line.to_owned();
                self.stage = AuthStage::Finished;
            },
            _ => {},
        }
    }

    /// Takes the request one step further.
    pub fn handle(&mut self, ev: Event)
        ensures
            final(self)@ == after(old(self)@, ev@),
    {
        match ev {
            Event::Failed(why) => {
                match self.stage {
                    AuthStage::Finished => {},
                    AuthStage::Failed => {},
                    _ => {
                        self.outcome = why;
                        self.stage = AuthStage::Failed;
                    },
                }
            },
            Event::Opened => {
                if self.stage == AuthStage::Opening {
                    self.stage = AuthStage::SendUser;
                }
            },
            Event::Sent => {
                match self.stage {
                    AuthStage::SendUser => {
                        self.stage = AuthStage::ReadUser;
                    },
                    AuthStage::SendPassword => {
                        self.stage = AuthStage::ReadPassword;
                    },
                    AuthStage::SendRequest => {
                        self.stage = AuthStage::ReadReply;
                    },
                    _ => {},
                }
            },
            Event::Line(reply) => {
                self.take_reply(reply.as_str());
            },
            Event::Eof => {
                let nothing = String::new();
                self.take_reply(nothing.as_str());
            },
        }
    }

    /// The reply, or why there is none; nothing while the request is under way.
    pub fn result(&self) -> (res: Option<Result<String, String>>)
        ensures
            match self.stage {
                AuthStage::Finished => res == Some(Ok::<String, String>(self.outcome)),
                AuthStage::Failed => res == Some(Err::<String, String>(self.outcome)),
                _ => res is None,
            },
    {
        match self.stage {
            AuthStage::Finished => Some(Ok(self.outcome.clone())),
            AuthStage::Failed => Some(Err(self.outcome.clone())),
            _ => None,
        }
    }
}

/// Runs an instant command.
pub fn instcmd(host: &str, port: u16, ups: &str, cmd: &str, user: &str, pass: &str) -> (res:
    AuthedLine)
    ensures
        res@ == fresh(host@, port, user@, pass@, nut::inst_request(ups@, cmd@)),
{
    AuthedLine::start(host, port, user, pass, nut::inst_line(ups, cmd))
}

/// Sets a read-write variable. Requires a NUT user with `actions = SET`.
pub fn set_var(
    host: &str,
    port: u16,
    ups: &str,
    name: &str,
    value: &str,
    user: &str,
    pass: &str,
) -> (res: AuthedLine)
    ensures
        res@ == fresh(host@, port, user@, pass@, nut::set_request(ups@, name@, value@)),
{
    AuthedLine::start(host, port, user, pass, nut::set_var_line(ups, name, value))
}

// -------------------------------------------------------------------- laws

/// A request after several events.
pub open spec fn after_all(a: AuthedModel, evs: Seq<EventModel>) -> AuthedModel
    decreases evs.len(),
{
    if evs.len() == 0 {
        a
    } else {
        after(after_all(a, evs.drop_last()), evs.last())
    }
}

/// Whether a request has got past the user name.
pub open spec fn user_accepted(stage: AuthStage) -> bool {
    match stage {
        AuthStage::SendPassword | AuthStage::ReadPassword => true,
        _ => password_accepted(stage),
    }
}

/// Whether a request has got past the password.
pub open spec fn password_accepted(stage: AuthStage) -> bool {
    match stage {
        AuthStage::SendRequest | AuthStage::ReadReply | AuthStage::Finished => true,
        _ => false,
    }
}

/// Whether the event with the number `i` is a reply in which the server accepts
/// what it was sent.
pub open spec fn accepted_at(evs: Seq<EventModel>, i: int) -> bool {
    &&& 0 <= i < evs.len()
    &&& reply_in(evs[i]) matches Some(reply)
    &&& accepts(reply)
}

/// The password is asked to be sent only after the server has accepted the user
/// name, and the request itself only after it has accepted both, whatever
/// happens on the connection.
pub proof fn request_needs_login(start: AuthedModel, evs: Seq<EventModel>)
    requires
        start.stage == AuthStage::Opening,
    ensures
        user_accepted(after_all(start, evs).stage) ==> exists|i: int| accepted_at(evs, i),
        password_accepted(after_all(start, evs).stage) ==> exists|i: int, j: int|
            i < j && accepted_at(evs, i) && accepted_at(evs, j),
    decreases evs.len(),
{
    if evs.len() > 0 {
        let rest = evs.drop_last();
        request_needs_login(start, rest);
        let was = after_all(start, rest);
        let last = evs.len() - 1;
        assert forall|i: int| #[trigger] accepted_at(rest, i) implies accepted_at(evs, i) by {}
        if user_accepted(was.stage) {
            let i = choose|i: int| accepted_at(rest, i);
            assert(accepted_at(evs, i));
            if was.stage == AuthStage::ReadPassword && password_accepted(after_all(start, evs).stage) {
                assert(accepted_at(evs, last));
                assert(i < last);
            }
        } else if user_accepted(after_all(start, evs).stage) {
            assert(was.stage == AuthStage::ReadUser);
            assert(accepted_at(evs, last));
        }
        if password_accepted(was.stage) {
            let (i, j) = choose|i: int, j: int|
                i < j && accepted_at(rest, i) && accepted_at(rest, j);
            assert(accepted_at(evs, i) && accepted_at(evs, j));
        }
    }
}

/// What is sent over the connection of a request: the user name, the password or
/// the request, each in its stage and nowhere else.
pub proof fn sends_each_in_its_stage(a: AuthedModel, sent: Seq<char>)
    requires
        asks(a) == ActionModel::Send(sent),
    ensures
        a.stage == AuthStage::SendUser ==> sent == "USERNAME "@ + a.user + "\n"@,
        a.stage == AuthStage::SendPassword ==> sent == "PASSWORD "@ + a.pass + "\n"@ && user_accepted(
            a.stage,
        ),
        a.stage != AuthStage::SendUser && a.stage != AuthStage::SendPassword ==> sent == a.request
            && password_accepted(a.stage),
{
}

} // verus!
