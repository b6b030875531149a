//! Who asked for a command, and the record of how its dispatch went.

use crate::commands::{Command, CommandView};
use crate::number::{decimal, push_decimal, push_signed_decimal, signed_decimal};
use crate::services::models::text_of;
use crate::trusted::{debug_quote, debug_quoted};
use vstd::prelude::*;

verus! {

/// The sender of a message.
#[derive(Clone, Debug)]
pub struct User {
    pub id: u64,
    pub username: Option<String>,
}

/// What a dispatch reads of the message that holds the command: its sender,
/// where it has one, and the chat that it came from.
#[derive(Clone, Debug)]
pub struct Message {
    pub from: Option<User>,
    pub chat_id: i64,
}

/// The content of a [`User`].
pub struct UserView {
    pub id: u64,
    pub username: Option<Seq<char>>,
}

/// The content of a [`Message`].
pub struct MessageView {
    pub from: Option<UserView>,
    pub chat_id: i64,
}

impl View for User {
    type V = UserView;

    open spec fn view(&self) -> UserView {
        UserView { id: self.id, username: text_of(self.username) }
    }
}

impl View for Message {
    type V = MessageView;

    open spec fn view(&self) -> MessageView {
        MessageView {
            from: match self.from {
                Some(user) => Some(user@),
                None => None,
            },
            chat_id: self.chat_id,
        }
    }
}

/// Who asked for a command: taken from the message when its dispatch begins.
#[derive(Debug)]
pub struct ExecutionMetrics {
    pub user_id: String,
    pub username: String,
    pub chat_id: i64,
}

/// The content of an [`ExecutionMetrics`].
pub struct ExecutionMetricsView {
    pub user_id: Seq<char>,
    pub username: Seq<char>,
    pub chat_id: i64,
}

impl View for ExecutionMetrics {
    type V = ExecutionMetricsView;

    open spec fn view(&self) -> ExecutionMetricsView {
        ExecutionMetricsView {
            user_id: self.user_id@,
            username: self.username@,
            chat_id: self.chat_id,
        }
    }
}

/// How the delivery of the reply went.
#[derive(Debug)]
pub enum Outcome {
    /// The reply was delivered.
    Success,
    /// It was not; `error` says why.
    Failure { error: String },
}

/// The content of an [`Outcome`].
pub enum OutcomeView {
    Success,
    Failure { error: Seq<char> },
}

impl View for Outcome {
    type V = OutcomeView;

    open spec fn view(&self) -> OutcomeView {
        match self {
            Outcome::Success => OutcomeView::Success,
            Outcome::Failure { error } => OutcomeView::Failure { error: error@ },
        }
    }
}

/// The record of one dispatch: who asked for which command from which chat,
/// whether the reply was delivered, and how long it all took.
#[derive(Debug)]
pub struct ExecutionRecord {
    pub user_id: String,
    pub username: String,
    pub chat_id: i64,
    pub command: String,
    pub outcome: Outcome,
    pub duration_ms: u128,
}

/// The content of an [`ExecutionRecord`].
pub struct ExecutionRecordView {
    pub user_id: Seq<char>,
    pub username: Seq<char>,
    pub chat_id: i64,
    pub command: Seq<char>,
    pub outcome: OutcomeView,
    pub duration_ms: u128,
}

impl View for ExecutionRecord {
    type V = ExecutionRecordView;

    open spec fn view(&self) -> ExecutionRecordView {
        ExecutionRecordView {
            user_id: self.user_id@,
            username: self.username@,
            chat_id: self.chat_id,
            command: self.command@,
            outcome: self.outcome@,
            duration_ms: self.duration_ms,
        }
    }
}

/// What stands for a sender or a user name that the message does not give.
pub open spec fn unknown() -> Seq<char> {
    "unknown"@
}

impl MessageView {
    /// Who sent the message: the sender's identifier in decimal and the
    /// sender's user name, or `unknown` for each that the message lacks.
    pub open spec fn metrics(self) -> ExecutionMetricsView {
        ExecutionMetricsView {
            user_id: match self.from {
                Some(user) => decimal(user.id as nat),
                None => unknown(),
            },
            username: match self.from {
                Some(UserView { username: Some(name), .. }) => name,
                _ => unknown(),
            },
            chat_id: self.chat_id,
        }
    }
}

impl CommandView {
    /// The command as a programmer reads it: the name of its variant, and
    /// its argument in brackets and double quotes.
    pub open spec fn debug_text(self) -> Seq<char> {
        match self {
            CommandView::Start => "Start"@,
            CommandView::Ping => "Ping"@,
            CommandView::Help => "Help"@,
            CommandView::About => "About"@,
            CommandView::Id => "Id"@,
            CommandView::Time => "Time"@,
            CommandView::Echo(text) => variant_text("Echo"@, Some(debug_quoted(text))),
            CommandView::Weather(city) => variant_text("Weather"@, Some(debug_quoted(city))),
            CommandView::Currency(input) => variant_text("Currency"@, Some(debug_quoted(input))),
            CommandView::Roll => "Roll"@,
            CommandView::Joke => "Joke"@,
        }
    }
}

impl ExecutionMetricsView {
    /// The record of the dispatch of `command` for this sender: a failure
    /// where the delivery of the reply failed with `failure`, a success where
    /// it did not.
    pub open spec fn record(
        self,
        command: CommandView,
        failure: Option<Seq<char>>,
        duration_ms: u128,
    ) -> ExecutionRecordView {
        ExecutionRecordView {
            user_id: self.user_id,
            username: self.username,
            chat_id: self.chat_id,
            command: command.debug_text(),
            outcome: match failure {
                Some(error) => OutcomeView::Failure { error },
                None => OutcomeView::Success,
            },
            duration_ms,
        }
    }
}

impl ExecutionRecordView {
    /// What the line of every record holds after its tag.
    pub open spec fn body(self) -> Seq<char> {
        " Command: "@ + self.command + " | User: "@ + self.user_id + " (@"@ + self.username
            + ") | Chat: "@ + signed_decimal(self.chat_id as int) + " | "@ + decimal(
            self.duration_ms as nat,
        ) + "ms"@
    }

    /// The line that the log gets: a tag in green or in red, the body, and
    /// after a failure its cause.
    pub open spec fn line(self) -> Seq<char> {
        match self.outcome {
            OutcomeView::Success => "\x1b[32m[SUCCESS]\x1b[0m"@ + self.body(),
            OutcomeView::Failure { error } => "\x1b[31m[ERROR]\x1b[0m"@ + self.body() + " | "@
                + error,
        }
    }
}

/// The failure that a delivery ended with, if it ended with one.
pub open spec fn failure_of(result: Result<(), String>) -> Option<Seq<char>> {
    match result {
        Ok(_) => None,
        Err(error) => Some(error@),
    }
}

/// The name `name` of a variant, with its argument in brackets where it has
/// one, already in quotes.
pub open spec fn variant_text(name: Seq<char>, quoted: Option<Seq<char>>) -> Seq<char> {
    match quoted {
        Some(argument) => name + "("@ + argument + ")"@,
        None => name,
    }
}

/// The name `name` of a variant, with its argument in brackets where it has
/// one, which `quoted` holds in quotes.
pub fn variant_text_of(name: &str, quoted: Option<&str>) -> (r: String)
    ensures
        r@ == variant_text(
            name@,
            match quoted {
                Some(q) => Some(q@),
                None => None,
            },
        ),
{
    let mut out = name.to_owned();
    if let Some(argument) = quoted {
        out.append("(");
        out.append(argument);
        out.append(")");
        assert(out@ =~= name@ + "("@ + argument@ + ")"@);
    }
    out
}

impl Command {
    /// The command as a programmer reads it.
    pub fn debug_text(&self) -> (r: String)
        ensures
            r@ == self@.debug_text(),
    {
        match self {
            Command::Start => variant_text_of("Start", None),
            Command::Ping => variant_text_of("Ping", None),
            Command::Help => variant_text_of("Help", None),
            Command::About => variant_text_of("About", None),
            Command::Id => variant_text_of("Id", None),
            Command::Time => variant_text_of("Time", None),
            Command::Echo(text) => variant_text_of(
                "Echo",
                Some(debug_quote(text.as_str()).as_str()),
            ),
            Command::Weather(city) => variant_text_of(
                "Weather",
                Some(debug_quote(city.as_str()).as_str()),
            ),
            Command::Currency(input) => variant_text_of(
                "Currency",
                Some(debug_quote(input.as_str()).as_str()),
            ),
            Command::Roll => variant_text_of("Roll", None),
            Command::Joke => variant_text_of("Joke", None),
        }
    }
}

impl ExecutionMetrics {
    /// Who sent `msg`, and from which chat.
    pub fn from_message(msg: &Message) -> (r: Self)
        ensures
            r@ == msg@.metrics(),
    {
        let user_id = match &msg.from {
            Some(user) => {
                let mut id = String::new();
                push_decimal(&mut id, user.id as u128);
                assert(id@ =~= decimal(user.id as nat));
                id
            },
            None => "unknown".to_owned(),
        };
        let username = match &msg.from {
            Some(user) => match &user.username {
                Some(name) => name.clone(),
                None => "unknown".to_owned(),
            },
            None => "unknown".to_owned(),
        };
        ExecutionMetrics { user_id, username, chat_id: msg.chat_id }
    }

    /// The record of the dispatch of `cmd`, made when the delivery of its
    /// reply has ended with `result`, `duration_ms` milliseconds after the
    /// dispatch began.
    pub fn log(&self, cmd: &Command, result: &Result<(), String>, duration_ms: u128) -> (r:
        ExecutionRecord)
        ensures
            r@ == self@.record(cmd@, failure_of(*result), duration_ms),
            r@.outcome is Failure <==> result is Err,
    {
        ExecutionRecord {
            user_id: self.user_id.clone(),
            username: self.username.clone(),
            chat_id: self.chat_id,
            command: cmd.debug_text(),
            outcome: match result {
                Ok(_) => Outcome::Success,
                Err(error) => Outcome::Failure { error: error.clone() },
            },
            duration_ms,
        }
    }
}

impl ExecutionRecord {
    /// Tells whether the record is that of a failure, which the log takes as
    /// an error.
    pub fn is_failure(&self) -> (r: bool)
        ensures
            r == (self@.outcome is Failure),
    {
        match self.outcome {
            Outcome::Success => false,
            Outcome::Failure { .. } => true,
        }
    }

    /// The line that the log gets.
    pub fn line(&self) -> (r: String)
        ensures
            r@ == self@.line(),
    {
        let mut out = match &self.outcome {
            Outcome::Success => "\x1b[32m[SUCCESS]\x1b[0m".to_owned(),
            Outcome::Failure { .. } => "\x1b[31m[ERROR]\x1b[0m".to_owned(),
        };
        out.append(" Command: ");
        out.append(self.command.as_str());
        out.append(" | User: ");
        out.append(self.user_id.as_str());
        out.append(" (@");
        out.append(self.username.as_str());
        out.append(") | Chat: ");
        push_signed_decimal(&mut out, self.chat_id);
        out.append(" | ");
        push_decimal(&mut out, self.duration_ms);
        out.append("ms");
        if let Outcome::Failure { error } = &self.outcome {
            out.append(" | ");
            out.append(error.as_str());
        }
        assert(out@ =~= self@.line());
        out
    }
}

} // verus!
