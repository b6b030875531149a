//! The commands of the bot: how a message names one, which handler each has,
//! and the course of one dispatch.

pub mod currency;
pub mod handlers;
pub mod metrics;
pub mod parse;

use crate::services::models::{ExchangerateResponse, ExchangerateResponseView, JokeFields,
    JokeFieldsView, WeatherData, WeatherDataView};
use crate::services::{ApiService, Progress, ProgressView, Sent, SentView};
use crate::trusted::utc_formatted;
use handlers::{currency_turn, joke_turn, reply, weather_turn};
use metrics::{ExecutionMetrics, ExecutionRecord, ExecutionRecordView, Message, MessageView};
use vstd::prelude::*;

verus! {

/// A command of the bot. A command that takes an argument holds the text that
/// followed its name, as it was written.
#[derive(Clone, Debug, PartialEq, Eq)]
pub enum Command {
    /// Start the bot.
    Start,
    /// Check if the bot is alive.
    Ping,
    /// Display the help message.
    Help,
    /// Show bot information.
    About,
    /// Show the user's and the chat's identifiers.
    Id,
    /// Show the current time.
    Time,
    /// Echo a message.
    Echo(String),
    /// Check the weather in a city.
    Weather(String),
    /// Convert an amount from one currency to another.
    Currency(String),
    /// Roll a dice.
    Roll,
    /// Tell a joke.
    Joke,
}

/// The content of a [`Command`].
pub enum CommandView {
    Start,
    Ping,
    Help,
    About,
    Id,
    Time,
    Echo(Seq<char>),
    Weather(Seq<char>),
    Currency(Seq<char>),
    Roll,
    Joke,
}

impl View for Command {
    type V = CommandView;

    open spec fn view(&self) -> CommandView {
        match self {
            Command::Start => CommandView::Start,
            Command::Ping => CommandView::Ping,
            Command::Help => CommandView::Help,
            Command::About => CommandView::About,
            Command::Id => CommandView::Id,
            Command::Time => CommandView::Time,
            Command::Echo(text) => CommandView::Echo(text@),
            Command::Weather(city) => CommandView::Weather(city@),
            Command::Currency(input) => CommandView::Currency(input@),
            Command::Roll => CommandView::Roll,
            Command::Joke => CommandView::Joke,
        }
    }
}

/// The shape of body that a command expects of its upstream.
#[derive(Clone, Copy, Debug, PartialEq, Eq, Structural)]
pub enum Shape {
    /// A [`crate::services::WeatherData`].
    Weather,
    /// A [`crate::services::JokeFields`].
    Joke,
    /// An [`crate::services::ExchangerateResponse`].
    Exchange,
}

/// What the driver of a dispatch is to do next.
#[derive(Debug)]
pub enum Turn {
    /// Send a GET request to `url`, and report what came of it.
    Get { url: String },
    /// Read the body of the response as JSON of this shape, and report it.
    ReadBody { shape: Shape },
    /// Read the clock, and report the time.
    ReadClock,
    /// Send `text` to the chat as the reply, after writing `diagnostic`, if
    /// there is one, to the error log; and report how the delivery went.
    Send { text: String, diagnostic: Option<String> },
    /// Send an animated dice to the chat, and report how the delivery went.
    SendDice,
    /// Write the record to the log. The dispatch is over.
    Finish(ExecutionRecord),
}

/// The content of a [`Turn`].
pub enum TurnView {
    Get { url: Seq<char> },
    ReadBody { shape: Shape },
    ReadClock,
    Send { text: Seq<char>, diagnostic: Option<Seq<char>> },
    SendDice,
    Finish(ExecutionRecordView),
}

impl View for Turn {
    type V = TurnView;

    open spec fn view(&self) -> TurnView {
        match self {
            Turn::Get { url } => TurnView::Get { url: url@ },
            Turn::ReadBody { shape } => TurnView::ReadBody { shape: *shape },
            Turn::ReadClock => TurnView::ReadClock,
            Turn::Send { text, diagnostic } => TurnView::Send {
                text: text@,
                diagnostic: crate::services::models::text_of(*diagnostic),
            },
            Turn::SendDice => TurnView::SendDice,
            Turn::Finish(record) => TurnView::Finish(record@),
        }
    }
}

/// The body of a response, read as JSON of one of the three shapes.
#[derive(Debug)]
pub enum Payload {
    Weather(WeatherData),
    Joke(JokeFields),
    Exchange(ExchangerateResponse),
}

/// The content of a [`Payload`].
pub enum PayloadView {
    Weather(WeatherDataView),
    Joke(JokeFieldsView),
    Exchange(ExchangerateResponseView),
}

impl View for Payload {
    type V = PayloadView;

    open spec fn view(&self) -> PayloadView {
        match self {
            Payload::Weather(data) => PayloadView::Weather(data@),
            Payload::Joke(fields) => PayloadView::Joke(fields@),
            Payload::Exchange(data) => PayloadView::Exchange(data@),
        }
    }
}

/// What the driver of a dispatch reports: nothing yet, or what came of the
/// turn before.
#[derive(Debug)]
pub enum Event {
    /// The dispatch begins.
    Start,
    /// What came of sending the request.
    Sent(Sent),
    /// What came of reading the body: its content, or why it could not be
    /// read.
    Body(Result<Payload, String>),
    /// The time: `secs` seconds after the start of 1970.
    Clock { secs: i64 },
    /// How the delivery of the reply went, `elapsed_ms` milliseconds after
    /// the dispatch began: well, or else why not.
    Delivered { result: Result<(), String>, elapsed_ms: u128 },
}

/// The content of an [`Event`].
pub enum EventView {
    Start,
    Sent(SentView),
    Body(Result<PayloadView, Seq<char>>),
    Clock { secs: i64 },
    Delivered { failure: Option<Seq<char>>, elapsed_ms: u128 },
}

impl View for Event {
    type V = EventView;

    open spec fn view(&self) -> EventView {
        match self {
            Event::Start => EventView::Start,
            Event::Sent(sent) => EventView::Sent(sent@),
            Event::Body(Ok(payload)) => EventView::Body(Ok(payload@)),
            Event::Body(Err(cause)) => EventView::Body(Err(cause@)),
            Event::Clock { secs } => EventView::Clock { secs: *secs },
            Event::Delivered { result, elapsed_ms } => EventView::Delivered {
                failure: metrics::failure_of(*result),
                elapsed_ms: *elapsed_ms,
            },
        }
    }
}

/// Why a body of another shape than the command expects is refused.
pub open spec fn wrong_shape_cause() -> Seq<char> {
    "the body is of another shape than the command expects"@
}

impl EventView {
    /// What the event tells a command that expects the weather: a body of
    /// another shape is a body that could not be read, and an event that
    /// answers no request is no progress.
    pub open spec fn weather_progress(self) -> ProgressView<WeatherDataView> {
        match self {
            EventView::Sent(sent) => ProgressView::Sent(sent),
            EventView::Body(Ok(PayloadView::Weather(data))) => ProgressView::Body(Ok(data)),
            EventView::Body(Ok(_)) => ProgressView::Body(Err(wrong_shape_cause())),
            EventView::Body(Err(cause)) => ProgressView::Body(Err(cause)),
            _ => ProgressView::Start,
        }
    }

    /// What the event tells a command that expects a joke.
    pub open spec fn joke_progress(self) -> ProgressView<JokeFieldsView> {
        match self {
            EventView::Sent(sent) => ProgressView::Sent(sent),
            EventView::Body(Ok(PayloadView::Joke(fields))) => ProgressView::Body(Ok(fields)),
            EventView::Body(Ok(_)) => ProgressView::Body(Err(wrong_shape_cause())),
            EventView::Body(Err(cause)) => ProgressView::Body(Err(cause)),
            _ => ProgressView::Start,
        }
    }

    /// What the event tells a command that expects a conversion.
    pub open spec fn exchange_progress(self) -> ProgressView<ExchangerateResponseView> {
        match self {
            EventView::Sent(sent) => ProgressView::Sent(sent),
            EventView::Body(Ok(PayloadView::Exchange(data))) => ProgressView::Body(Ok(data)),
            EventView::Body(Ok(_)) => ProgressView::Body(Err(wrong_shape_cause())),
            EventView::Body(Err(cause)) => ProgressView::Body(Err(cause)),
            _ => ProgressView::Start,
        }
    }
}

impl Event {
    /// What the event tells a command that expects the weather.
    pub fn into_weather(self) -> (r: Progress<WeatherData>)
        ensures
            r@ == self@.weather_progress(),
    {
        match self {
            Event::Sent(sent) => Progress::Sent(sent),
            Event::Body(Ok(Payload::Weather(data))) => Progress::Body(Ok(data)),
            Event::Body(Ok(_)) => Progress::Body(
                Err("the body is of another shape than the command expects".to_owned()),
            ),
            Event::Body(Err(cause)) => Progress::Body(Err(cause)),
            _ => Progress::Start,
        }
    }

    /// What the event tells a command that expects a joke.
    pub fn into_joke(self) -> (r: Progress<JokeFields>)
        ensures
            r@ == self@.joke_progress(),
    {
        match self {
            Event::Sent(sent) => Progress::Sent(sent),
            Event::Body(Ok(Payload::Joke(fields))) => Progress::Body(Ok(fields)),
            Event::Body(Ok(_)) => Progress::Body(
                Err("the body is of another shape than the command expects".to_owned()),
            ),
            Event::Body(Err(cause)) => Progress::Body(Err(cause)),
            _ => Progress::Start,
        }
    }

    /// What the event tells a command that expects a conversion.
    pub fn into_exchange(self) -> (r: Progress<ExchangerateResponse>)
        ensures
            r@ == self@.exchange_progress(),
    {
        match self {
            Event::Sent(sent) => Progress::Sent(sent),
            Event::Body(Ok(Payload::Exchange(data))) => Progress::Body(Ok(data)),
            Event::Body(Ok(_)) => Progress::Body(
                Err("the body is of another shape than the command expects".to_owned()),
            ),
            Event::Body(Err(cause)) => Progress::Body(Err(cause)),
            _ => Progress::Start,
        }
    }
}

/// What the time handler does: it asks for the clock, and once it has the
/// time it replies with it.
pub open spec fn time_turn(event: EventView) -> TurnView {
    match event {
        EventView::Clock { secs } => match utc_formatted(secs as int, handlers::time_pattern()) {
            Some(formatted) => reply(handlers::time_text(formatted)),
            None => reply(handlers::no_time_text()),
        },
        _ => TurnView::ReadClock,
    }
}

/// The turn of the one handler that `cmd` has, for the bot whose currency
/// credential is `token`, on the message `msg`, after `event`.
pub open spec fn route(
    token: Option<Seq<char>>,
    msg: MessageView,
    cmd: CommandView,
    event: EventView,
) -> TurnView {
    match cmd {
        CommandView::Start => reply(handlers::start_text()),
        CommandView::Ping => reply(handlers::ping_text()),
        CommandView::Help => reply(handlers::help_text()),
        CommandView::About => reply(handlers::about_text()),
        CommandView::Id => reply(handlers::id_text(msg)),
        CommandView::Time => time_turn(event),
        CommandView::Echo(text) => reply(handlers::echo_text(text)),
        CommandView::Weather(city) => weather_turn(city, event.weather_progress()),
        CommandView::Currency(input) => currency_turn(token, input, event.exchange_progress()),
        CommandView::Roll => TurnView::SendDice,
        CommandView::Joke => joke_turn(event.joke_progress()),
    }
}

/// The turn of a dispatch after `event`: once the reply is delivered or has
/// failed to be, the record of the dispatch; until then, the turn of the
/// command's handler.
pub open spec fn dispatch(
    token: Option<Seq<char>>,
    msg: MessageView,
    cmd: CommandView,
    event: EventView,
) -> TurnView {
    match event {
        EventView::Delivered { failure, elapsed_ms } => TurnView::Finish(
            msg.metrics().record(cmd, failure, elapsed_ms),
        ),
        _ => route(token, msg, cmd, event),
    }
}

/// One step of the time command.
pub fn time_step(event: &Event) -> (r: Turn)
    ensures
        r@ == time_turn(event@),
{
    match event {
        Event::Clock { secs } => match handlers::handle_time(*secs) {
            Some(text) => Turn::Send { text, diagnostic: None },
            None => Turn::Send {
                text: "🕒 The current time cannot be told.".to_owned(),
                diagnostic: None,
            },
        },
        _ => Turn::ReadClock,
    }
}

/// One step of the handler of `cmd`: each command has one handler, and no
/// other is asked.
pub fn route_command(msg: &Message, cmd: &Command, api: &ApiService, event: Event) -> (r: Turn)
    ensures
        r@ == route(api.exchange_token(), msg@, cmd@, event@),
        !(r is Finish),
{
    match cmd {
        Command::Start => Turn::Send { text: handlers::handle_start(), diagnostic: None },
        Command::Ping => Turn::Send { text: handlers::handle_ping(), diagnostic: None },
        Command::Help => Turn::Send { text: handlers::handle_help(), diagnostic: None },
        Command::About => Turn::Send { text: handlers::handle_about(), diagnostic: None },
        Command::Id => Turn::Send { text: handlers::handle_id(msg), diagnostic: None },
        Command::Time => time_step(&event),
        Command::Echo(text) => Turn::Send {
            text: handlers::handle_echo(text.as_str()),
            diagnostic: None,
        },
        Command::Weather(city) => handlers::handle_weather(
            api,
            city.as_str(),
            event.into_weather(),
        ),
        Command::Currency(input) => handlers::handle_currency(
            api,
            input.clone(),
            event.into_exchange(),
        ),
        Command::Roll => handlers::handle_roll(),
        Command::Joke => handlers::handle_joke(api, event.into_joke()),
    }
}

/// One step of the dispatch of `cmd`, which came in the message `msg`. The
/// driver begins with [`Event::Start`], does what each turn asks and reports
/// what came of it, until the turn is [`Turn::Finish`]; the result of the
/// delivery is the driver's to hand on as it got it.
pub fn dispatch_command(msg: &Message, cmd: &Command, api: &ApiService, event: Event) -> (r: Turn)
    ensures
        r@ == dispatch(api.exchange_token(), msg@, cmd@, event@),
        r is Finish <==> event is Delivered,
{
    match event {
        Event::Delivered { result, elapsed_ms } => {
            let metrics = ExecutionMetrics::from_message(msg);
            Turn::Finish(metrics.log(cmd, &result, elapsed_ms))
        },
        other => route_command(msg, cmd, api, other),
    }
}

/// How far a dispatch has come when its driver is given `turn`.
pub open spec fn stage(turn: TurnView) -> nat {
    match turn {
        TurnView::Get { .. } => 0,
        TurnView::ReadClock => 0,
        TurnView::ReadBody { .. } => 1,
        TurnView::Send { .. } => 2,
        TurnView::SendDice => 2,
        TurnView::Finish(_) => 3,
    }
}

/// Whether `turn` asks for something to be sent to the chat.
pub open spec fn is_delivery(turn: TurnView) -> bool {
    turn is Send || turn is SendDice
}

/// Whether `event` reports what came of `turn`. Nothing comes of the last
/// turn.
pub open spec fn answers(turn: TurnView, event: EventView) -> bool {
    match turn {
        TurnView::Get { .. } => event is Sent,
        TurnView::ReadBody { .. } => event is Body,
        TurnView::ReadClock => event is Clock,
        TurnView::Send { .. } => event is Delivered,
        TurnView::SendDice => event is Delivered,
        TurnView::Finish(_) => false,
    }
}

/// Whether `events` are what the driver of one dispatch reports, in order:
/// the start first, and then after each turn what came of it.
pub open spec fn is_run(
    token: Option<Seq<char>>,
    msg: MessageView,
    cmd: CommandView,
    events: Seq<EventView>,
) -> bool {
    &&& events.len() >= 1
    &&& events[0] is Start
    &&& forall|i: int|
        0 <= i < events.len() - 1 ==> answers(
            #[trigger] dispatch(token, msg, cmd, events[i]),
            events[i + 1],
        )
}

/// The turn that follows the report of what came of a turn is further on in
/// the dispatch.
pub proof fn lemma_dispatch_advances(
    token: Option<Seq<char>>,
    msg: MessageView,
    cmd: CommandView,
    event: EventView,
    next: EventView,
)
    requires
        answers(dispatch(token, msg, cmd, event), next),
    ensures
        stage(dispatch(token, msg, cmd, next)) > stage(dispatch(token, msg, cmd, event)),
{
}

/// The turns of a dispatch come in the order of their stages.
pub proof fn lemma_run_in_order(
    token: Option<Seq<char>>,
    msg: MessageView,
    cmd: CommandView,
    events: Seq<EventView>,
    i: int,
    j: int,
)
    requires
        is_run(token, msg, cmd, events),
        0 <= i < j < events.len(),
    ensures
        stage(dispatch(token, msg, cmd, events[i])) < stage(dispatch(token, msg, cmd, events[j])),
    decreases j - i,
{
    lemma_dispatch_advances(token, msg, cmd, events[j - 1], events[j]);
    if i < j - 1 {
        lemma_run_in_order(token, msg, cmd, events, i, j - 1);
    }
}

/// Dispatch is total and does each thing once. Whatever the command and
/// whatever its driver reports, a dispatch has at most four turns; each turn
/// is that of the command's one handler until the reply is out, and then the
/// dispatch ends; at most one turn sends something to the chat; and the
/// record is written once, in the last turn, right after that delivery.
pub proof fn lemma_dispatch_total(
    token: Option<Seq<char>>,
    msg: MessageView,
    cmd: CommandView,
    events: Seq<EventView>,
)
    requires
        is_run(token, msg, cmd, events),
    ensures
        events.len() <= 4,
        forall|i: int|
            0 <= i < events.len() ==> {
                let turn = #[trigger] dispatch(token, msg, cmd, events[i]);
                turn is Finish || turn == route(token, msg, cmd, events[i])
            },
        forall|i: int, j: int|
            0 <= i < j < events.len() ==> !(is_delivery(
                #[trigger] dispatch(token, msg, cmd, events[i]),
            ) && is_delivery(#[trigger] dispatch(token, msg, cmd, events[j]))),
        forall|i: int|
            0 <= i < events.len() && (#[trigger] dispatch(token, msg, cmd, events[i])) is Finish
                ==> i == events.len() - 1 && i >= 1 && is_delivery(
                dispatch(token, msg, cmd, events[i - 1]),
            ),
{
    if events.len() > 4 {
        lemma_run_in_order(token, msg, cmd, events, 0, 1);
        lemma_run_in_order(token, msg, cmd, events, 1, 2);
        lemma_run_in_order(token, msg, cmd, events, 2, 3);
        lemma_run_in_order(token, msg, cmd, events, 3, 4);
    }
    assert forall|i: int, j: int| 0 <= i < j < events.len() implies !(is_delivery(
        #[trigger] dispatch(token, msg, cmd, events[i]),
    ) && is_delivery(#[trigger] dispatch(token, msg, cmd, events[j]))) by {
        lemma_run_in_order(token, msg, cmd, events, i, j);
    }
    assert forall|i: int|
        0 <= i < events.len() && (#[trigger] dispatch(token, msg, cmd, events[i])) is Finish
        implies i == events.len() - 1 && i >= 1 && is_delivery(
        dispatch(token, msg, cmd, events[i - 1]),
    ) by {
        if i < events.len() - 1 {
            lemma_run_in_order(token, msg, cmd, events, i, i + 1);
        }
        assert(events[i] is Delivered);
        assert(i >= 1);
        assert(answers(dispatch(token, msg, cmd, events[i - 1]), events[i]));
    }
}

} // verus!
