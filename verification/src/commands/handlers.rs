//! The handlers: one for each command, and one for what is no command.
//!
//! A handler never fails. One that asks an upstream turns every failure of
//! the call into a reply for the user and a line for the error log.

use crate::commands::currency::{request_of, CurrencyRequest};
use crate::commands::metrics::{Message, MessageView};
use crate::commands::{Shape, Turn, TurnView};
use crate::number::{decimal, push_decimal, push_signed_decimal, signed_decimal};
use crate::services::models::{ExchangerateResponse, ExchangerateResponseView, JokeFields,
    JokeFieldsView, WeatherData, WeatherDataView};
use crate::services::{currency_step, joke_step, weather_step, ApiService, Progress,
    ProgressView, ServiceError, ServiceErrorView, Step, StepView};
use crate::text::{is_blank, is_blank_text};
use crate::trusted::{format_utc, utc_formatted};
use vstd::prelude::*;

verus! {

/// The greeting.
pub open spec fn start_text() -> Seq<char> {
    "Welcome! I'm your helpful Rusty titanio bot 🦀!"@
}

/// The answer to a ping.
pub open spec fn ping_text() -> Seq<char> {
    "🏓 Pong! The bot is alive!"@
}

/// What the bot says of itself.
pub open spec fn about_text() -> Seq<char> {
    "I'm Titanio 🤖, a Rust-powered Telegram bot 🦀. Built with 💖 and teloxide!"@
}

/// The list of the commands.
pub open spec fn help_text() -> Seq<char> {
    "Available commands:\n\n\
     /start — Start the bot.\n\
     /ping — Check if the bot is alive.\n\
     /help — Display this help message.\n\
     /about — Show bot information.\n\
     /id — Show your user ID and chat ID.\n\
     /time — Show the current time.\n\
     /echo — Echo a message.\n\
     /weather — Check weather in a city.\n\
     /currency — Convert currency (e.g., '10 USD to EUR').\n\
     /roll — Roll a random number.\n\
     /joke — Tell a random joke."@
}

/// The reply to a text that begins like a command and names none.
pub open spec fn unrecognized_text() -> Seq<char> {
    "🤖 I didn't recognize that command. Type /help to see what I can do!"@
}

/// The plain reply to a text that names no command.
pub open spec fn unrecognized_input_text() -> Seq<char> {
    "Unrecognized input. Use /help for a list of commands."@
}

/// The reply to the echo command.
pub open spec fn echo_text(text: Seq<char>) -> Seq<char> {
    "You said: "@ + text
}

/// The reply to the id command: the sender's identifier, where the message
/// has a sender, and the chat's.
pub open spec fn id_text(msg: MessageView) -> Seq<char> {
    match msg.from {
        Some(user) => "👤 Your user ID: "@ + decimal(user.id as nat) + "\n💬 Chat ID: "@
            + signed_decimal(msg.chat_id as int),
        None => "❓ Could not determine your user ID.\n💬 Chat ID: "@ + signed_decimal(
            msg.chat_id as int,
        ),
    }
}

/// How the time command writes a moment: a clock face, the date and the time
/// of day.
pub open spec fn time_pattern() -> Seq<char> {
    "🕒 %Y-%m-%d %H:%M:%S"@
}

/// The reply to the time command, given the moment as it is written.
pub open spec fn time_text(formatted: Seq<char>) -> Seq<char> {
    "Current UTC time: "@ + formatted
}

/// The reply to the time command when the clock cannot be written.
pub open spec fn no_time_text() -> Seq<char> {
    "🕒 The current time cannot be told."@
}

/// The reply to a weather command that names no city.
pub open spec fn no_city_text() -> Seq<char> {
    "⚠️ Please enter a valid city name."@
}

/// The reply to a currency command whose argument is not an amount and two
/// codes.
pub open spec fn currency_usage_text() -> Seq<char> {
    "Usage: /currency <amount> <from> <to>\nExample: /currency 100 USD EUR"@
}

/// The reply that tells the weather in `city`.
pub open spec fn weather_text(city: Seq<char>, temp_c: Seq<char>, description: Seq<char>) -> Seq<
    char,
> {
    "🌤️ Weather in "@ + city + ": "@ + temp_c + "°C, "@ + description
}

/// The reply that tells a conversion.
pub open spec fn currency_text(
    amount: Seq<char>,
    from: Seq<char>,
    to: Seq<char>,
    result: Seq<char>,
) -> Seq<char> {
    "🔄 "@ + amount + " "@ + from + " = "@ + result + " "@ + to
}

/// The reply after a failure `e` of an upstream call, introduced by `intro`:
/// the user reads `e` in general words, the error log reads all of it.
pub open spec fn failure_turn(
    intro: Seq<char>,
    log_intro: Seq<char>,
    e: ServiceErrorView,
) -> TurnView {
    TurnView::Send {
        text: intro + e.user_message(),
        diagnostic: Some(log_intro + e.description()),
    }
}

/// A reply with nothing for the error log.
pub open spec fn reply(text: Seq<char>) -> TurnView {
    TurnView::Send { text, diagnostic: None }
}

/// What the weather handler does with the argument `city`. A city that is
/// blank is answered at once, and nothing is asked of the upstream.
pub open spec fn weather_turn(
    city: Seq<char>,
    progress: ProgressView<WeatherDataView>,
) -> TurnView {
    if is_blank(city) {
        reply(no_city_text())
    } else {
        match weather_step(city, progress) {
            StepView::Get { url } => TurnView::Get { url },
            StepView::ReadBody => TurnView::ReadBody { shape: Shape::Weather },
            StepView::Done(Ok(snapshot)) => reply(
                weather_text(city, snapshot.temp_c, snapshot.description),
            ),
            StepView::Done(Err(e)) => failure_turn("❌ "@, "Weather lookup failed: "@, e),
        }
    }
}

/// What the joke handler does.
pub open spec fn joke_turn(progress: ProgressView<JokeFieldsView>) -> TurnView {
    match joke_step(progress) {
        StepView::Get { url } => TurnView::Get { url },
        StepView::ReadBody => TurnView::ReadBody { shape: Shape::Joke },
        StepView::Done(Ok(joke)) => reply(joke),
        StepView::Done(Err(e)) => failure_turn(
            "😓 Failed to fetch a joke: "@,
            "Joke lookup failed: "@,
            e,
        ),
    }
}

/// What the currency handler does with the argument `input`. An argument
/// that is not an amount and two codes is answered at once with the usage,
/// and nothing is asked of the upstream.
pub open spec fn currency_turn(
    token: Option<Seq<char>>,
    input: Seq<char>,
    progress: ProgressView<ExchangerateResponseView>,
) -> TurnView {
    match request_of(input) {
        None => reply(currency_usage_text()),
        Some(request) => match currency_step(
            token,
            request.amount,
            request.from,
            request.to,
            progress,
        ) {
            StepView::Get { url } => TurnView::Get { url },
            StepView::ReadBody => TurnView::ReadBody { shape: Shape::Exchange },
            StepView::Done(Ok(result)) => reply(
                currency_text(request.amount, request.from, request.to, result),
            ),
            StepView::Done(Err(e)) => failure_turn(
                "❌ Currency conversion failed: "@,
                "Currency conversion failed: "@,
                e,
            ),
        },
    }
}

/// The reply to the start command.
pub fn handle_start() -> (r: String)
    ensures
        r@ == start_text(),
{
    "Welcome! I'm your helpful Rusty titanio bot 🦀!".to_owned()
}

/// The reply to the ping command.
pub fn handle_ping() -> (r: String)
    ensures
        r@ == ping_text(),
{
    "🏓 Pong! The bot is alive!".to_owned()
}

/// The reply to the about command.
pub fn handle_about() -> (r: String)
    ensures
        r@ == about_text(),
{
    "I'm Titanio 🤖, a Rust-powered Telegram bot 🦀. Built with 💖 and teloxide!".to_owned()
}

/// The reply to the help command.
pub fn handle_help() -> (r: String)
    ensures
        r@ == help_text(),
{
    "Available commands:\n\n\
     /start — Start the bot.\n\
     /ping — Check if the bot is alive.\n\
     /help — Display this help message.\n\
     /about — Show bot information.\n\
     /id — Show your user ID and chat ID.\n\
     /time — Show the current time.\n\
     /echo — Echo a message.\n\
     /weather — Check weather in a city.\n\
     /currency — Convert currency (e.g., '10 USD to EUR').\n\
     /roll — Roll a random number.\n\
     /joke — Tell a random joke.".to_owned()
}

/// The reply to a text that begins like a command and names none.
pub fn unrecognized() -> (r: String)
    ensures
        r@ == unrecognized_text(),
{
    "🤖 I didn't recognize that command. Type /help to see what I can do!".to_owned()
}

/// The plain reply to a text that names no command.
pub fn handle_unrecognized() -> (r: String)
    ensures
        r@ == unrecognized_input_text(),
{
    "Unrecognized input. Use /help for a list of commands.".to_owned()
}

/// The reply to the echo command with the argument `text`.
pub fn handle_echo(text: &str) -> (r: String)
    ensures
        r@ == echo_text(text@),
{
    let mut out = "You said: ".to_owned();
    out.append(text);
    out
}

/// The reply to the id command in `msg`.
pub fn handle_id(msg: &Message) -> (r: String)
    ensures
        r@ == id_text(msg@),
{
    let mut out = String::new();
    match &msg.from {
        Some(user) => {
            out.append("👤 Your user ID: ");
            push_decimal(&mut out, user.id as u128);
            out.append("\n💬 Chat ID: ");
        },
        None => {
            out.append("❓ Could not determine your user ID.\n💬 Chat ID: ");
        },
    }
    push_signed_decimal(&mut out, msg.chat_id);
    assert(out@ =~= id_text(msg@));
    out
}

/// The turn of the roll command: a dice for the chat.
pub fn handle_roll() -> (r: Turn)
    ensures
        r@ == TurnView::SendDice,
{
    Turn::SendDice
}

/// The reply to the time command, given the moment as it is written.
pub fn time_reply(formatted: &str) -> (r: String)
    ensures
        r@ == time_text(formatted@),
{
    let mut out = "Current UTC time: ".to_owned();
    out.append(formatted);
    out
}

/// The reply to the time command at the moment `secs` seconds after the
/// start of 1970, or `None` where that moment cannot be written.
pub fn handle_time(secs: i64) -> (r: Option<String>)
    ensures
        match utc_formatted(secs as int, time_pattern()) {
            Some(formatted) => r matches Some(text) && text@ == time_text(formatted),
            None => r is None,
        },
{
    match format_utc(secs, "🕒 %Y-%m-%d %H:%M:%S") {
        Some(formatted) => Some(time_reply(formatted.as_str())),
        None => None,
    }
}

/// The reply after the failure `e` of an upstream call.
pub fn failure_reply(intro: &str, log_intro: &str, e: &ServiceError) -> (r: Turn)
    ensures
        r@ == failure_turn(intro@, log_intro@, e@),
{
    let mut text = intro.to_owned();
    text.append(e.user_message().as_str());
    let mut diagnostic = log_intro.to_owned();
    diagnostic.append(e.to_string().as_str());
    Turn::Send { text, diagnostic: Some(diagnostic) }
}

/// One step of the weather command with the argument `city`.
pub fn handle_weather(api: &ApiService, city: &str, progress: Progress<WeatherData>) -> (r: Turn)
    ensures
        r@ == weather_turn(city@, progress@),
{
    if is_blank_text(city) {
        return Turn::Send {
            text: "⚠️ Please enter a valid city name.".to_owned(),
            diagnostic: None,
        };
    }
    match api.get_weather(city, progress) {
        Step::Get { url } => Turn::Get { url },
        Step::ReadBody => Turn::ReadBody { shape: Shape::Weather },
        Step::Done(Ok(snapshot)) => {
            let mut text = "🌤️ Weather in ".to_owned();
            text.append(city);
            text.append(": ");
            text.append(snapshot.temp_c.as_str());
            text.append("°C, ");
            text.append(snapshot.description.as_str());
            assert(text@ =~= weather_text(city@, snapshot@.temp_c, snapshot@.description));
            Turn::Send { text, diagnostic: None }
        },
        Step::Done(Err(e)) => failure_reply("❌ ", "Weather lookup failed: ", &e),
    }
}

/// One step of the joke command.
pub fn handle_joke(api: &ApiService, progress: Progress<JokeFields>) -> (r: Turn)
    ensures
        r@ == joke_turn(progress@),
{
    match api.get_joke(progress) {
        Step::Get { url } => Turn::Get { url },
        Step::ReadBody => Turn::ReadBody { shape: Shape::Joke },
        Step::Done(Ok(joke)) => Turn::Send { text: joke, diagnostic: None },
        Step::Done(Err(e)) => failure_reply(
            "😓 Failed to fetch a joke: ",
            "Joke lookup failed: ",
            &e,
        ),
    }
}

/// One step of the currency command with the argument `text`.
pub fn handle_currency(
    api: &ApiService,
    text: String,
    progress: Progress<ExchangerateResponse>,
) -> (r: Turn)
    ensures
        r@ == currency_turn(api.exchange_token(), text@, progress@),
{
    let request = match CurrencyRequest::parse(text.as_str()) {
        Some(request) => request,
        None => {
            return Turn::Send {
                text: "Usage: /currency <amount> <from> <to>\nExample: /currency 100 USD EUR"
                    .to_owned(),
                diagnostic: None,
            };
        },
    };
    let amount = request.amount.as_str();
    let from = request.from.as_str();
    let to = request.to.as_str();
    match api.convert_currency(amount, from, to, progress) {
        Step::Get { url } => Turn::Get { url },
        Step::ReadBody => Turn::ReadBody { shape: Shape::Exchange },
        Step::Done(Ok(result)) => {
            let mut out = "🔄 ".to_owned();
            out.append(amount);
            out.append(" ");
            out.append(from);
            out.append(" = ");
            out.append(result.as_str());
            out.append(" ");
            out.append(to);
            assert(out@ =~= currency_text(amount@, from@, to@, result@));
            Turn::Send { text: out, diagnostic: None }
        },
        Step::Done(Err(e)) => failure_reply(
            "❌ Currency conversion failed: ",
            "Currency conversion failed: ",
            &e,
        ),
    }
}

/// Whether `turn` sends a reply that is not empty.
pub open spec fn is_reply(turn: TurnView) -> bool {
    turn matches TurnView::Send { text, .. } && text.len() > 0
}

/// Every failure of an upstream call is answered: whichever failure ends the
/// call of a handler, the handler's turn is a reply to the user, and the
/// reply is not empty.
pub proof fn lemma_failures_are_answered(
    token: Option<Seq<char>>,
    city: Seq<char>,
    input: Seq<char>,
    weather: ProgressView<WeatherDataView>,
    joke: ProgressView<JokeFieldsView>,
    exchange: ProgressView<ExchangerateResponseView>,
)
    ensures
        weather_step(city, weather) matches StepView::Done(Err(_)) ==> is_reply(
            weather_turn(city, weather),
        ),
        joke_step(joke) matches StepView::Done(Err(_)) ==> is_reply(joke_turn(joke)),
        request_of(input) matches Some(request) ==> ((currency_step(
            token,
            request.amount,
            request.from,
            request.to,
            exchange,
        ) matches StepView::Done(Err(_))) ==> is_reply(currency_turn(token, input, exchange))),
{
    reveal_strlit("⚠️ Please enter a valid city name.");
    reveal_strlit("❌ ");
    reveal_strlit("😓 Failed to fetch a joke: ");
    reveal_strlit("❌ Currency conversion failed: ");
}

} // verus!
