use titanio::commands::metrics::{ExecutionRecord, Message, User};
use titanio::commands::{dispatch_command, route_command, Command, Event, Payload, Shape, Turn};
use titanio::services::models::{CurrentCondition, WeatherDesc};
use titanio::services::{
    ApiService, ErrorData, ExchangerateResponse, JokeFields, Sent, WeatherData,
};

fn message() -> Message {
    Message { from: Some(User { id: 7, username: Some("ada".to_string()) }), chat_id: 99 }
}

fn sunny() -> WeatherData {
    WeatherData {
        current_condition: vec![CurrentCondition {
            temp_c: "21".to_string(),
            weather_desc: vec![WeatherDesc { value: "Sunny".to_string() }],
        }],
    }
}

/// What a run of one dispatch did.
struct Run {
    requests: Vec<String>,
    bodies_read: usize,
    clock_read: usize,
    replies: Vec<String>,
    diagnostics: Vec<String>,
    dice: usize,
    records: Vec<ExecutionRecord>,
    turns: usize,
}

/// Runs one dispatch to its end. Each request is answered with `status`,
/// each body with `body`, the clock with `secs`, each delivery with
/// `delivery`.
fn run(
    api: &ApiService,
    cmd: &Command,
    status: Result<u16, &str>,
    body: &dyn Fn() -> Result<Payload, String>,
    delivery: Result<(), String>,
) -> Run {
    let msg = message();
    let mut out = Run {
        requests: vec![],
        bodies_read: 0,
        clock_read: 0,
        replies: vec![],
        diagnostics: vec![],
        dice: 0,
        records: vec![],
        turns: 0,
    };
    let mut event = Event::Start;
    loop {
        out.turns += 1;
        assert!(out.turns <= 4, "a dispatch has at most four turns");
        event = match dispatch_command(&msg, cmd, api, event) {
            Turn::Get { url } => {
                out.requests.push(url);
                Event::Sent(match status {
                    Ok(status) => Sent::Answered { status },
                    Err(cause) => Sent::Failed { cause: cause.to_string() },
                })
            }
            Turn::ReadBody { .. } => {
                out.bodies_read += 1;
                Event::Body(body())
            }
            Turn::ReadClock => {
                out.clock_read += 1;
                Event::Clock { secs: 86_400 }
            }
            Turn::Send { text, diagnostic } => {
                out.replies.push(text);
                out.diagnostics.extend(diagnostic);
                Event::Delivered { result: delivery.clone(), elapsed_ms: 5 }
            }
            Turn::SendDice => {
                out.dice += 1;
                Event::Delivered { result: delivery.clone(), elapsed_ms: 5 }
            }
            Turn::Finish(record) => {
                out.records.push(record);
                return out;
            }
        };
    }
}

fn no_body() -> Result<Payload, String> {
    Err("no body".to_string())
}

#[test]
fn every_command_is_dispatched_once() {
    let api = ApiService::new(Some("k".to_string()));
    let commands = [
        Command::Start,
        Command::Ping,
        Command::Help,
        Command::About,
        Command::Id,
        Command::Time,
        Command::Echo("hi".to_string()),
        Command::Weather("Oslo".to_string()),
        Command::Weather(String::new()),
        Command::Currency("100 USD EUR".to_string()),
        Command::Currency("nonsense".to_string()),
        Command::Roll,
        Command::Joke,
    ];
    for cmd in commands {
        for status in [Ok(200u16), Ok(404), Ok(500), Err("down")] {
            for delivery in [Ok(()), Err("blocked".to_string())] {
                let done = run(&api, &cmd, status, &no_body, delivery.clone());
                assert_eq!(done.records.len(), 1, "{:?}", cmd);
                assert_eq!(done.replies.len() + done.dice, 1, "{:?}", cmd);
                assert!(done.requests.len() <= 1, "{:?}", cmd);
                assert!(done.bodies_read <= done.requests.len(), "{:?}", cmd);
                assert_eq!(done.records[0].is_failure(), delivery.is_err(), "{:?}", cmd);
                assert_eq!(done.records[0].command, format!("{:?}", cmd));
                assert_eq!(done.records[0].duration_ms, 5);
            }
        }
    }
}

#[test]
fn static_commands_reply_at_once() {
    let api = ApiService::new(None);
    let cases = [
        (Command::Start, "Welcome! I'm your helpful Rusty titanio bot 🦀!".to_string()),
        (Command::Ping, "🏓 Pong! The bot is alive!".to_string()),
        (Command::Echo("hi there".to_string()), "You said: hi there".to_string()),
        (Command::Id, "👤 Your user ID: 7\n💬 Chat ID: 99".to_string()),
    ];
    for (cmd, expected) in cases {
        let done = run(&api, &cmd, Ok(200), &no_body, Ok(()));
        assert_eq!(done.replies, vec![expected]);
        assert_eq!(done.turns, 2);
        assert!(done.requests.is_empty());
        assert!(done.diagnostics.is_empty());
    }
    let done = run(&api, &Command::Roll, Ok(200), &no_body, Ok(()));
    assert_eq!(done.dice, 1);
    assert!(done.replies.is_empty());
}

#[test]
fn time_command_reads_the_clock() {
    let api = ApiService::new(None);
    let done = run(&api, &Command::Time, Ok(200), &no_body, Ok(()));
    assert_eq!(done.clock_read, 1);
    assert_eq!(done.replies, vec!["Current UTC time: 🕒 1970-01-02 00:00:00".to_string()]);
    match route_command(&message(), &Command::Time, &api, Event::Clock { secs: i64::MAX }) {
        Turn::Send { text, diagnostic } => {
            assert_eq!(text, "🕒 The current time cannot be told.");
            assert!(diagnostic.is_none());
        }
        other => panic!("{:?}", other),
    }
}

#[test]
fn weather_command_tells_the_weather() {
    let api = ApiService::new(None);
    let done = run(
        &api,
        &Command::Weather("New York".to_string()),
        Ok(200),
        &|| Ok(Payload::Weather(sunny())),
        Ok(()),
    );
    assert_eq!(done.requests, vec!["https://wttr.in/New%20York?format=j1".to_string()]);
    assert_eq!(done.bodies_read, 1);
    assert_eq!(done.replies, vec!["🌤️ Weather in New York: 21°C, Sunny".to_string()]);
    assert!(done.diagnostics.is_empty());
    assert_eq!(done.turns, 4);
}

#[test]
fn weather_command_without_a_city_asks_for_nothing() {
    let api = ApiService::new(None);
    for city in ["", " ", "\t \u{3000}"] {
        let done = run(&api, &Command::Weather(city.to_string()), Ok(200), &no_body, Ok(()));
        assert_eq!(done.replies, vec!["⚠️ Please enter a valid city name.".to_string()]);
        assert!(done.requests.is_empty());
    }
}

#[test]
fn weather_of_an_unknown_city_is_answered_without_reading_a_body() {
    let api = ApiService::new(None);
    let done = run(&api, &Command::Weather("Atlantis".to_string()), Ok(404), &no_body, Ok(()));
    assert_eq!(done.bodies_read, 0);
    assert_eq!(done.replies, vec!["❌ City not found: Atlantis".to_string()]);
    assert_eq!(
        done.diagnostics,
        vec!["Weather lookup failed: City not found: Atlantis".to_string()]
    );
}

#[test]
fn joke_command_tells_the_joke() {
    let api = ApiService::new(None);
    let done = run(
        &api,
        &Command::Joke,
        Ok(200),
        &|| {
            Ok(Payload::Joke(JokeFields {
                joke: None,
                setup: Some("Knock knock.".to_string()),
                delivery: Some("Who's there?".to_string()),
            }))
        },
        Ok(()),
    );
    assert_eq!(done.replies, vec!["Knock knock.\nWho's there?".to_string()]);
    let done = run(&api, &Command::Joke, Err("down"), &no_body, Ok(()));
    assert_eq!(
        done.replies,
        vec!["😓 Failed to fetch a joke: the service could not be reached, try again later"
            .to_string()]
    );
    assert_eq!(
        done.diagnostics,
        vec!["Joke lookup failed: Network error for https://v2.jokeapi.dev/joke/Any?safe-mode&type=single,twopart: down".to_string()]
    );
}

#[test]
fn currency_command_tells_the_conversion() {
    let api = ApiService::new(Some("k".to_string()));
    let result = format!("{}", 1.08_f64);
    let done = run(
        &api,
        &Command::Currency("100 USD EUR".to_string()),
        Ok(200),
        &|| {
            Ok(Payload::Exchange(ExchangerateResponse {
                success: true,
                result: Some(result.clone()),
                error: None,
            }))
        },
        Ok(()),
    );
    assert_eq!(
        done.requests,
        vec!["https://api.exchangerate.host/convert?access_key=k&from=USD&to=EUR&amount=100"
            .to_string()]
    );
    assert_eq!(done.replies, vec!["🔄 100 USD = 1.08 EUR".to_string()]);
    let reply = &done.replies[0];
    let amount = reply.find("100").unwrap();
    let from = reply.find("USD").unwrap();
    let converted = reply.find("1.08").unwrap();
    let to = reply.find("EUR").unwrap();
    assert!(amount < from && from < converted && converted < to);
}

#[test]
fn currency_command_takes_a_signed_amount_and_one_with_an_exponent() {
    let api = ApiService::new(Some("k".to_string()));
    for (input, amount) in [("+5 usd eur", "+5"), ("1e3 usd eur", "1e3")] {
        let done = run(
            &api,
            &Command::Currency(input.to_string()),
            Ok(200),
            &|| {
                Ok(Payload::Exchange(ExchangerateResponse {
                    success: true,
                    result: Some("4.6".to_string()),
                    error: None,
                }))
            },
            Ok(()),
        );
        assert_eq!(
            done.requests,
            vec![format!(
                "https://api.exchangerate.host/convert?access_key=k&from=USD&to=EUR&amount={}",
                amount
            )]
        );
        assert_eq!(done.replies, vec![format!("🔄 {} usd = 4.6 eur", amount)]);
    }
}

#[test]
fn currency_command_with_a_bad_argument_shows_the_usage() {
    let api = ApiService::new(Some("k".to_string()));
    for input in [
        "",
        "USD EUR",
        "abc USD EUR",
        "100 USD EUR XYZ",
        "100 USD",
        "inf USD EUR",
        "NaN USD EUR",
        "-5 USD EUR",
        "0 USD EUR",
        "0e3 USD EUR",
    ] {
        let done = run(&api, &Command::Currency(input.to_string()), Ok(200), &no_body, Ok(()));
        assert_eq!(
            done.replies,
            vec!["Usage: /currency <amount> <from> <to>\nExample: /currency 100 USD EUR".to_string()]
        );
        assert!(done.requests.is_empty());
    }
}

#[test]
fn currency_command_without_credential_sends_no_request() {
    let api = ApiService::new(None);
    let done = run(&api, &Command::Currency("100 USD EUR".to_string()), Ok(200), &no_body, Ok(()));
    assert!(done.requests.is_empty());
    assert_eq!(
        done.replies,
        vec!["❌ Currency conversion failed: Missing required token: EXCHANGERATE_TOKEN".to_string()]
    );
    assert_eq!(
        done.diagnostics,
        vec!["Currency conversion failed: Missing required token: EXCHANGERATE_TOKEN".to_string()]
    );
}

#[test]
fn currency_command_passes_on_what_the_upstream_says() {
    let api = ApiService::new(Some("k".to_string()));
    let done = run(
        &api,
        &Command::Currency("100 XXX EUR".to_string()),
        Ok(200),
        &|| {
            Ok(Payload::Exchange(ExchangerateResponse {
                success: false,
                result: None,
                error: Some(ErrorData {
                    code: 201,
                    info: "You have supplied an invalid Source Currency.".to_string(),
                }),
            }))
        },
        Ok(()),
    );
    assert_eq!(
        done.replies,
        vec!["❌ Currency conversion failed: You have supplied an invalid Source Currency."
            .to_string()]
    );
}

#[test]
fn every_service_failure_is_answered() {
    let api = ApiService::new(Some("SECRET-REDACTED".to_string()));
    let commands = [
        Command::Weather("Oslo".to_string()),
        Command::Joke,
        Command::Currency("100 USD EUR".to_string()),
    ];
    let empty_failure = || {
        Ok(Payload::Exchange(ExchangerateResponse {
            success: false,
            result: None,
            error: Some(ErrorData { code: 0, info: String::new() }),
        }))
    };
    let wrong_shape = || Ok(Payload::Weather(WeatherData { current_condition: vec![] }));
    let bodies: [&dyn Fn() -> Result<Payload, String>; 3] = [&no_body, &empty_failure, &wrong_shape];
    for cmd in &commands {
        for status in [Ok(200u16), Ok(404), Ok(500), Err("down")] {
            for body in bodies {
                let done = run(&api, cmd, status, body, Ok(()));
                assert_eq!(done.replies.len(), 1);
                assert!(!done.replies[0].is_empty());
                assert_eq!(done.diagnostics.len(), 1, "{:?} {:?}", cmd, status);
                assert!(!done.replies[0].contains("SECRET-REDACTED"), "{}", done.replies[0]);
                assert_eq!(done.records.len(), 1);
                assert!(!done.records[0].is_failure());
            }
        }
    }
}

#[test]
fn a_body_of_another_shape_is_a_parse_failure() {
    let api = ApiService::new(None);
    let done = run(
        &api,
        &Command::Joke,
        Ok(200),
        &|| Ok(Payload::Weather(sunny())),
        Ok(()),
    );
    assert_eq!(
        done.replies,
        vec!["😓 Failed to fetch a joke: the service's answer could not be read".to_string()]
    );
    assert!(done.diagnostics[0].starts_with("Joke lookup failed: Parse error for "));
}

#[test]
fn roll_command_sends_a_dice() {
    assert!(matches!(titanio::commands::handlers::handle_roll(), Turn::SendDice));
}

#[test]
fn bodies_are_asked_for_in_the_shape_of_the_command() {
    let api = ApiService::new(Some("k".to_string()));
    let msg = message();
    let sent = || Event::Sent(Sent::Answered { status: 200 });
    assert!(matches!(
        route_command(&msg, &Command::Weather("Oslo".to_string()), &api, sent()),
        Turn::ReadBody { shape: Shape::Weather }
    ));
    assert!(matches!(
        route_command(&msg, &Command::Joke, &api, sent()),
        Turn::ReadBody { shape: Shape::Joke }
    ));
    assert!(matches!(
        route_command(&msg, &Command::Currency("1 a b".to_string()), &api, sent()),
        Turn::ReadBody { shape: Shape::Exchange }
    ));
}
