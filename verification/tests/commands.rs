use titanio::commands::handlers::{
    handle_about, handle_echo, handle_help, handle_id, handle_ping, handle_start, handle_time,
    handle_unrecognized, time_reply, unrecognized,
};
use titanio::commands::metrics::{ExecutionMetrics, Message, Outcome, User};
use titanio::commands::parse::{classify, Inbound, ParseError};
use titanio::commands::Command;

#[test]
fn test_command_parsing() {
    assert_eq!(Command::parse("/start", "bot").unwrap(), Command::Start);
    assert_eq!(
        Command::parse("/echo hello", "bot").unwrap(),
        Command::Echo("hello".to_string())
    );
}

#[test]
fn every_command_has_its_name() {
    let cases = [
        ("/start", Command::Start),
        ("/ping", Command::Ping),
        ("/help", Command::Help),
        ("/about", Command::About),
        ("/id", Command::Id),
        ("/time", Command::Time),
        ("/echo", Command::Echo(String::new())),
        ("/weather", Command::Weather(String::new())),
        ("/currency", Command::Currency(String::new())),
        ("/roll", Command::Roll),
        ("/joke", Command::Joke),
    ];
    for (text, expected) in cases {
        assert_eq!(Command::parse(text, "bot").unwrap(), expected, "{}", text);
    }
}

#[test]
fn command_names_are_read_in_any_case() {
    assert_eq!(Command::parse("/START", "bot").unwrap(), Command::Start);
    assert_eq!(Command::parse("/Ping", "bot").unwrap(), Command::Ping);
    assert_eq!(
        Command::parse("/WeAtHeR Oslo", "bot").unwrap(),
        Command::Weather("Oslo".to_string())
    );
}

#[test]
fn arguments_are_what_follows_the_first_white_space() {
    assert_eq!(
        Command::parse("/echo   hello  world ", "bot").unwrap(),
        Command::Echo("hello  world ".to_string())
    );
    assert_eq!(
        Command::parse("/currency\t100 USD EUR", "bot").unwrap(),
        Command::Currency("100 USD EUR".to_string())
    );
    assert_eq!(Command::parse("/echo ", "bot").unwrap(), Command::Echo(String::new()));
    assert_eq!(Command::parse("/ping now", "bot").unwrap(), Command::Ping);
}

#[test]
fn a_command_may_address_the_bot() {
    assert_eq!(Command::parse("/start@bot", "bot").unwrap(), Command::Start);
    assert_eq!(Command::parse("/start@BOT", "bot").unwrap(), Command::Start);
    assert_eq!(
        Command::parse("/echo@bot hi", "bot").unwrap(),
        Command::Echo("hi".to_string())
    );
    assert_eq!(Command::parse("/start@bot@other", "bot").unwrap(), Command::Start);
}

#[test]
fn a_command_for_another_bot_is_refused() {
    match Command::parse("/start@other", "bot") {
        Err(ParseError::WrongBotName(name)) => assert_eq!(name, "other"),
        other => panic!("{:?}", other),
    }
    match Command::parse("/nothing@other", "bot") {
        Err(ParseError::WrongBotName(name)) => assert_eq!(name, "other"),
        other => panic!("{:?}", other),
    }
    match Command::parse("/start@", "bot") {
        Err(ParseError::WrongBotName(name)) => assert_eq!(name, ""),
        other => panic!("{:?}", other),
    }
}

#[test]
fn an_unknown_name_is_refused() {
    match Command::parse("/dance now", "bot") {
        Err(ParseError::UnknownCommand(name)) => assert_eq!(name, "/dance"),
        other => panic!("{:?}", other),
    }
    match Command::parse("start", "bot") {
        Err(ParseError::UnknownCommand(name)) => assert_eq!(name, "start"),
        other => panic!("{:?}", other),
    }
    match Command::parse("", "bot") {
        Err(ParseError::UnknownCommand(name)) => assert_eq!(name, ""),
        other => panic!("{:?}", other),
    }
    match Command::parse(" /start", "bot") {
        Err(ParseError::UnknownCommand(name)) => assert_eq!(name, ""),
        other => panic!("{:?}", other),
    }
    assert!(Command::parse("/startx", "bot").is_err());
    assert!(Command::parse("/star", "bot").is_err());
    assert!(Command::parse("//start", "bot").is_err());
}

#[test]
fn messages_are_told_apart() {
    assert!(matches!(classify(Some("/ping"), "bot"), Inbound::Command(Command::Ping)));
    assert!(matches!(classify(Some("/dance"), "bot"), Inbound::Unrecognized));
    assert!(matches!(classify(Some("/ping@other"), "bot"), Inbound::Unrecognized));
    assert!(matches!(classify(Some("/"), "bot"), Inbound::Unrecognized));
    assert!(matches!(classify(Some("hello"), "bot"), Inbound::Ignored));
    assert!(matches!(classify(Some(""), "bot"), Inbound::Ignored));
    assert!(matches!(classify(Some(" /ping"), "bot"), Inbound::Ignored));
    assert!(matches!(classify(None, "bot"), Inbound::Ignored));
}

#[test]
fn static_replies() {
    assert_eq!(handle_start(), "Welcome! I'm your helpful Rusty titanio bot 🦀!");
    assert_eq!(handle_ping(), "🏓 Pong! The bot is alive!");
    assert_eq!(
        handle_about(),
        "I'm Titanio 🤖, a Rust-powered Telegram bot 🦀. Built with 💖 and teloxide!"
    );
    assert_eq!(
        unrecognized(),
        "🤖 I didn't recognize that command. Type /help to see what I can do!"
    );
    assert_eq!(handle_unrecognized(), "Unrecognized input. Use /help for a list of commands.");
    assert_eq!(handle_echo("hello"), "You said: hello");
    assert_eq!(handle_echo(""), "You said: ");
}

#[test]
fn help_lists_every_command() {
    let help = handle_help();
    let mut lines = help.lines();
    assert_eq!(lines.next(), Some("Available commands:"));
    assert_eq!(lines.next(), Some(""));
    let names: Vec<&str> = lines.map(|line| line.split(" — ").next().unwrap()).collect();
    assert_eq!(
        names,
        vec![
            "/start", "/ping", "/help", "/about", "/id", "/time", "/echo", "/weather",
            "/currency", "/roll", "/joke"
        ]
    );
    for name in names {
        assert!(Command::parse(name, "bot").is_ok(), "{}", name);
    }
    assert!(help.contains("/echo — Echo a message.\n"));
    assert!(help.ends_with("/joke — Tell a random joke."));
}

#[test]
fn id_reply_names_the_sender_and_the_chat() {
    let msg = Message {
        from: Some(User { id: 123456789, username: Some("ada".to_string()) }),
        chat_id: -1001234567890,
    };
    assert_eq!(handle_id(&msg), "👤 Your user ID: 123456789\n💬 Chat ID: -1001234567890");
    let msg = Message { from: None, chat_id: 42 };
    assert_eq!(handle_id(&msg), "❓ Could not determine your user ID.\n💬 Chat ID: 42");
    let msg = Message {
        from: Some(User { id: u64::MAX, username: None }),
        chat_id: i64::MIN,
    };
    assert_eq!(
        handle_id(&msg),
        format!("👤 Your user ID: {}\n💬 Chat ID: {}", u64::MAX, i64::MIN)
    );
    let msg = Message { from: Some(User { id: 0, username: None }), chat_id: 0 };
    assert_eq!(handle_id(&msg), "👤 Your user ID: 0\n💬 Chat ID: 0");
}

#[test]
fn time_reply_writes_the_moment_in_utc() {
    assert_eq!(
        handle_time(0),
        Some("Current UTC time: 🕒 1970-01-01 00:00:00".to_string())
    );
    assert_eq!(
        handle_time(1_700_000_000),
        Some("Current UTC time: 🕒 2023-11-14 22:13:20".to_string())
    );
    assert_eq!(
        handle_time(-1),
        Some("Current UTC time: 🕒 1969-12-31 23:59:59".to_string())
    );
    assert_eq!(handle_time(i64::MAX), None);
    assert_eq!(handle_time(i64::MIN), None);
    assert_eq!(time_reply("noon"), "Current UTC time: noon");
}

#[test]
fn metrics_are_taken_from_the_message() {
    let msg = Message {
        from: Some(User { id: 77, username: Some("ada".to_string()) }),
        chat_id: -5,
    };
    let metrics = ExecutionMetrics::from_message(&msg);
    assert_eq!(metrics.user_id, "77");
    assert_eq!(metrics.username, "ada");
    assert_eq!(metrics.chat_id, -5);

    let msg = Message { from: Some(User { id: 77, username: None }), chat_id: 9 };
    let metrics = ExecutionMetrics::from_message(&msg);
    assert_eq!(metrics.user_id, "77");
    assert_eq!(metrics.username, "unknown");

    let msg = Message { from: None, chat_id: 9 };
    let metrics = ExecutionMetrics::from_message(&msg);
    assert_eq!(metrics.user_id, "unknown");
    assert_eq!(metrics.username, "unknown");
    assert_eq!(metrics.chat_id, 9);
}

#[test]
fn record_of_a_success() {
    let msg = Message {
        from: Some(User { id: 77, username: Some("ada".to_string()) }),
        chat_id: -5,
    };
    let metrics = ExecutionMetrics::from_message(&msg);
    let record = metrics.log(&Command::Echo("hi \"you\"\n".to_string()), &Ok(()), 12);
    assert!(!record.is_failure());
    assert!(matches!(record.outcome, Outcome::Success));
    assert_eq!(record.duration_ms, 12);
    assert_eq!(record.command, format!("{:?}", Command::Echo("hi \"you\"\n".to_string())));
    assert_eq!(
        record.line(),
        "\x1b[32m[SUCCESS]\x1b[0m Command: Echo(\"hi \\\"you\\\"\\n\") | User: 77 (@ada) | Chat: -5 | 12ms"
    );
}

#[test]
fn record_of_a_failure() {
    let msg = Message { from: None, chat_id: 1 };
    let metrics = ExecutionMetrics::from_message(&msg);
    let record = metrics.log(&Command::Roll, &Err("Network(timeout)".to_string()), u128::MAX);
    assert!(record.is_failure());
    assert_eq!(
        record.line(),
        format!(
            "\x1b[31m[ERROR]\x1b[0m Command: Roll | User: unknown (@unknown) | Chat: 1 | {}ms | Network(timeout)",
            u128::MAX
        )
    );
}

#[test]
fn commands_are_written_as_their_debug_form() {
    let commands = [
        Command::Start,
        Command::Ping,
        Command::Help,
        Command::About,
        Command::Id,
        Command::Time,
        Command::Echo("a\tb".to_string()),
        Command::Weather("São Paulo".to_string()),
        Command::Currency("100 USD 'EUR'\\".to_string()),
        Command::Roll,
        Command::Joke,
    ];
    for command in commands {
        assert_eq!(command.debug_text(), format!("{:?}", command));
    }
}
