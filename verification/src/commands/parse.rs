//! How a message names a command.
//!
//! A command is written `/name`, or `/name@bot` to address one bot among
//! several, and then, after white space, its argument. The name is read
//! without regard to the case of its letters.

use crate::commands::{Command, CommandView};
use crate::text::{chars_of, folded, lemma_run_is, non_space, other_than, range_is, run,
    same_ignoring_case, skip_space, skip_word, space};
use vstd::prelude::*;

verus! {

/// Why a text is no command of this bot.
#[derive(Debug)]
pub enum ParseError {
    /// The text names no command that the bot has. Holds the name as written.
    UnknownCommand(String),
    /// The command is addressed to another bot. Holds that bot's name.
    WrongBotName(String),
}

/// The content of a [`ParseError`].
pub enum ParseErrorView {
    UnknownCommand(Seq<char>),
    WrongBotName(Seq<char>),
}

impl View for ParseError {
    type V = ParseErrorView;

    open spec fn view(&self) -> ParseErrorView {
        match self {
            ParseError::UnknownCommand(name) => ParseErrorView::UnknownCommand(name@),
            ParseError::WrongBotName(name) => ParseErrorView::WrongBotName(name@),
        }
    }
}

/// The first word of `text`, or nothing where `text` begins with white space.
pub open spec fn head(text: Seq<char>) -> Seq<char> {
    text.take(run(text, non_space()) as int)
}

/// What follows the first run of white space of `text`, as it is written.
pub open spec fn arguments(text: Seq<char>) -> Seq<char> {
    let after = text.skip(run(text, non_space()) as int);
    after.skip(run(after, space()) as int)
}

/// The part of `head` before its first `@`.
pub open spec fn name_of(head: Seq<char>) -> Seq<char> {
    head.take(run(head, other_than('@')) as int)
}

/// The bot that `head` addresses: what stands between its first `@` and its
/// second, or its end.
pub open spec fn mention_of(head: Seq<char>) -> Option<Seq<char>> {
    let at = run(head, other_than('@'));
    if at == head.len() {
        None
    } else {
        let rest = head.skip((at + 1) as int);
        Some(rest.take(run(rest, other_than('@')) as int))
    }
}

/// The command that `name` names, with `args` for its argument if it takes
/// one.
pub open spec fn command_named(name: Seq<char>, args: Seq<char>) -> Option<CommandView> {
    if same_ignoring_case(name, "/start"@) {
        Some(CommandView::Start)
    } else if same_ignoring_case(name, "/ping"@) {
        Some(CommandView::Ping)
    } else if same_ignoring_case(name, "/help"@) {
        Some(CommandView::Help)
    } else if same_ignoring_case(name, "/about"@) {
        Some(CommandView::About)
    } else if same_ignoring_case(name, "/id"@) {
        Some(CommandView::Id)
    } else if same_ignoring_case(name, "/time"@) {
        Some(CommandView::Time)
    } else if same_ignoring_case(name, "/echo"@) {
        Some(CommandView::Echo(args))
    } else if same_ignoring_case(name, "/weather"@) {
        Some(CommandView::Weather(args))
    } else if same_ignoring_case(name, "/currency"@) {
        Some(CommandView::Currency(args))
    } else if same_ignoring_case(name, "/roll"@) {
        Some(CommandView::Roll)
    } else if same_ignoring_case(name, "/joke"@) {
        Some(CommandView::Joke)
    } else {
        None
    }
}

/// What `text` means to the bot called `bot_name`: the command that it names,
/// or why it names none. A command addressed to another bot is refused before
/// its name is looked at.
pub open spec fn parsed(text: Seq<char>, bot_name: Seq<char>) -> Result<
    CommandView,
    ParseErrorView,
> {
    let head = head(text);
    match mention_of(head) {
        Some(bot) if !same_ignoring_case(bot, bot_name) => Err(ParseErrorView::WrongBotName(bot)),
        _ => match command_named(name_of(head), arguments(text)) {
            Some(command) => Ok(command),
            None => Err(ParseErrorView::UnknownCommand(name_of(head))),
        },
    }
}

/// The index of the first `@` of `cs` between `from` and `to`, or `to`.
fn find_at(cs: &Vec<char>, from: usize, to: usize) -> (r: usize)
    requires
        from <= to <= cs.len(),
    ensures
        from <= r <= to,
        r - from == run(cs@.subrange(from as int, to as int), other_than('@')),
{
    let mut i: usize = from;
    while i < to && cs[i] != '@'
        invariant
            from <= i <= to <= cs.len(),
            forall|k: int| from <= k < i ==> cs@[k] != '@',
        decreases to - i,
    {
        i += 1;
    }
    proof {
        let part = cs@.subrange(from as int, to as int);
        assert forall|j: int| 0 <= j < i - from implies other_than('@')(#[trigger] part[j]) by {
            assert(part[j] == cs@[from + j]);
        }
        if i < to {
            assert(part[i - from] == cs@[i as int]);
        }
        lemma_run_is(part, other_than('@'), (i - from) as nat);
    }
    i
}

/// The command that the characters of `cs` from `from` to `to` name.
fn named(cs: &Vec<char>, from: usize, to: usize, args: String) -> (r: Option<Command>)
    requires
        from <= to <= cs.len(),
    ensures
        match r {
            Some(c) => command_named(cs@.subrange(from as int, to as int), args@) == Some(c@),
            None => command_named(cs@.subrange(from as int, to as int), args@) is None,
        },
{
    if range_is(cs, from, to, &chars_of("/start")) {
        Some(Command::Start)
    } else if range_is(cs, from, to, &chars_of("/ping")) {
        Some(Command::Ping)
    } else if range_is(cs, from, to, &chars_of("/help")) {
        Some(Command::Help)
    } else if range_is(cs, from, to, &chars_of("/about")) {
        Some(Command::About)
    } else if range_is(cs, from, to, &chars_of("/id")) {
        Some(Command::Id)
    } else if range_is(cs, from, to, &chars_of("/time")) {
        Some(Command::Time)
    } else if range_is(cs, from, to, &chars_of("/echo")) {
        Some(Command::Echo(args))
    } else if range_is(cs, from, to, &chars_of("/weather")) {
        Some(Command::Weather(args))
    } else if range_is(cs, from, to, &chars_of("/currency")) {
        Some(Command::Currency(args))
    } else if range_is(cs, from, to, &chars_of("/roll")) {
        Some(Command::Roll)
    } else if range_is(cs, from, to, &chars_of("/joke")) {
        Some(Command::Joke)
    } else {
        None
    }
}

impl Command {
    /// Reads `text` as a command of the bot called `bot_name`.
    pub fn parse(text: &str, bot_name: &str) -> (r: Result<Command, ParseError>)
        ensures
            match r {
                Ok(c) => parsed(text@, bot_name@) == Ok::<CommandView, ParseErrorView>(c@),
                Err(e) => parsed(text@, bot_name@) == Err::<CommandView, ParseErrorView>(e@),
            },
    {
        let cs = chars_of(text);
        let n = cs.len();
        assert(cs@.skip(0) == cs@);
        let head_end = skip_word(&cs, 0);
        let args_start = skip_space(&cs, head_end);
        let ghost head = head(text@);
        assert(head == cs@.subrange(0, head_end as int));
        let at = find_at(&cs, 0, head_end);
        assert(name_of(head) == cs@.subrange(0, at as int));
        if at < head_end {
            let bot_end = find_at(&cs, at + 1, head_end);
            let ghost bot = cs@.subrange(at + 1, bot_end as int);
            proof {
                let rest = head.skip(at + 1);
                assert(rest == cs@.subrange(at + 1, head_end as int));
                assert(rest.take(bot_end - (at + 1)) == bot);
                assert(mention_of(head) == Some(bot));
            }
            if !range_is(&cs, at + 1, bot_end, &chars_of(bot_name)) {
                let bot_text = text.substring_char(at + 1, bot_end).to_owned();
                return Err(ParseError::WrongBotName(bot_text));
            }
        }
        let args = text.substring_char(args_start, n).to_owned();
        proof {
            let after = text@.skip(head_end as int);
            assert(after.skip(args_start - head_end) == text@.subrange(
                args_start as int,
                n as int,
            ));
        }
        match named(&cs, 0, at, args) {
            Some(command) => Ok(command),
            None => Err(ParseError::UnknownCommand(text.substring_char(0, at).to_owned())),
        }
    }
}

/// Each command has one name, and each name at most one command: `name`
/// names a command just when it is that command's name, whatever the case
/// of its letters, and then it is the name of no other.
pub proof fn lemma_one_name_one_command(name: Seq<char>, args: Seq<char>)
    ensures
        command_named(name, args) == Some(CommandView::Start) <==> same_ignoring_case(
            name,
            "/start"@,
        ),
        command_named(name, args) == Some(CommandView::Ping) <==> same_ignoring_case(
            name,
            "/ping"@,
        ),
        command_named(name, args) == Some(CommandView::Help) <==> same_ignoring_case(
            name,
            "/help"@,
        ),
        command_named(name, args) == Some(CommandView::About) <==> same_ignoring_case(
            name,
            "/about"@,
        ),
        command_named(name, args) == Some(CommandView::Id) <==> same_ignoring_case(name, "/id"@),
        command_named(name, args) == Some(CommandView::Time) <==> same_ignoring_case(
            name,
            "/time"@,
        ),
        command_named(name, args) == Some(CommandView::Echo(args)) <==> same_ignoring_case(
            name,
            "/echo"@,
        ),
        command_named(name, args) == Some(CommandView::Weather(args)) <==> same_ignoring_case(
            name,
            "/weather"@,
        ),
        command_named(name, args) == Some(CommandView::Currency(args)) <==> same_ignoring_case(
            name,
            "/currency"@,
        ),
        command_named(name, args) == Some(CommandView::Roll) <==> same_ignoring_case(
            name,
            "/roll"@,
        ),
        command_named(name, args) == Some(CommandView::Joke) <==> same_ignoring_case(
            name,
            "/joke"@,
        ),
{
    reveal_strlit("/start");
    reveal_strlit("/ping");
    reveal_strlit("/help");
    reveal_strlit("/about");
    reveal_strlit("/id");
    reveal_strlit("/time");
    reveal_strlit("/echo");
    reveal_strlit("/weather");
    reveal_strlit("/currency");
    reveal_strlit("/roll");
    reveal_strlit("/joke");
    if name.len() >= 2 {
        // Names of one length differ in the letter after the stroke.
        let letter = folded(name[1]);
    }
}

/// What a message is to the bot.
#[derive(Debug)]
pub enum Inbound {
    /// A command, to be dispatched.
    Command(Command),
    /// A text that begins like a command and is none of this bot's: it gets
    /// the reply that says so.
    Unrecognized,
    /// Anything else: it gets no reply.
    Ignored,
}

/// The content of an [`Inbound`].
pub enum InboundView {
    Command(CommandView),
    Unrecognized,
    Ignored,
}

impl View for Inbound {
    type V = InboundView;

    open spec fn view(&self) -> InboundView {
        match self {
            Inbound::Command(command) => InboundView::Command(command@),
            Inbound::Unrecognized => InboundView::Unrecognized,
            Inbound::Ignored => InboundView::Ignored,
        }
    }
}

/// What a message with the text `text`, if it has one, is to the bot called
/// `bot_name`.
pub open spec fn classified(text: Option<Seq<char>>, bot_name: Seq<char>) -> InboundView {
    match text {
        None => InboundView::Ignored,
        Some(text) => match parsed(text, bot_name) {
            Ok(command) => InboundView::Command(command),
            Err(_) => if text.len() > 0 && text[0] == '/' {
                InboundView::Unrecognized
            } else {
                InboundView::Ignored
            },
        },
    }
}

/// Tells what a message with the text `text`, if it has one, is to the bot
/// called `bot_name`.
pub fn classify(text: Option<&str>, bot_name: &str) -> (r: Inbound)
    ensures
        r@ == classified(
            match text {
                Some(t) => Some(t@),
                None => None,
            },
            bot_name@,
        ),
{
    let text = match text {
        Some(text) => text,
        None => {
            return Inbound::Ignored;
        },
    };
    match Command::parse(text, bot_name) {
        Ok(command) => Inbound::Command(command),
        Err(_) => {
            let cs = chars_of(text);
            if cs.len() > 0 && cs[0] == '/' {
                Inbound::Unrecognized
            } else {
                Inbound::Ignored
            }
        },
    }
}

} // verus!
