use threema_gateway_bot::commands::messages;
use threema_gateway_bot::commands::{CommandRegistry, CommandStyle, Commands, ParsedCommand};

fn slash_registry() -> CommandRegistry {
    let commands = Commands::new()
        .style(CommandStyle::Slash)
        .register("remind", "Set a reminder")
        .register("list", "List your reminders");
    CommandRegistry::new(None, commands)
}

fn word_registry() -> CommandRegistry {
    let commands = Commands::new()
        .style(CommandStyle::Word)
        .register("remind", "Set a reminder")
        .register("list", "List your reminders");
    CommandRegistry::new(None, commands)
}

// Slash style parsing.

#[test]
fn help_command() {
    let r = slash_registry();
    assert_eq!(r.parse("/help"), ParsedCommand::Help);
    assert_eq!(r.parse("  /help  "), ParsedCommand::Help);
}

#[test]
fn registered_command() {
    let r = slash_registry();
    assert_eq!(
        r.parse("/remind 30 Take a break"),
        ParsedCommand::Registered {
            name: "remind",
            args: "30 Take a break",
        }
    );
    assert_eq!(
        r.parse("/list"),
        ParsedCommand::Registered {
            name: "list",
            args: "",
        }
    );
}

#[test]
fn unknown_command() {
    let r = slash_registry();
    assert_eq!(
        r.parse("/foo bar"),
        ParsedCommand::Unknown {
            name: "foo",
            args: "bar",
        }
    );
    assert_eq!(
        r.parse("/unknown"),
        ParsedCommand::Unknown {
            name: "unknown",
            args: "",
        }
    );
}

#[test]
fn regular_message() {
    let r = slash_registry();
    assert_eq!(r.parse("Hello"), ParsedCommand::Plain("Hello"));
    assert_eq!(r.parse("  Hello  "), ParsedCommand::Plain("Hello"));
}

#[test]
fn bare_slash() {
    let r = slash_registry();
    assert_eq!(r.parse("/"), ParsedCommand::Plain("/"));
    assert_eq!(r.parse("  /  "), ParsedCommand::Plain("/"));
}

// Word style parsing.

#[test]
fn commands_help_command() {
    let r = word_registry();
    assert_eq!(r.parse("help"), ParsedCommand::Help);
    assert_eq!(r.parse("  help  "), ParsedCommand::Help);
}

#[test]
fn commands_registered_command() {
    let r = word_registry();
    assert_eq!(
        r.parse("remind 30 Take a break"),
        ParsedCommand::Registered {
            name: "remind",
            args: "30 Take a break",
        }
    );
    assert_eq!(
        r.parse("list"),
        ParsedCommand::Registered {
            name: "list",
            args: "",
        }
    );
}

#[test]
fn commands_regular_message() {
    let r = word_registry();
    assert_eq!(r.parse("Hello world"), ParsedCommand::Plain("Hello world"));
    assert_eq!(r.parse("  Hello  "), ParsedCommand::Plain("Hello"));
}

#[test]
fn empty_message() {
    let r = word_registry();
    assert_eq!(r.parse(""), ParsedCommand::Plain(""));
    assert_eq!(r.parse("   "), ParsedCommand::Plain(""));
}

// Help text.

#[test]
fn without_description() {
    let r = CommandRegistry::new(None, Commands::new());
    assert_eq!(r.help_text(), "Available Commands:\n\n/help - Show this help message");
}

#[test]
fn with_description() {
    let r = CommandRegistry::new(Some("My cool bot.".into()), Commands::new());
    assert_eq!(
        r.help_text(),
        "My cool bot.\n\nAvailable Commands:\n\n/help - Show this help message"
    );
}

#[test]
fn with_custom_commands() {
    let commands = Commands::new()
        .register("remind", "Set a reminder")
        .register("list", "List your reminders");
    let r = CommandRegistry::new(None, commands);
    assert_eq!(
        r.help_text(),
        "Available Commands:\n\n/help - Show this help message\n/remind - Set a reminder\n/list - List your reminders"
    );
}

#[test]
fn with_prelude() {
    let r = CommandRegistry::new(None, Commands::new());
    assert_eq!(
        r.help_text_with_prelude(Some("Unknown command: /foo")),
        "Unknown command: /foo\n\n---\n\nAvailable Commands:\n\n/help - Show this help message"
    );
}

#[test]
fn word_style() {
    let commands = Commands::new()
        .style(CommandStyle::Word)
        .register("remind", "Set a reminder")
        .register("list", "List your reminders");
    let r = CommandRegistry::new(None, commands);
    assert_eq!(
        r.help_text(),
        "Available Commands:\n\nhelp - Show this help message\nremind - Set a reminder\nlist - List your reminders"
    );
}

#[test]
fn messages_not_empty() {
    assert!(!messages::ACCESS_DENIED.is_empty());
    assert!(!messages::GENERIC_ERROR.is_empty());
}

// Further cases.

#[test]
fn parse_ignores_unicode_whitespace_around_message() {
    let r = slash_registry();
    assert_eq!(r.parse("\u{3000}\t/help\u{a0}\n"), ParsedCommand::Help);
    assert_eq!(r.parse("/help"), r.parse(" \u{2003}/help \r\n"));
}

#[test]
fn help_cannot_be_shadowed_by_registration() {
    let r = CommandRegistry::new(None, Commands::new().register("help", "Mine"));
    assert_eq!(r.parse("/help"), ParsedCommand::Help);
    let w = CommandRegistry::new(None, Commands::new().style(CommandStyle::Word).register("help", "Mine"));
    assert_eq!(w.parse("help me"), ParsedCommand::Help);
}

#[test]
fn word_style_unknown_word_is_plain_text() {
    let r = word_registry();
    assert_eq!(r.parse("  foo bar "), ParsedCommand::Plain("foo bar"));
}

#[test]
fn commands_are_case_sensitive() {
    let r = slash_registry();
    assert_eq!(
        r.parse("/Remind 5"),
        ParsedCommand::Unknown {
            name: "Remind",
            args: "5",
        }
    );
    assert_eq!(r.parse("/HELP"), ParsedCommand::Unknown { name: "HELP", args: "" });
}

#[test]
fn space_after_slash_drops_arguments() {
    let r = slash_registry();
    assert_eq!(r.parse("/ remind 30"), ParsedCommand::Registered { name: "remind", args: "" });
    assert_eq!(r.parse("/   "), ParsedCommand::Plain("/"));
}

#[test]
fn arguments_are_trimmed_inside() {
    let r = slash_registry();
    assert_eq!(
        r.parse("/remind\t  30  later\u{2028}"),
        ParsedCommand::Registered {
            name: "remind",
            args: "30  later",
        }
    );
    assert_eq!(
        r.parse("/remind30"),
        ParsedCommand::Unknown {
            name: "remind30",
            args: "",
        }
    );
}

#[test]
fn formatted_commands_parse_back() {
    let slash = slash_registry();
    assert_eq!(slash.format_command("list"), "/list");
    assert_eq!(
        slash.parse(&slash.format_command("list")),
        ParsedCommand::Registered { name: "list", args: "" }
    );
    assert_eq!(
        slash.parse(&slash.format_command("nope")),
        ParsedCommand::Unknown { name: "nope", args: "" }
    );
    let word = word_registry();
    assert_eq!(word.format_command("list"), "list");
    assert_eq!(word.parse(&word.format_command("nope")), ParsedCommand::Plain("nope"));
    assert_eq!(word.parse(&word.format_command("help")), ParsedCommand::Help);
}

#[test]
fn help_text_trims_trailing_whitespace_of_last_description() {
    let r = CommandRegistry::new(None, Commands::new().register("x", "  \n"));
    assert_eq!(r.help_text(), "Available Commands:\n\n/help - Show this help message\n/x -");
    assert!(r.help_text().contains("/x -"));
}

#[test]
fn help_text_with_no_prelude_is_help_text() {
    let r = slash_registry();
    assert_eq!(r.help_text_with_prelude(None), r.help_text());
}

#[test]
fn handle_unknown_flag() {
    assert!(!CommandRegistry::new(None, Commands::new()).handle_unknown());
    assert!(CommandRegistry::new(None, Commands::new().handle_unknown(true)).handle_unknown());
    assert!(!CommandRegistry::new(None, Commands::default()).handle_unknown());
}
