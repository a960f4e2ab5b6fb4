//! Command parsing and handling infrastructure.
//!
//! Two command styles are supported: slash style (`/remind 30m`) and word style
//! (`start newsletter`). Slash style is the default.
pub mod laws;
pub mod messages;

use vstd::prelude::*;
use vstd::string::*;
use crate::text::{
    first_word, is_space, lemma_leading_word_take, lemma_trim_end_take, lemma_trim_start_skip,
    skip_spaces, skip_spaces_back, skip_word, starts_with, trim, trim_bounds, trim_end,
};

verus! {

/// The style of command syntax used by the bot.
#[derive(Debug, Clone, Copy, PartialEq, Eq, Structural)]
pub enum CommandStyle {
    /// Commands start with `/` (e.g. `/help`, `/remind 30`).
    Slash,
    /// Commands start with a word (e.g. `help`, `remind 30`).
    Word,
}

/// Parsed command from user input.
#[derive(Debug, Clone, PartialEq, Eq)]
pub enum ParsedCommand<'a> {
    /// Show help text.
    Help,
    /// A registered custom command.
    Registered { name: &'a str, args: &'a str },
    /// Unknown command (not registered).
    Unknown { name: &'a str, args: &'a str },
    /// Not a command - regular message.
    Plain(&'a str),
}

/// What a [`ParsedCommand`] holds, as character sequences.
pub enum ParsedView {
    Help,
    Registered { name: Seq<char>, args: Seq<char> },
    Unknown { name: Seq<char>, args: Seq<char> },
    Plain(Seq<char>),
}

impl<'a> View for ParsedCommand<'a> {
    type V = ParsedView;

    open spec fn view(&self) -> ParsedView {
        match *self {
            ParsedCommand::Help => ParsedView::Help,
            ParsedCommand::Registered { name, args } => ParsedView::Registered {
                name: name@,
                args: args@,
            },
            ParsedCommand::Unknown { name, args } => ParsedView::Unknown { name: name@, args: args@ },
            ParsedCommand::Plain(t) => ParsedView::Plain(t@),
        }
    }
}

/// A custom command definition with its name and description.
struct CustomCommand {
    name: String,
    description: String,
}

/// The configuration of a [`Commands`]: its style, its registered commands as
/// (name, description) pairs in registration order, and whether unknown commands
/// go to the handler.
pub struct CommandsView {
    pub style: CommandStyle,
    pub entries: Seq<(Seq<char>, Seq<char>)>,
    pub handle_unknown: bool,
}

/// Command configuration for a bot.
///
/// Defines which commands the bot supports and how unknown commands are handled.
pub struct Commands {
    pub(crate) style: CommandStyle,
    custom_commands: Vec<CustomCommand>,
    pub(crate) handle_unknown: bool,
}

impl View for Commands {
    type V = CommandsView;

    closed spec fn view(&self) -> CommandsView {
        CommandsView {
            style: self.style,
            entries: self.custom_commands@.map_values(
                |c: CustomCommand| (c.name@, c.description@),
            ),
            handle_unknown: self.handle_unknown,
        }
    }
}

/// The configuration that [`Commands::new`] gives.
pub open spec fn initial_commands() -> CommandsView {
    CommandsView { style: CommandStyle::Slash, entries: Seq::empty(), handle_unknown: false }
}

/// `name` was registered as a command.
pub open spec fn is_registered(entries: Seq<(Seq<char>, Seq<char>)>, name: Seq<char>) -> bool {
    exists|i: int| 0 <= i < entries.len() && (#[trigger] entries[i]).0 == name
}

impl Commands {
    /// Create an empty command configuration.
    ///
    /// Base commands (like `/help`) are always included.
    /// The default command style is [`CommandStyle::Slash`].
    pub fn new() -> (r: Self)
        ensures
            r@ == initial_commands(),
    {
        let r = Self { style: CommandStyle::Slash, custom_commands: Vec::new(), handle_unknown: false };
        assert(r@.entries =~= Seq::<(Seq<char>, Seq<char>)>::empty());
        r
    }

    /// Set the command style.
    pub fn style(self, style: CommandStyle) -> (r: Self)
        ensures
            r@ == (CommandsView { style, ..self@ }),
    {
        let mut s = self;
        s.style = style;
        s
    }

    /// Register a custom command with a name and description.
    ///
    /// Registered commands are dispatched to the handler's `handle_command` and
    /// included in the auto-generated help text.
    pub fn register(self, name: &str, description: &str) -> (r: Self)
        ensures
            r@ == (CommandsView { entries: self@.entries.push((name@, description@)), ..self@ }),
    {
        let mut s = self;
        s.custom_commands.push(
            CustomCommand { name: String::from_str(name), description: String::from_str(description) },
        );
        assert(s@.entries =~= self@.entries.push((name@, description@)));
        s
    }

    /// Enable dispatching unknown commands to the handler.
    ///
    /// By default, unknown commands (not registered via [`register`](Self::register))
    /// auto-respond with help text. When enabled, unknown commands are dispatched to
    /// the handler's `handle_command`.
    ///
    /// Note: This will only work for [`CommandStyle::Slash`], since word style command
    /// parsing cannot differentiate between unknown commands and plain text.
    pub fn handle_unknown(self, enabled: bool) -> (r: Self)
        ensures
            r@ == (CommandsView { handle_unknown: enabled, ..self@ }),
    {
        let mut s = self;
        s.handle_unknown = enabled;
        s
    }

    /// Whether `name` is the name of a registered command.
    fn is_registered_name(&self, name: &str) -> (r: bool)
        ensures
            r == is_registered(self@.entries, name@),
    {
        let wanted = String::from_str(name);
        let n = self.custom_commands.len();
        let ghost entries = self@.entries;
        for i in 0..n
            invariant
                n == self.custom_commands@.len(),
                entries == self@.entries,
                wanted@ == name@,
                forall|j: int| 0 <= j < i ==> (#[trigger] entries[j]).0 != name@,
        {
            assert(entries[i as int].0 == self.custom_commands@[i as int].name@);
            if self.custom_commands[i].name == wanted {
                return true;
            }
        }
        false
    }
}

impl Default for Commands {
    fn default() -> (r: Self)
        ensures
            r@ == initial_commands(),
    {
        Self::new()
    }
}



/// The prefix that commands carry in a style.
pub open spec fn style_prefix(style: CommandStyle) -> Seq<char> {
    match style {
        CommandStyle::Slash => "/"@,
        CommandStyle::Word => ""@,
    }
}

/// How a command name is written in a style.
pub open spec fn format_spec(style: CommandStyle, name: Seq<char>) -> Seq<char> {
    style_prefix(style) + name
}

/// The help lines of the registered commands, one per command, in registration order.
pub open spec fn command_lines(prefix: Seq<char>, entries: Seq<(Seq<char>, Seq<char>)>) -> Seq<char>
    decreases entries.len(),
{
    if entries.len() == 0 {
        Seq::empty()
    } else {
        command_lines(prefix, entries.drop_last()) + command_line(prefix, entries.last())
    }
}

/// The help line of one command.
pub open spec fn command_line(prefix: Seq<char>, entry: (Seq<char>, Seq<char>)) -> Seq<char> {
    prefix + entry.0 + " - "@ + entry.1 + "\n"@
}

/// The help text before trailing whitespace is cut off.
pub open spec fn raw_help_text(r: RegistryView) -> Seq<char> {
    let prefix = style_prefix(r.commands.style);
    let head = match r.description {
        Option::Some(d) => d + "\n\n"@,
        Option::None => Seq::empty(),
    };
    head + "Available Commands:\n\n"@ + prefix + "help - Show this help message\n"@
        + command_lines(prefix, r.commands.entries)
}

/// The help text of a registry.
pub open spec fn help_text_spec(r: RegistryView) -> Seq<char> {
    trim_end(raw_help_text(r))
}

/// What stands between a prelude and the help text.
pub open spec fn prelude_separator() -> Seq<char> {
    "\n\n---\n\n"@
}


/// The word `help`.
pub open spec fn help_word() -> Seq<char> {
    seq!['h', 'e', 'l', 'p']
}

/// The arguments that follow `name` in `rest`: what `rest.strip_prefix(name)` leaves,
/// trimmed, or nothing where `rest` does not start with `name`.
pub open spec fn args_after(rest: Seq<char>, name: Seq<char>) -> Seq<char> {
    if starts_with(rest, name) {
        trim(rest.skip(name.len() as int))
    } else {
        Seq::empty()
    }
}

/// What a message parses to, given the command style and the registered commands.
pub open spec fn parse_spec(
    style: CommandStyle,
    entries: Seq<(Seq<char>, Seq<char>)>,
    text: Seq<char>,
) -> ParsedView {
    let t = trim(text);
    match style {
        CommandStyle::Slash => {
            if t.len() == 0 || t[0] != '/' {
                ParsedView::Plain(t)
            } else {
                let rest = t.drop_first();
                match first_word(rest) {
                    Option::None => ParsedView::Plain(t),
                    Option::Some(name) => {
                        let args = args_after(rest, name);
                        if name == help_word() {
                            ParsedView::Help
                        } else if is_registered(entries, name) {
                            ParsedView::Registered { name, args }
                        } else {
                            ParsedView::Unknown { name, args }
                        }
                    },
                }
            }
        },
        CommandStyle::Word => {
            match first_word(t) {
                Option::None => ParsedView::Plain(t),
                Option::Some(name) => {
                    let args = args_after(t, name);
                    if name == help_word() {
                        ParsedView::Help
                    } else if is_registered(entries, name) {
                        ParsedView::Registered { name, args }
                    } else {
                        ParsedView::Plain(t)
                    }
                },
            }
        },
    }
}

/// Whether `s` is the word `help`.
fn is_help_word(s: &str) -> (r: bool)
    ensures
        r == (s@ == help_word()),
{
    if s.unicode_len() != 4 {
        return false;
    }
    let r = s.get_char(0) == 'h' && s.get_char(1) == 'e' && s.get_char(2) == 'l' && s.get_char(3)
        == 'p';
    if r {
        assert(s@ =~= help_word());
    } else {
        assert(s@ != help_word()) by {
            if s@ == help_word() {
                assert(s@[0] == 'h' && s@[1] == 'e' && s@[2] == 'l' && s@[3] == 'p');
            }
        }
    }
    r
}

/// Splits `text@[lo..hi]` into its first word and the arguments after it.
fn split_command<'a>(text: &'a str, lo: usize, hi: usize) -> (r: Option<(&'a str, &'a str)>)
    requires
        lo <= hi <= text@.len(),
    ensures
        match first_word(text@.subrange(lo as int, hi as int)) {
            Option::None => r is None,
            Option::Some(name) => r matches Option::Some((n, a)) && n@ == name && a@
                == args_after(text@.subrange(lo as int, hi as int), name),
        },
{
    let ghost rest = text@.subrange(lo as int, hi as int);
    let w = skip_spaces(text, lo, hi);
    proof {
        assert forall|j: int| 0 <= j < w - lo implies is_space(#[trigger] rest[j]) by {
            assert(rest[j] == text@[j + lo]);
        }
        if w < hi {
            assert(rest[w - lo] == text@[w as int]);
        }
        lemma_trim_start_skip(rest, w - lo);
        assert(rest.skip(w - lo) =~= text@.subrange(w as int, hi as int));
    }
    if w == hi {
        return Option::None;
    }
    let k = skip_word(text, w, hi);
    let ghost word_area = text@.subrange(w as int, hi as int);
    proof {
        assert forall|j: int| 0 <= j < k - w implies !is_space(#[trigger] word_area[j]) by {
            assert(word_area[j] == text@[j + w]);
        }
        if k < hi {
            assert(word_area[k - w] == text@[k as int]);
        }
        lemma_leading_word_take(word_area, k - w);
        assert(word_area.take(k - w) =~= text@.subrange(w as int, k as int));
    }
    let name = text.substring_char(w, k);
    let ghost nm = name@;
    assert(k > w) by {
        assert(!is_space(text@[w as int]));
    }
    if w == lo {
        let (a0, a1) = trim_bounds(text, k, hi);
        proof {
            assert(rest.subrange(0, nm.len() as int) =~= nm);
            assert(rest.skip(nm.len() as int) =~= text@.subrange(k as int, hi as int));
        }
        Option::Some((name, text.substring_char(a0, a1)))
    } else {
        proof {
            assert(is_space(rest[0])) by {
                assert(rest[0] == text@[lo as int]);
            }
            assert(!is_space(nm[0]));
            if starts_with(rest, nm) {
                assert(rest.subrange(0, nm.len() as int)[0] == rest[0]);
            }
            assert(text@.subrange(lo as int, lo as int) =~= Seq::<char>::empty());
        }
        Option::Some((name, text.substring_char(lo, lo)))
    }
}

/// The configuration of a [`CommandRegistry`]: the bot's description and its commands.
pub struct RegistryView {
    pub description: Option<Seq<char>>,
    pub commands: CommandsView,
}

/// Registry used by the server for parsing and help text generation.
pub struct CommandRegistry {
    description: Option<String>,
    commands: Commands,
}

impl View for CommandRegistry {
    type V = RegistryView;

    closed spec fn view(&self) -> RegistryView {
        RegistryView {
            description: match self.description {
                Option::Some(d) => Option::Some(d@),
                Option::None => Option::None,
            },
            commands: self.commands@,
        }
    }
}

impl CommandRegistry {
    /// Build a registry from a description and command configuration.
    pub fn new(description: Option<String>, commands: Commands) -> (r: Self)
        ensures
            r@.description == (match description {
                Option::Some(d) => Option::Some(d@),
                Option::None => Option::None,
            }),
            r@.commands == commands@,
    {
        Self { description, commands }
    }

    /// Whether unknown commands should be dispatched to the handler.
    pub fn handle_unknown(&self) -> (r: bool)
        ensures
            r == self@.commands.handle_unknown,
    {
        self.commands.handle_unknown
    }

    /// Format a command name with the appropriate prefix for the current style.
    pub fn format_command(&self, name: &str) -> (r: String)
        ensures
            r@ == format_spec(self@.commands.style, name@),
    {
        let mut r = match self.commands.style {
            CommandStyle::Slash => String::from_str("/"),
            CommandStyle::Word => String::from_str(""),
        };
        r.append(name);
        r
    }

    /// Generate help text, optionally preceded by a message.
    pub fn help_text_with_prelude(&self, prelude: Option<&str>) -> (r: String)
        ensures
            r@ == match prelude {
                Option::Some(p) => p@ + prelude_separator() + help_text_spec(self@),
                Option::None => help_text_spec(self@),
            },
    {
        let help = self.help_text();
        match prelude {
            Option::Some(p) => {
                let mut r = String::from_str(p);
                r.append("\n\n---\n\n");
                r.append(help.as_str());
                r
            },
            Option::None => help,
        }
    }

    /// Generate help text from the registered commands.
    pub fn help_text(&self) -> (r: String)
        ensures
            r@ == help_text_spec(self@),
    {
        let mut text = String::new();
        let prefix: &str = match self.commands.style {
            CommandStyle::Slash => "/",
            CommandStyle::Word => "",
        };
        let ghost pre = style_prefix(self@.commands.style);
        assert(prefix@ == pre);
        match &self.description {
            Option::Some(description) => {
                text.append(description.as_str());
                text.append("\n\n");
            },
            Option::None => {},
        }
        text.append("Available Commands:\n\n");
        text.append(prefix);
        text.append("help - Show this help message\n");
        let ghost head = text@;
        let ghost entries = self@.commands.entries;
        let n = self.commands.custom_commands.len();
        for i in 0..n
            invariant
                n == self.commands.custom_commands@.len(),
                entries == self@.commands.entries,
                prefix@ == pre,
                text@ == head + command_lines(pre, entries.take(i as int)),
        {
            let cmd = &self.commands.custom_commands[i];
            assert(entries[i as int] == (cmd.name@, cmd.description@));
            text.append(prefix);
            text.append(cmd.name.as_str());
            text.append(" - ");
            text.append(cmd.description.as_str());
            text.append("\n");
            assert(entries.take(i + 1).drop_last() =~= entries.take(i as int));
        }
        assert(entries.take(n as int) =~= entries);
        assert(text@ =~= raw_help_text(self@));
        let s = text.as_str();
        let len = s.unicode_len();
        let e = skip_spaces_back(s, 0, len);
        proof {
            lemma_trim_end_take(s@, e as int);
            assert(s@.take(e as int) =~= s@.subrange(0, e as int));
        }
        String::from_str(s.substring_char(0, e))
    }

    /// Parse a text message into a command.
    ///
    /// Commands are case-sensitive.
    pub fn parse<'a>(&self, text: &'a str) -> (r: ParsedCommand<'a>)
        ensures
            r@ == parse_spec(self@.commands.style, self@.commands.entries, text@),
    {
        let n = text.unicode_len();
        let (ts, te) = trim_bounds(text, 0, n);
        assert(text@.subrange(0, n as int) =~= text@);
        let trimmed = text.substring_char(ts, te);
        let ghost t = trimmed@;
        match self.commands.style {
            CommandStyle::Slash => {
                if ts == te || text.get_char(ts) != '/' {
                    return ParsedCommand::Plain(trimmed);
                }
                assert(t[0] == text@[ts as int]);
                assert(t.drop_first() =~= text@.subrange(ts + 1, te as int));
                match split_command(text, ts + 1, te) {
                    Option::None => ParsedCommand::Plain(trimmed),
                    Option::Some((name, args)) => {
                        if is_help_word(name) {
                            ParsedCommand::Help
                        } else if self.commands.is_registered_name(name) {
                            ParsedCommand::Registered { name, args }
                        } else {
                            ParsedCommand::Unknown { name, args }
                        }
                    },
                }
            },
            CommandStyle::Word => {
                match split_command(text, ts, te) {
                    Option::None => ParsedCommand::Plain(trimmed),
                    Option::Some((name, args)) => {
                        if is_help_word(name) {
                            ParsedCommand::Help
                        } else if self.commands.is_registered_name(name) {
                            ParsedCommand::Registered { name, args }
                        } else {
                            ParsedCommand::Plain(trimmed)
                        }
                    },
                }
            },
        }
    }
}

} // verus!
