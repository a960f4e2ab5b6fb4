//! Properties that hold across the parsing and help-text functions.
use vstd::prelude::*;
use crate::commands::{
    command_line, command_lines, format_spec, help_text_spec, help_word, is_registered,
    parse_spec, raw_help_text, style_prefix, CommandStyle, CommandsView, ParsedView, RegistryView,
};
use crate::text::{
    first_word, has_no_space, is_space, leading_word, lemma_leading_word_take, lemma_trim_drop_leading_space,
    lemma_trim_end_shape, lemma_trim_end_take, lemma_trim_end_append, lemma_trim_idempotent,
    lemma_trim_of_trim_end, lemma_trim_start_skip, starts_with, trim, trim_end, trim_start,
};

verus! {

/// `m` occurs in `s` as a contiguous part.
pub open spec fn occurs_in(m: Seq<char>, s: Seq<char>) -> bool {
    exists|k: int| 0 <= k && k + m.len() <= s.len() && #[trigger] s.subrange(k, k + m.len()) == m
}

/// A message parses as the same message with its surrounding whitespace removed.
pub proof fn law_parse_ignores_surrounding_whitespace(
    style: CommandStyle,
    entries: Seq<(Seq<char>, Seq<char>)>,
    text: Seq<char>,
)
    ensures
        parse_spec(style, entries, text) == parse_spec(style, entries, trim(text)),
{
    lemma_trim_idempotent(text);
}

/// A message whose first word is `help` asks for help, whatever commands are
/// registered: registering a command named `help` does not shadow it.
pub proof fn law_help_is_built_in(
    style: CommandStyle,
    entries: Seq<(Seq<char>, Seq<char>)>,
    other_entries: Seq<(Seq<char>, Seq<char>)>,
    text: Seq<char>,
)
    requires
        parse_spec(style, entries, text) is Help,
    ensures
        parse_spec(style, other_entries, text) is Help,
{
}

/// In word style no message is an unknown command: a first word that is not
/// registered makes the message plain text.
pub proof fn law_word_style_has_no_unknown_commands(
    entries: Seq<(Seq<char>, Seq<char>)>,
    text: Seq<char>,
)
    ensures
        !(parse_spec(CommandStyle::Word, entries, text) is Unknown),
{
}

/// A text without whitespace at either end is its own trim.
proof fn lemma_trim_unchanged(s: Seq<char>)
    requires
        s.len() > 0,
        !is_space(s[0]),
        !is_space(s.last()),
    ensures
        trim(s) == s,
        trim_start(s) == s,
{
    lemma_trim_start_skip(s, 0);
    assert(s.skip(0) =~= s);
    lemma_trim_end_take(s, s.len() as int);
    assert(s.take(s.len() as int) =~= s);
}

/// A command name as [`CommandRegistry::format_command`] writes it parses back to that
/// command, with no arguments: `help` to the help request, a registered name to
/// that command, and any other name to an unknown command in slash style and to
/// plain text in word style.
pub proof fn law_formatted_command_parses_back(
    style: CommandStyle,
    entries: Seq<(Seq<char>, Seq<char>)>,
    name: Seq<char>,
)
    requires
        name.len() > 0,
        has_no_space(name),
    ensures
        parse_spec(style, entries, format_spec(style, name)) == (if name == help_word() {
            ParsedView::Help
        } else if is_registered(entries, name) {
            ParsedView::Registered { name, args: Seq::empty() }
        } else {
            match style {
                CommandStyle::Slash => ParsedView::Unknown { name, args: Seq::empty() },
                CommandStyle::Word => ParsedView::Plain(name),
            }
        }),
{
    reveal_strlit("/");
    reveal_strlit("");
    let text = format_spec(style, name);
    assert(!is_space(name[0]));
    assert(!is_space(name.last()));
    lemma_trim_unchanged(name);
    lemma_leading_word_take(name, name.len() as int);
    assert(name.take(name.len() as int) =~= name);
    assert(name.subrange(0, name.len() as int) =~= name);
    assert(name.skip(name.len() as int) =~= Seq::<char>::empty());
    assert(trim(Seq::<char>::empty()) == Seq::<char>::empty());
    match style {
        CommandStyle::Slash => {
            assert(text =~= seq!['/'] + name);
            assert(text.last() == name.last());
            lemma_trim_unchanged(text);
            assert(text.drop_first() =~= name);
        },
        CommandStyle::Word => {
            assert(text =~= name);
        },
    }
}

/// For a text `p + " " + args` where `p` is non-empty and starts and ends with a
/// non-space: its trim is `p` followed by the trailing-trimmed `" " + args`, which
/// is empty or starts with the space.
proof fn lemma_trim_command_text(p: Seq<char>, args: Seq<char>)
    requires
        p.len() > 0,
        !is_space(p[0]),
        !is_space(p.last()),
    ensures
        trim(p + seq![' '] + args) == p + trim_end(seq![' '] + args),
        trim_end(seq![' '] + args).len() > 0 ==> trim_end(seq![' '] + args)[0] == ' ',
        trim(trim_end(seq![' '] + args)) == trim(args),
{
    let q = seq![' '] + args;
    let text = p + seq![' '] + args;
    assert(text =~= p + q);
    assert(text[0] == p[0]);
    lemma_trim_start_skip(text, 0);
    assert(text.skip(0) =~= text);
    lemma_trim_end_append(p, q);
    lemma_trim_end_take(p, p.len() as int);
    assert(p.take(p.len() as int) =~= p);
    if trim_end(q).len() == 0 {
        assert(p + trim_end(q) =~= p);
    }
    lemma_trim_end_shape(q);
    if trim_end(q).len() > 0 {
        assert(trim_end(q)[0] == q[0]);
    }
    lemma_trim_of_trim_end(q);
    lemma_trim_drop_leading_space(' ', args);
}

/// A command name followed by a space and arguments parses to that command with the
/// trimmed arguments (slash style): `help` to the help request, a registered name to
/// that command, any other name to an unknown command.
pub proof fn law_slash_command_takes_trimmed_arguments(
    entries: Seq<(Seq<char>, Seq<char>)>,
    name: Seq<char>,
    args: Seq<char>,
)
    requires
        name.len() > 0,
        has_no_space(name),
    ensures
        parse_spec(CommandStyle::Slash, entries, format_spec(CommandStyle::Slash, name) + seq![' ']
            + args) == (if name == help_word() {
            ParsedView::Help
        } else if is_registered(entries, name) {
            ParsedView::Registered { name, args: trim(args) }
        } else {
            ParsedView::Unknown { name, args: trim(args) }
        }),
{
    reveal_strlit("/");
    let p = seq!['/'] + name;
    assert(format_spec(CommandStyle::Slash, name) =~= p);
    assert(p.last() == name.last());
    assert(!is_space(name.last()));
    lemma_trim_command_text(p, args);
    lemma_rest_splits(name, args);
    let t = p + trim_end(seq![' '] + args);
    assert(t.drop_first() =~= name + trim_end(seq![' '] + args));
}

/// A registered command name followed by a space and arguments parses to that command
/// with the trimmed arguments (word style); `help` asks for help.
pub proof fn law_word_command_takes_trimmed_arguments(
    entries: Seq<(Seq<char>, Seq<char>)>,
    name: Seq<char>,
    args: Seq<char>,
)
    requires
        name.len() > 0,
        has_no_space(name),
        name == help_word() || is_registered(entries, name),
    ensures
        parse_spec(CommandStyle::Word, entries, format_spec(CommandStyle::Word, name) + seq![' ']
            + args) == (if name == help_word() {
            ParsedView::Help
        } else {
            ParsedView::Registered { name, args: trim(args) }
        }),
{
    reveal_strlit("");
    assert(format_spec(CommandStyle::Word, name) =~= name);
    assert(!is_space(name[0]));
    assert(!is_space(name.last()));
    lemma_trim_command_text(name, args);
    lemma_rest_splits(name, args);
}

/// `name + trim_end(" " + args)` splits into `name` and the arguments `trim(args)`.
proof fn lemma_rest_splits(name: Seq<char>, args: Seq<char>)
    requires
        name.len() > 0,
        has_no_space(name),
        trim_end(seq![' '] + args).len() > 0 ==> trim_end(seq![' '] + args)[0] == ' ',
        trim(trim_end(seq![' '] + args)) == trim(args),
    ensures
        ({
            let rest = name + trim_end(seq![' '] + args);
            &&& trim_start(rest) == rest
            &&& trim_start(rest).len() > 0
            &&& leading_word(rest) == name
            &&& starts_with(rest, name)
            &&& trim(rest.skip(name.len() as int)) == trim(args)
        }),
{
    let tq = trim_end(seq![' '] + args);
    let rest = name + tq;
    assert(rest[0] == name[0]);
    assert(!is_space(name[0]));
    lemma_trim_start_skip(rest, 0);
    assert(rest.skip(0) =~= rest);
    assert forall|j: int| 0 <= j < name.len() implies !is_space(#[trigger] rest[j]) by {
        assert(rest[j] == name[j]);
    }
    if tq.len() > 0 {
        assert(rest[name.len() as int] == tq[0]);
    }
    lemma_leading_word_take(rest, name.len() as int);
    assert(rest.take(name.len() as int) =~= name);
    assert(rest.subrange(0, name.len() as int) =~= name);
    assert(rest.skip(name.len() as int) =~= tq);
}

/// In slash style, a message whose trimmed text is empty or does not start with `/`
/// is plain text: the whole trimmed message, whatever commands are registered.
pub proof fn law_slash_message_without_slash_is_whole_text(
    entries: Seq<(Seq<char>, Seq<char>)>,
    text: Seq<char>,
)
    requires
        trim(text).len() == 0 || trim(text)[0] != '/',
    ensures
        parse_spec(CommandStyle::Slash, entries, text) == ParsedView::Plain(trim(text)),
{
}

/// In word style, a message whose first word is neither `help` nor the name of any
/// registered command is plain text: the whole trimmed message.
pub proof fn law_word_message_without_command_is_whole_text(
    entries: Seq<(Seq<char>, Seq<char>)>,
    text: Seq<char>,
)
    requires
        first_word(trim(text)) is None || ({
            let w = first_word(trim(text))->0;
            &&& w != help_word()
            &&& forall|i: int| 0 <= i < entries.len() ==> (#[trigger] entries[i]).0 != w
        }),
    ensures
        parse_spec(CommandStyle::Word, entries, text) == ParsedView::Plain(trim(text)),
{
}

/// Command names match exactly (and so case-sensitively): in slash style, `/name args`
/// is that registered command where some registered name equals `name`, and an
/// unknown command where none does; the arguments come trimmed either way.
pub proof fn law_slash_command_names_match_exactly(
    entries: Seq<(Seq<char>, Seq<char>)>,
    name: Seq<char>,
    args: Seq<char>,
)
    requires
        name.len() > 0,
        has_no_space(name),
        name != help_word(),
    ensures
        (exists|i: int| 0 <= i < entries.len() && (#[trigger] entries[i]).0 == name) ==> parse_spec(
            CommandStyle::Slash,
            entries,
            format_spec(CommandStyle::Slash, name) + seq![' '] + args,
        ) == (ParsedView::Registered { name, args: trim(args) }),
        (forall|i: int| 0 <= i < entries.len() ==> (#[trigger] entries[i]).0 != name) ==> parse_spec(
            CommandStyle::Slash,
            entries,
            format_spec(CommandStyle::Slash, name) + seq![' '] + args,
        ) == (ParsedView::Unknown { name, args: trim(args) }),
        (exists|i: int| 0 <= i < entries.len() && (#[trigger] entries[i]).0 == name) ==> parse_spec(
            CommandStyle::Slash,
            entries,
            format_spec(CommandStyle::Slash, name),
        ) == (ParsedView::Registered { name, args: Seq::empty() }),
        (forall|i: int| 0 <= i < entries.len() ==> (#[trigger] entries[i]).0 != name) ==> parse_spec(
            CommandStyle::Slash,
            entries,
            format_spec(CommandStyle::Slash, name),
        ) == (ParsedView::Unknown { name, args: Seq::empty() }),
{
    law_slash_command_takes_trimmed_arguments(entries, name, args);
    law_formatted_command_parses_back(CommandStyle::Slash, entries, name);
    if forall|i: int| 0 <= i < entries.len() ==> (#[trigger] entries[i]).0 != name {
        assert(!is_registered(entries, name));
    }
}

/// The bot's description, where there is one, opens the help text, followed by an
/// empty line and then the help text that the registry would have without it,
/// whatever commands are registered.
pub proof fn law_help_text_opens_with_description(r: RegistryView, d: Seq<char>)
    requires
        r.description == Some(d),
    ensures
        help_text_spec(r) == d + "\n\n"@ + help_text_spec(
            (RegistryView { description: None, commands: r.commands }),
        ),
{
    reveal_strlit("Available Commands:\n\n");
    let bare = RegistryView { description: None, commands: r.commands };
    let q = raw_help_text(bare);
    let p = d + "\n\n"@;
    assert(raw_help_text(r) =~= p + q);
    assert(q[0] == 'A');
    lemma_trim_end_shape(q);
    assert(trim_end(q).len() > 0) by {
        if trim_end(q).len() == 0 {
            assert(is_space(q[0]));
        }
    }
    lemma_trim_end_append(p, q);
}

/// Without a description, the help text opens with `Available Commands:`.
pub proof fn law_help_text_opens_with_header(commands: CommandsView)
    ensures
        starts_with(
            help_text_spec((RegistryView { description: None, commands })),
            "Available Commands:"@,
        ),
{
    reveal_strlit("Available Commands:\n\n");
    reveal_strlit("Available Commands:");
    let r = RegistryView { description: None, commands };
    let q = raw_help_text(r);
    let h = "Available Commands:"@;
    assert(q.subrange(0, 19) =~= h);
    assert(q[18] == ':');
    lemma_trim_end_shape(q);
    let t = help_text_spec(r);
    assert(18 < t.len()) by {
        if t.len() <= 18 {
            assert(is_space(q[18]));
        }
    }
    assert(t.subrange(0, 19) =~= q.subrange(0, 19));
}

/// Splitting the entries splits their help lines.
proof fn lemma_command_lines_append(
    prefix: Seq<char>,
    a: Seq<(Seq<char>, Seq<char>)>,
    b: Seq<(Seq<char>, Seq<char>)>,
)
    ensures
        command_lines(prefix, a + b) == command_lines(prefix, a) + command_lines(prefix, b),
    decreases b.len(),
{
    if b.len() == 0 {
        assert(a + b =~= a);
    } else {
        lemma_command_lines_append(prefix, a, b.drop_last());
        assert((a + b).drop_last() =~= a + b.drop_last());
        assert((a + b).last() == b.last());
    }
}

/// The help text names every registered command, in the form `<prefix><name> -`.
pub proof fn law_help_text_lists_registered_commands(r: RegistryView, i: int)
    requires
        0 <= i < r.commands.entries.len(),
    ensures
        occurs_in(
            style_prefix(r.commands.style) + r.commands.entries[i].0 + seq![' ', '-'],
            help_text_spec(r),
        ),
{
    reveal_strlit(" - ");
    let prefix = style_prefix(r.commands.style);
    let entries = r.commands.entries;
    let e = entries[i];
    let raw = raw_help_text(r);
    let head = match r.description {
        Option::Some(d) => d + "\n\n"@,
        Option::None => Seq::empty(),
    } + "Available Commands:\n\n"@ + prefix + "help - Show this help message\n"@;
    lemma_command_lines_append(prefix, entries.take(i), entries.skip(i));
    assert(entries.take(i) + entries.skip(i) =~= entries);
    let tail = entries.skip(i);
    lemma_command_lines_append(prefix, seq![tail[0]], tail.drop_first());
    assert(seq![tail[0]] + tail.drop_first() =~= tail);
    assert(command_lines(prefix, seq![tail[0]]) =~= command_line(prefix, e)) by {
        let one = seq![tail[0]];
        assert(one.drop_last() =~= Seq::<(Seq<char>, Seq<char>)>::empty());
        assert(command_lines(prefix, one.drop_last()) == Seq::<char>::empty());
        assert(one.last() == e);
    }
    let before = head + command_lines(prefix, entries.take(i));
    let line = command_line(prefix, e);
    assert(raw =~= before + line + command_lines(prefix, tail.drop_first()));
    let m = prefix + e.0 + seq![' ', '-'];
    let k = before.len() as int;
    assert(raw.subrange(k, k + m.len()) =~= m);
    // the '-' survives the cut of trailing whitespace
    let dash = k + m.len() - 1;
    assert(raw[dash] == '-');
    lemma_trim_end_shape(raw);
    let help = help_text_spec(r);
    assert(dash < help.len()) by {
        if dash >= help.len() {
            assert(is_space(raw[dash]));
        }
    }
    assert(help.subrange(k, k + m.len()) =~= raw.subrange(k, k + m.len()));
}

} // verus!
