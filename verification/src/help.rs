//! The help screen: the commands of the grammar and the keys that are bound,
//! the keys in the order of their descriptions.

use crate::text::{chars_of, padded, push_padded, push_str};
use crate::tui::{Key, KeyBinding, KeyCode};
use ratatui::crossterm::event::{KeyCode as TermCode, KeyModifiers};
use vstd::prelude::*;

verus! {

/// Whether the text `a` comes before the text `b` in a dictionary that orders
/// characters by their code, or is the same text.
pub open spec fn text_le(a: Seq<char>, b: Seq<char>) -> bool
    decreases a.len(),
{
    if a.len() == 0 {
        true
    } else if b.len() == 0 {
        false
    } else if a[0] != b[0] {
        a[0] < b[0]
    } else {
        text_le(a.drop_first(), b.drop_first())
    }
}

/// Two texts that begin alike are ordered as what follows in them.
proof fn lemma_text_le_skip(a: Seq<char>, b: Seq<char>, i: int)
    requires
        0 <= i <= a.len(),
        i <= b.len(),
        forall|j: int| 0 <= j < i ==> a[j] == b[j],
    ensures
        text_le(a, b) == text_le(a.skip(i), b.skip(i)),
    decreases i,
{
    if i > 0 {
        assert(a.drop_first().skip(i - 1) == a.skip(i));
        assert(b.drop_first().skip(i - 1) == b.skip(i));
        assert forall|j: int| 0 <= j < i - 1 implies a.drop_first()[j] == b.drop_first()[j] by {
            assert(a.drop_first()[j] == a[j + 1]);
            assert(b.drop_first()[j] == b[j + 1]);
        }
        lemma_text_le_skip(a.drop_first(), b.drop_first(), i - 1);
    } else {
        assert(a.skip(0) == a);
        assert(b.skip(0) == b);
    }
}

/// Compares two texts.
pub fn compare_text(a: &Vec<char>, b: &Vec<char>) -> (r: bool)
    ensures
        r == text_le(a@, b@),
{
    let mut i: usize = 0;
    while i < a.len() && i < b.len()
        invariant
            i <= a.len(),
            i <= b.len(),
            forall|j: int| 0 <= j < i ==> a@[j] == b@[j],
        decreases a.len() - i,
    {
        if a[i] != b[i] {
            proof {
                lemma_text_le_skip(a@, b@, i as int);
            }
            return a[i] < b[i];
        }
        i += 1;
    }
    proof {
        lemma_text_le_skip(a@, b@, i as int);
    }
    i == a.len()
}

/// A line of the help with the description that gives it its place.
pub struct HelpEntry {
    pub description: Vec<char>,
    pub line: Vec<char>,
}

/// A line of the help with its description, as a value of mathematics.
pub struct HelpLine {
    pub description: Seq<char>,
    pub line: Seq<char>,
}

impl View for HelpEntry {
    type V = HelpLine;

    open spec fn view(&self) -> HelpLine {
        HelpLine { description: self.description@, line: self.line@ }
    }
}

/// The lines that the entries `v` hold.
pub open spec fn lines_of(v: Seq<HelpEntry>) -> Seq<HelpLine> {
    v.map_values(|e: HelpEntry| e@)
}

/// The ordered lines `sorted` with `entry` put in: behind every line whose
/// description comes before its own or is the same, before the others.
pub open spec fn sorted_insert(sorted: Seq<HelpLine>, entry: HelpLine) -> Seq<HelpLine>
    decreases sorted.len(),
{
    if sorted.len() == 0 || text_le(sorted.last().description, entry.description) {
        sorted.push(entry)
    } else {
        sorted_insert(sorted.drop_last(), entry).push(sorted.last())
    }
}

/// Putting a line in puts it behind the last line that may stand before it.
proof fn lemma_sorted_insert(sorted: Seq<HelpLine>, entry: HelpLine, at: int)
    requires
        0 <= at <= sorted.len(),
        forall|j: int|
            at <= j < sorted.len() ==> !text_le(sorted[j].description, entry.description),
        at > 0 ==> text_le(sorted[at - 1].description, entry.description),
    ensures
        sorted_insert(sorted, entry) == sorted.insert(at, entry),
    decreases sorted.len(),
{
    if sorted.len() == 0 || text_le(sorted.last().description, entry.description) {
        assert(at == sorted.len());
        assert(sorted.push(entry) =~= sorted.insert(at, entry));
    } else {
        assert(at < sorted.len());
        lemma_sorted_insert(sorted.drop_last(), entry, at);
        assert(sorted.drop_last().insert(at, entry).push(sorted.last()) =~= sorted.insert(
            at,
            entry,
        ));
    }
}

/// Puts `entry` into the ordered entries `sorted`.
pub fn insert_entry(sorted: &mut Vec<HelpEntry>, entry: HelpEntry)
    ensures
        lines_of(final(sorted)@) == sorted_insert(lines_of(old(sorted)@), entry@),
{
    let ghost before = lines_of(sorted@);
    assert(before.len() == sorted.len());
    let mut at: usize = sorted.len();
    while at > 0 && !compare_text(&sorted[at - 1].description, &entry.description)
        invariant
            at <= sorted.len(),
            before == lines_of(sorted@),
            before.len() == sorted.len(),
            forall|j: int|
                at <= j < before.len() ==> !text_le(
                    (#[trigger] before[j]).description,
                    entry.description@,
                ),
        decreases at,
    {
        assert(before[at - 1] == sorted[at - 1]@);
        at -= 1;
    }
    proof {
        if at > 0 {
            assert(before[at - 1] == sorted[at - 1]@);
        }
        lemma_sorted_insert(before, entry@, at as int);
    }
    let ghost added = entry@;
    sorted.insert(at, entry);
    assert(lines_of(sorted@) =~= before.insert(at as int, added));
}

/// The names that the terminal library gives to the key of a key press and to
/// the modifier keys held with it. They differ from one operating system to
/// another.
#[derive(Debug, Clone, PartialEq, Eq)]
pub struct KeyNames {
    pub code: String,
    pub modifiers: String,
}

/// The name of a key as crossterm's `Display` for its `KeyCode` writes it; a
/// key that is not told apart goes as crossterm's `Null`. Nothing is claimed
/// of the name: crossterm names some keys by the operating system.
#[verifier::external_body]
fn code_name(code: KeyCode) -> (name: String) {
    let code = match code {
        KeyCode::Char(c) => TermCode::Char(c),
        KeyCode::Left => TermCode::Left,
        KeyCode::Right => TermCode::Right,
        KeyCode::Up => TermCode::Up,
        KeyCode::Down => TermCode::Down,
        KeyCode::Enter => TermCode::Enter,
        KeyCode::Esc => TermCode::Esc,
        KeyCode::Backspace => TermCode::Backspace,
        KeyCode::Other => TermCode::Null,
    };
    code.to_string()
}

/// The names of the modifier keys whose bits `modifiers` holds, as crossterm's
/// `Display` for its `KeyModifiers` writes them; bits that stand for no key
/// are left out by `KeyModifiers::from_bits_truncate`. Nothing is claimed of
/// the names: crossterm names some keys by the operating system.
#[verifier::external_body]
fn modifiers_name(modifiers: u8) -> (name: String) {
    KeyModifiers::from_bits_truncate(modifiers).to_string()
}

/// The names that the terminal library gives to the keys of `keybindings`, one
/// for each binding and in their order.
pub fn key_names_of(keybindings: &Vec<KeyBinding>) -> (names: Vec<KeyNames>)
    ensures
        names.len() == keybindings.len(),
{
    let mut names: Vec<KeyNames> = Vec::new();
    let mut i: usize = 0;
    while i < keybindings.len()
        invariant
            i <= keybindings.len(),
            names.len() == i,
        decreases keybindings.len() - i,
    {
        let key = keybindings[i].key;
        let code = code_name(key.code);
        let modifiers = modifiers_name(key.modifiers);
        names.push(KeyNames { code, modifiers });
        i += 1;
    }
    names
}

/// How the help names a key press whose keys go by the names `names`: the
/// space bar as `space`, another character by itself, any other key by its
/// name; and behind that, where modifier keys are held, a `+` and their names.
pub open spec fn spec_key_label(key: Key, names: KeyNames) -> Seq<char> {
    let held = if key.modifiers == 0 {
        Seq::empty()
    } else {
        seq!['+'] + names.modifiers@
    };
    match key.code {
        KeyCode::Char(c) => if c == ' ' {
            "space"@
        } else {
            seq![c] + held
        },
        _ => names.code@ + held,
    }
}

/// The name that the help gives a key press whose keys go by the names
/// `names`.
pub fn key_label(key: Key, names: &KeyNames) -> (out: Vec<char>)
    ensures
        out@ == spec_key_label(key, *names),
{
    let mut out: Vec<char> = Vec::new();
    match key.code {
        KeyCode::Char(c) => {
            if c == ' ' {
                push_str(&mut out, "space");
                return out;
            }
            out.push(c);
        },
        _ => {
            push_str(&mut out, names.code.as_str());
        },
    }
    if key.modifiers != 0 {
        let ghost name = out@;
        out.push('+');
        push_str(&mut out, names.modifiers.as_str());
        assert(out@ == name + (seq!['+'] + names.modifiers@));
    } else {
        assert(out@ == out@ + Seq::<char>::empty());
    }
    out
}

/// The line of the help for a command of the grammar.
pub open spec fn spec_command_line(usage: Seq<char>) -> Seq<char> {
    padded("global"@, 12) + seq![' '] + padded(usage, 12) + seq!['\n']
}

/// The text `before` with the part of the help behind it that lists the
/// commands of the grammar.
pub open spec fn spec_commands_after(before: Seq<char>) -> Seq<char> {
    before + "Commands:\n"@ + spec_command_line("quit, q"@) + spec_command_line("vol=[+|-]<i64>"@)
        + spec_command_line("seek=[+|-]<f64>"@) + spec_command_line("play-pause"@)
        + spec_command_line("play-next"@) + spec_command_line("play-prev"@) + spec_command_line(
        "pause-after=<u64>"@,
    ) + spec_command_line("quit-after=<u64>"@)
}

/// The part of the help that lists the commands of the grammar.
pub open spec fn spec_commands_help() -> Seq<char> {
    spec_commands_after(Seq::empty())
}

/// The line of the help for a key that is bound and described.
pub open spec fn spec_binding_line(key: Key, names: KeyNames, description: Seq<char>) -> Seq<
    char,
> {
    padded("global"@, 12) + "  "@ + padded(spec_key_label(key, names), 12) + "  "@ + description
}

/// The lines of the help for the keys of `bindings` that have a description,
/// in the order of the descriptions; of two keys with the same description
/// the one bound first comes first. The keys go by the names `names`, one for
/// each binding.
pub open spec fn spec_help_entries(bindings: Seq<KeyBinding>, names: Seq<KeyNames>) -> Seq<
    HelpLine,
>
    recommends
        names.len() == bindings.len(),
    decreases bindings.len(),
{
    if bindings.len() == 0 {
        Seq::empty()
    } else {
        let before = spec_help_entries(bindings.drop_last(), names.drop_last());
        match bindings.last().description {
            Some(d) => sorted_insert(
                before,
                HelpLine {
                    description: d@,
                    line: spec_binding_line(bindings.last().key, names.last(), d@),
                },
            ),
            None => before,
        }
    }
}

/// The lines `lines`, one below the other, with no line break after the last.
pub open spec fn joined(lines: Seq<HelpLine>) -> Seq<char>
    decreases lines.len(),
{
    if lines.len() == 0 {
        Seq::empty()
    } else if lines.len() == 1 {
        lines[0].line
    } else {
        joined(lines.drop_last()) + seq!['\n'] + lines.last().line
    }
}

/// The text of the help.
pub open spec fn spec_help(bindings: Seq<KeyBinding>, names: Seq<KeyNames>) -> Seq<char>
    recommends
        names.len() == bindings.len(),
{
    spec_commands_help() + seq!['\n'] + "Keybindings:\n"@ + joined(
        spec_help_entries(bindings, names),
    )
}

/// Appends the line of the help for a command of the grammar.
fn push_command_line(out: &mut Vec<char>, usage: &str)
    ensures
        final(out)@ == old(out)@ + spec_command_line(usage@),
{
    let scope = chars_of("global");
    let text = chars_of(usage);
    push_padded(out, &scope, 12);
    out.push(' ');
    push_padded(out, &text, 12);
    out.push('\n');
    assert(out@ == old(out)@ + spec_command_line(usage@));
}

/// Appends the part of the help that lists the commands of the grammar.
fn push_commands_help(out: &mut Vec<char>)
    ensures
        final(out)@ == spec_commands_after(old(out)@),
{
    push_str(out, "Commands:\n");
    push_command_line(out, "quit, q");
    push_command_line(out, "vol=[+|-]<i64>");
    push_command_line(out, "seek=[+|-]<f64>");
    push_command_line(out, "play-pause");
    push_command_line(out, "play-next");
    push_command_line(out, "play-prev");
    push_command_line(out, "pause-after=<u64>");
    push_command_line(out, "quit-after=<u64>");
}

/// The line of the help for a key that is bound and described.
fn binding_entry(key: Key, names: &KeyNames, description: &String) -> (entry: HelpEntry)
    ensures
        entry@ == (HelpLine {
            description: description@,
            line: spec_binding_line(key, *names, description@),
        }),
{
    let scope = chars_of("global");
    let label = key_label(key, names);
    let text = chars_of(description.as_str());
    let mut line: Vec<char> = Vec::new();
    push_padded(&mut line, &scope, 12);
    push_str(&mut line, "  ");
    push_padded(&mut line, &label, 12);
    push_str(&mut line, "  ");
    crate::text::push_all(&mut line, &text);
    assert(line@ == spec_binding_line(key, *names, description@));
    HelpEntry { description: text, line }
}

/// The lines of the help for the keys that are bound and described, the keys
/// under the names `names`.
pub fn help_entries(keybindings: &Vec<KeyBinding>, names: &Vec<KeyNames>) -> (entries: Vec<
    HelpEntry,
>)
    requires
        names.len() == keybindings.len(),
    ensures
        lines_of(entries@) == spec_help_entries(keybindings@, names@),
{
    let mut entries: Vec<HelpEntry> = Vec::new();
    let mut i: usize = 0;
    assert(keybindings@.take(0) == Seq::<KeyBinding>::empty());
    assert(lines_of(entries@) == Seq::<HelpLine>::empty());
    while i < keybindings.len()
        invariant
            i <= keybindings.len(),
            names.len() == keybindings.len(),
            lines_of(entries@) == spec_help_entries(
                keybindings@.take(i as int),
                names@.take(i as int),
            ),
        decreases keybindings.len() - i,
    {
        assert(keybindings@.take(i + 1).drop_last() == keybindings@.take(i as int));
        assert(keybindings@.take(i + 1).last() == keybindings[i as int]);
        assert(names@.take(i + 1).drop_last() == names@.take(i as int));
        assert(names@.take(i + 1).last() == names[i as int]);
        match &keybindings[i].description {
            Some(d) => {
                let entry = binding_entry(keybindings[i].key, &names[i], d);
                insert_entry(&mut entries, entry);
            },
            None => {},
        }
        i += 1;
    }
    assert(keybindings@.take(keybindings.len() as int) == keybindings@);
    assert(names@.take(names.len() as int) == names@);
    entries
}

/// Appends the lines `entries`, one below the other.
fn push_joined(out: &mut Vec<char>, entries: &Vec<HelpEntry>)
    ensures
        final(out)@ == old(out)@ + joined(lines_of(entries@)),
{
    let ghost lines = lines_of(entries@);
    assert(lines.len() == entries.len());
    let mut i: usize = 0;
    assert(lines.take(0) == Seq::<HelpLine>::empty());
    assert(out@ == old(out)@ + joined(lines.take(0)));
    while i < entries.len()
        invariant
            i <= entries.len(),
            lines == lines_of(entries@),
            lines.len() == entries.len(),
            out@ == old(out)@ + joined(lines.take(i as int)),
        decreases entries.len() - i,
    {
        let ghost before = out@;
        if i > 0 {
            out.push('\n');
        }
        crate::text::push_all(out, &entries[i].line);
        proof {
            let upto = lines.take(i + 1);
            assert(upto.drop_last() == lines.take(i as int));
            assert(upto.last() == entries[i as int]@);
            if i == 0 {
                assert(upto[0] == entries[0]@);
                assert(out@ == old(out)@ + upto[0].line);
            } else {
                assert(out@ == old(out)@ + (joined(lines.take(i as int)) + seq!['\n']
                    + upto.last().line));
            }
        }
        i += 1;
    }
    assert(lines.take(entries.len() as int) == lines);
}

/// The text of the help: the commands of the grammar, then the keys that are
/// bound and described, under the names `names` and in the order of their
/// descriptions.
pub fn help_text(keybindings: &Vec<KeyBinding>, names: &Vec<KeyNames>) -> (out: Vec<char>)
    requires
        names.len() == keybindings.len(),
    ensures
        out@ == spec_help(keybindings@, names@),
{
    let mut out: Vec<char> = Vec::new();
    push_commands_help(&mut out);
    out.push('\n');
    push_str(&mut out, "Keybindings:\n");
    let entries = help_entries(keybindings, names);
    push_joined(&mut out, &entries);
    assert(out@ == spec_help(keybindings@, names@));
    out
}

/// Of two texts one comes before the other, or they are the same.
pub proof fn lemma_text_le_total(a: Seq<char>, b: Seq<char>)
    ensures
        text_le(a, b) || text_le(b, a),
    decreases a.len(),
{
    if a.len() > 0 && b.len() > 0 && a[0] == b[0] {
        lemma_text_le_total(a.drop_first(), b.drop_first());
    }
}

/// What comes before a text comes before every text behind that one.
pub proof fn lemma_text_le_transitive(a: Seq<char>, b: Seq<char>, c: Seq<char>)
    requires
        text_le(a, b),
        text_le(b, c),
    ensures
        text_le(a, c),
    decreases a.len(),
{
    if a.len() > 0 && b.len() > 0 && c.len() > 0 && a[0] == b[0] && b[0] == c[0] {
        lemma_text_le_transitive(a.drop_first(), b.drop_first(), c.drop_first());
    }
}

/// Whether the lines stand in the order of their descriptions.
pub open spec fn ordered(lines: Seq<HelpLine>) -> bool {
    forall|i: int, j: int|
        0 <= i < j < lines.len() ==> text_le(
            (#[trigger] lines[i]).description,
            (#[trigger] lines[j]).description,
        )
}

/// Putting a line in keeps every line and adds that one.
proof fn lemma_sorted_insert_holds(sorted: Seq<HelpLine>, entry: HelpLine)
    ensures
        sorted_insert(sorted, entry).len() == sorted.len() + 1,
        forall|k: int|
            0 <= k < sorted_insert(sorted, entry).len() ==> (#[trigger] sorted_insert(
                sorted,
                entry,
            )[k]) == entry || sorted.contains(sorted_insert(sorted, entry)[k]),
        sorted_insert(sorted, entry).to_multiset() == sorted.to_multiset().insert(entry),
    decreases sorted.len(),
{
    vstd::seq_lib::to_multiset_build(sorted, entry);
    if sorted.len() == 0 || text_le(sorted.last().description, entry.description) {
        let after = sorted.push(entry);
        assert forall|k: int| 0 <= k < after.len() implies (#[trigger] after[k]) == entry
            || sorted.contains(after[k]) by {
            if k < sorted.len() {
                assert(sorted[k] == after[k]);
            }
        }
    } else {
        let head = sorted.drop_last();
        lemma_sorted_insert_holds(head, entry);
        let inner = sorted_insert(head, entry);
        let after = inner.push(sorted.last());
        assert forall|k: int| 0 <= k < after.len() implies (#[trigger] after[k]) == entry
            || sorted.contains(after[k]) by {
            if k < inner.len() {
                if inner[k] != entry {
                    assert(head.contains(inner[k]));
                    let w = choose|w: int| 0 <= w < head.len() && head[w] == inner[k];
                    assert(sorted[w] == inner[k]);
                }
            } else {
                assert(sorted[sorted.len() - 1] == after[k]);
            }
        }
        assert(sorted == head.push(sorted.last()));
        vstd::seq_lib::to_multiset_build(head, sorted.last());
        vstd::seq_lib::to_multiset_build(inner, sorted.last());
        assert(after.to_multiset() =~= sorted.to_multiset().insert(entry));
    }
}

/// Putting a line into ordered lines leaves them ordered.
proof fn lemma_sorted_insert_ordered(sorted: Seq<HelpLine>, entry: HelpLine)
    requires
        ordered(sorted),
    ensures
        ordered(sorted_insert(sorted, entry)),
    decreases sorted.len(),
{
    if sorted.len() == 0 {
    } else if text_le(sorted.last().description, entry.description) {
        let after = sorted.push(entry);
        assert forall|i: int, j: int| 0 <= i < j < after.len() implies text_le(
            (#[trigger] after[i]).description,
            (#[trigger] after[j]).description,
        ) by {
            if j < sorted.len() {
                assert(after[i] == sorted[i] && after[j] == sorted[j]);
            } else {
                assert(after[i] == sorted[i]);
                if i < sorted.len() - 1 {
                    assert(text_le(sorted[i].description, sorted[sorted.len() - 1].description));
                    lemma_text_le_transitive(
                        sorted[i].description,
                        sorted.last().description,
                        entry.description,
                    );
                }
            }
        }
    } else {
        let head = sorted.drop_last();
        assert forall|i: int, j: int| 0 <= i < j < head.len() implies text_le(
            (#[trigger] head[i]).description,
            (#[trigger] head[j]).description,
        ) by {
            assert(head[i] == sorted[i] && head[j] == sorted[j]);
        }
        lemma_sorted_insert_ordered(head, entry);
        lemma_sorted_insert_holds(head, entry);
        lemma_text_le_total(sorted.last().description, entry.description);
        let inner = sorted_insert(head, entry);
        let after = inner.push(sorted.last());
        assert forall|i: int, j: int| 0 <= i < j < after.len() implies text_le(
            (#[trigger] after[i]).description,
            (#[trigger] after[j]).description,
        ) by {
            if j < inner.len() {
                assert(after[i] == inner[i] && after[j] == inner[j]);
            } else {
                assert(after[i] == inner[i]);
                if inner[i] != entry {
                    assert(head.contains(inner[i]));
                    let w = choose|w: int| 0 <= w < head.len() && head[w] == inner[i];
                    assert(sorted[w] == inner[i]);
                    assert(text_le(sorted[w].description, sorted[sorted.len() - 1].description));
                }
            }
        }
    }
}

/// The lines of the help for the keys of `bindings` that have a description,
/// in the order in which the keys are bound.
pub open spec fn described_lines(bindings: Seq<KeyBinding>, names: Seq<KeyNames>) -> Seq<HelpLine>
    recommends
        names.len() == bindings.len(),
    decreases bindings.len(),
{
    if bindings.len() == 0 {
        Seq::empty()
    } else {
        let before = described_lines(bindings.drop_last(), names.drop_last());
        match bindings.last().description {
            Some(d) => before.push(
                HelpLine {
                    description: d@,
                    line: spec_binding_line(bindings.last().key, names.last(), d@),
                },
            ),
            None => before,
        }
    }
}

/// The help lists the keys in the order of their descriptions, and it lists
/// each key that is bound and described once: its lines are those of the
/// described keys, put in order.
pub proof fn law_help_is_ordered(bindings: Seq<KeyBinding>, names: Seq<KeyNames>)
    ensures
        ordered(spec_help_entries(bindings, names)),
        spec_help_entries(bindings, names).to_multiset() == described_lines(
            bindings,
            names,
        ).to_multiset(),
    decreases bindings.len(),
{
    if bindings.len() > 0 {
        law_help_is_ordered(bindings.drop_last(), names.drop_last());
        let before = spec_help_entries(bindings.drop_last(), names.drop_last());
        match bindings.last().description {
            Some(d) => {
                let entry = HelpLine {
                    description: d@,
                    line: spec_binding_line(bindings.last().key, names.last(), d@),
                };
                lemma_sorted_insert_ordered(before, entry);
                lemma_sorted_insert_holds(before, entry);
                vstd::seq_lib::to_multiset_build(
                    described_lines(bindings.drop_last(), names.drop_last()),
                    entry,
                );
            },
            None => {},
        }
    }
}

} // verus!
