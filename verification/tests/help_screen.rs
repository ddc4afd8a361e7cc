use ratatui::crossterm::event::{KeyCode as TermCode, KeyModifiers};
use sonictunes::help::{compare_text, help_entries, key_label, key_names_of, KeyNames};
use sonictunes::text::{chars_of, string_of};
use sonictunes::tui::{
    default_keybindings, generate_help_str, keys_are_distinct, Key, KeyBinding, KeyCode, Tui,
    TuiCommand, TuiState,
};

fn le(a: &str, b: &str) -> bool {
    compare_text(&chars_of(a), &chars_of(b))
}

fn binding(code: KeyCode, modifiers: u8, description: Option<&str>) -> KeyBinding {
    KeyBinding {
        key: Key { code, modifiers },
        command: TuiCommand::PlayNext,
        description: description.map(String::from),
    }
}

fn names(code: &str, modifiers: &str) -> KeyNames {
    KeyNames { code: code.to_string(), modifiers: modifiers.to_string() }
}

fn label(code: KeyCode, modifiers: u8, given: &KeyNames) -> String {
    string_of(&key_label(Key { code, modifiers }, given))
}

#[test]
fn texts_are_ordered_as_the_standard_library_orders_them() {
    let samples = ["", "a", "b", "ab", "aa", "B", "seek -10", "seek +10", "é", "z", "vol -1"];
    for a in samples {
        for b in samples {
            assert_eq!(le(a, b), a <= b, "{a:?} {b:?}");
        }
    }
}

#[test]
fn keys_get_the_names_that_the_terminal_gives_them() {
    let keys = [
        (KeyCode::Left, TermCode::Left),
        (KeyCode::Right, TermCode::Right),
        (KeyCode::Up, TermCode::Up),
        (KeyCode::Down, TermCode::Down),
        (KeyCode::Enter, TermCode::Enter),
        (KeyCode::Esc, TermCode::Esc),
        (KeyCode::Backspace, TermCode::Backspace),
        (KeyCode::Char('q'), TermCode::Char('q')),
        (KeyCode::Other, TermCode::Null),
    ];
    for (ours, theirs) in keys {
        for bits in [0u8, 1, 2, 3, 4, 32, 63, 64, 255] {
            let given = key_names_of(&vec![binding(ours, bits, None)]);
            let held = KeyModifiers::from_bits_truncate(bits);
            assert_eq!(given, vec![names(&theirs.to_string(), &held.to_string())]);
        }
    }
    assert_eq!(key_names_of(&Vec::new()), Vec::new());
    assert_eq!(key_names_of(&default_keybindings()).len(), 19);
}

#[test]
fn a_key_is_labelled_with_the_names_given() {
    let given = names("Links", "Umschalt");
    assert_eq!(label(KeyCode::Left, 0, &given), "Links");
    assert_eq!(label(KeyCode::Left, 1, &given), "Links+Umschalt");
    assert_eq!(label(KeyCode::Other, 3, &given), "Links+Umschalt");
    assert_eq!(label(KeyCode::Char('x'), 0, &given), "x");
    assert_eq!(label(KeyCode::Char('x'), 1, &given), "x+Umschalt");
    assert_eq!(label(KeyCode::Char(' '), 0, &given), "space");
    assert_eq!(label(KeyCode::Char(' '), 1, &given), "space");
    assert_eq!(label(KeyCode::Esc, 64, &names("Esc", "")), "Esc+");
}

#[test]
fn the_help_lists_commands_and_keys() {
    let left = TermCode::Left.to_string();
    let right = TermCode::Right.to_string();
    let shift = KeyModifiers::SHIFT.to_string();
    let key = |label: String, description: &str| format!("global        {label:12}  {description}");
    let keys = [
        key("space".to_string(), "play-pause"),
        key("z".to_string(), "play-prev"),
        key("b".to_string(), "play-prev"),
        key("q".to_string(), "quit, q"),
        key("j".to_string(), "scroll +1"),
        key("k".to_string(), "scroll -1"),
        key(right.clone(), "seek +10"),
        key(left.clone(), "seek -10"),
        key(format!("{left}+{shift}"), "seek -60"),
        key(format!("{right}+{shift}"), "seek -60"),
        key("0".to_string(), "view help"),
        key("2".to_string(), "view history"),
        key("1".to_string(), "view player"),
        key("}".to_string(), "vol +1"),
        key("]".to_string(), "vol +10"),
        key("{".to_string(), "vol -1"),
        key("[".to_string(), "vol -10"),
    ];
    let expected = format!(
        "Commands:\n\
         global       quit, q     \n\
         global       vol=[+|-]<i64>\n\
         global       seek=[+|-]<f64>\n\
         global       play-pause  \n\
         global       play-next   \n\
         global       play-prev   \n\
         global       pause-after=<u64>\n\
         global       quit-after=<u64>\n\
         \n\
         Keybindings:\n\
         {}",
        keys.join("\n")
    );
    assert_eq!(generate_help_str(&default_keybindings()), expected);
    let mut t = Tui::new(default_keybindings(), 0);
    t.state = TuiState::Help;
    t.scroll = 4;
    assert_eq!(t.frame(0).text, expected);
    assert_eq!(t.frame(0).scroll, 4);
}

#[test]
fn the_help_of_three_bindings() {
    let bindings = vec![
        KeyBinding {
            key: Key { code: KeyCode::Char('q'), modifiers: 0 },
            command: TuiCommand::Quit,
            description: Some("quit, q".to_string()),
        },
        KeyBinding {
            key: Key { code: KeyCode::Char(' '), modifiers: 0 },
            command: TuiCommand::PlayPause,
            description: Some("play-pause".to_string()),
        },
        KeyBinding {
            key: Key { code: KeyCode::Char(':'), modifiers: 0 },
            command: TuiCommand::EnterCommandMode(true),
            description: None,
        },
    ];
    assert_eq!(
        generate_help_str(&bindings),
        "Commands:\nglobal       quit, q     \nglobal       vol=[+|-]<i64>\n\
         global       seek=[+|-]<f64>\nglobal       play-pause  \nglobal       play-next   \n\
         global       play-prev   \nglobal       pause-after=<u64>\n\
         global       quit-after=<u64>\n\nKeybindings:\n\
         global        space         play-pause\nglobal        q             quit, q"
    );
}

#[test]
fn keys_with_the_same_description_keep_their_order() {
    let bindings = vec![
        binding(KeyCode::Char('c'), 0, Some("next")),
        binding(KeyCode::Char('x'), 0, None),
        binding(KeyCode::Char('a'), 0, Some("next")),
        binding(KeyCode::Char('m'), 0, Some("a very long description")),
        binding(KeyCode::Char('b'), 0, Some("next")),
    ];
    let given = key_names_of(&bindings);
    let entries: Vec<String> =
        help_entries(&bindings, &given).iter().map(|e| string_of(&e.line)).collect();
    assert_eq!(
        entries,
        vec![
            "global        m             a very long description",
            "global        c             next",
            "global        a             next",
            "global        b             next",
        ]
    );
    assert!(generate_help_str(&Vec::new()).ends_with("\n\nKeybindings:\n"));
}

#[test]
fn a_key_bound_twice_is_found_out() {
    assert!(keys_are_distinct(&default_keybindings()));
    assert!(keys_are_distinct(&Vec::new()));
    assert!(keys_are_distinct(&vec![
        binding(KeyCode::Left, 0, None),
        binding(KeyCode::Left, 1, None),
        binding(KeyCode::Right, 0, None),
    ]));
    assert!(!keys_are_distinct(&vec![
        binding(KeyCode::Left, 0, None),
        binding(KeyCode::Right, 0, None),
        binding(KeyCode::Left, 0, Some("again")),
    ]));
}
