use rust_kanban::{Action, AppStatus, Key, KeyBindingEnum, KeyBindings};

#[test]
fn every_default_binding_has_a_key() {
    let kb = KeyBindings::default();
    for b in KeyBindingEnum::iter() {
        let keys = kb.get_keybindings(b).unwrap();
        assert!(!keys.is_empty());
    }
}

#[test]
fn default_keys_resolve_to_their_action() {
    let kb = KeyBindings::default();
    for (b, keys) in kb.iter() {
        for k in keys.iter() {
            assert_eq!(kb.key_to_action(k), Some(kb.keybinding_enum_to_action(b)));
        }
    }
}

#[test]
fn quit_scenario() {
    let kb = KeyBindings::default();
    assert_eq!(kb.key_to_action(&Key::Ctrl('c')), Some(Action::Quit));
    assert_eq!(kb.key_to_action(&Key::Char('q')), Some(Action::Quit));
    assert_eq!(kb.key_to_action(&Key::Char('z')), None);
}

#[test]
fn default_table_entries() {
    let kb = KeyBindings::default();
    assert_eq!(kb.key_to_action(&Key::Enter), Some(Action::Accept));
    assert_eq!(kb.key_to_action(&Key::Char('1')), Some(Action::ChangeCardStatusToCompleted));
    assert_eq!(kb.key_to_action(&Key::Char('2')), Some(Action::ChangeCardStatusToActive));
    assert_eq!(kb.key_to_action(&Key::Delete), Some(Action::Delete));
    assert_eq!(kb.key_to_action(&Key::Char('d')), Some(Action::Delete));
    assert_eq!(kb.key_to_action(&Key::Char('D')), Some(Action::DeleteBoard));
    assert_eq!(kb.key_to_action(&Key::BackTab), Some(Action::PrvFocus));
    assert_eq!(kb.key_to_action(&Key::Ctrl('z')), Some(Action::Undo));
    assert_eq!(kb.get_keybindings(KeyBindingEnum::Quit), Some(vec![Key::Ctrl('c'), Key::Char('q')]));
}

#[test]
fn iter_in_canonical_order() {
    let kb = KeyBindings::default();
    let names: Vec<KeyBindingEnum> = kb.iter().into_iter().map(|(b, _)| b).collect();
    assert_eq!(names, KeyBindingEnum::iter());
    assert_eq!(names.len(), 34);
    assert_eq!(names[0], KeyBindingEnum::Accept);
    assert_eq!(names[33], KeyBindingEnum::Up);
    for (b, keys) in kb.iter() {
        assert_eq!(Some(keys.clone()), kb.get_keybindings(b));
    }
}

#[test]
fn enum_to_action_mapping() {
    let kb = KeyBindings::default();
    assert_eq!(kb.keybinding_enum_to_action(KeyBindingEnum::DeleteCard), Action::Delete);
    assert_eq!(kb.keybinding_enum_to_action(KeyBindingEnum::ResetUI), Action::ResetUI);
    let all = KeyBindingEnum::iter();
    for i in 0..all.len() {
        for j in 0..all.len() {
            if i != j {
                assert_ne!(
                    kb.keybinding_enum_to_action(all[i]),
                    kb.keybinding_enum_to_action(all[j])
                );
            }
        }
    }
}

#[test]
fn binding_names_round_trip() {
    for b in KeyBindingEnum::iter() {
        assert_eq!(KeyBindingEnum::from_name(&b.to_string()), Some(b));
    }
    assert_eq!(KeyBindingEnum::from_name("GoToPreviousUIModeorCancel"), Some(KeyBindingEnum::GoToPreviousUIModeorCancel));
    assert_eq!(KeyBindingEnum::from_name("quit"), None);
    assert_eq!(KeyBindingEnum::Quit.to_string(), "Quit");
}

#[test]
fn edit_drops_repeats_keeping_first_occurrences() {
    let mut kb = KeyBindings::default();
    kb.edit_keybinding(
        "Quit",
        vec![Key::Char('x'), Key::Char('y'), Key::Char('x'), Key::Char('y'), Key::Char('w'), Key::Char('x')],
    );
    assert_eq!(
        kb.get_keybindings(KeyBindingEnum::Quit),
        Some(vec![Key::Char('x'), Key::Char('y'), Key::Char('w')])
    );
    assert_eq!(kb.key_to_action(&Key::Char('w')), Some(Action::Quit));
    assert_eq!(kb.key_to_action(&Key::Char('q')), None);
}

#[test]
fn edit_only_touches_named_binding() {
    let before = KeyBindings::default();
    let mut kb = KeyBindings::default();
    kb.edit_keybinding("Undo", vec![Key::Alt('u')]);
    for b in KeyBindingEnum::iter() {
        if b == KeyBindingEnum::Undo {
            assert_eq!(kb.get_keybindings(b), Some(vec![Key::Alt('u')]));
        } else {
            assert_eq!(kb.get_keybindings(b), before.get_keybindings(b));
        }
    }
}

#[test]
fn edit_with_unknown_name_changes_nothing() {
    let before = KeyBindings::default();
    let mut kb = KeyBindings::default();
    kb.edit_keybinding("NotABinding", vec![Key::Char('x')]);
    kb.edit_keybinding("quit", vec![Key::Char('x')]);
    kb.edit_keybinding("", vec![]);
    for b in KeyBindingEnum::iter() {
        assert_eq!(kb.get_keybindings(b), before.get_keybindings(b));
    }
}

#[test]
fn edits_chain() {
    let mut kb = KeyBindings::default();
    kb.edit_keybinding("Up", vec![Key::Char('k')])
        .edit_keybinding("Down", vec![Key::Char('j')]);
    assert_eq!(kb.key_to_action(&Key::Char('k')), Some(Action::Up));
    assert_eq!(kb.key_to_action(&Key::Char('j')), Some(Action::Down));
    assert_eq!(kb.key_to_action(&Key::Up), None);
}

#[test]
fn edit_with_empty_list_unbinds() {
    let mut kb = KeyBindings::default();
    kb.edit_keybinding("Accept", vec![]);
    assert_eq!(kb.get_keybindings(KeyBindingEnum::Accept), Some(vec![]));
    assert_eq!(kb.key_to_action(&Key::Enter), None);
}

#[test]
fn shared_key_resolves_to_earliest_binding() {
    let mut kb = KeyBindings::default();
    kb.edit_keybinding("Up", vec![Key::Enter]);
    assert_eq!(kb.key_to_action(&Key::Enter), Some(Action::Accept));
    kb.edit_keybinding("Accept", vec![Key::Char('a')]);
    assert_eq!(kb.key_to_action(&Key::Enter), Some(Action::Up));
    assert_eq!(kb.binding_for_key(&Key::Enter), Some(KeyBindingEnum::Up));
}

#[test]
fn app_status() {
    assert!(AppStatus::initialized().is_initialized());
    assert!(!AppStatus::default().is_initialized());
    assert_eq!(AppStatus::default(), AppStatus::Init);
    assert!(!AppStatus::UserInput.is_initialized());
}

#[test]
fn string_equality() {
    assert!(rust_kanban::text::str_eq("abc", "abc"));
    assert!(!rust_kanban::text::str_eq("abc", "abd"));
    assert!(!rust_kanban::text::str_eq("abc", "ab"));
    assert!(rust_kanban::text::str_eq("", ""));
}
