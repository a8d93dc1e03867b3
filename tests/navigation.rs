use rust_kanban::{Focus, UiMode};

fn all_modes() -> Vec<UiMode> {
    vec![
        UiMode::BodyHelp,
        UiMode::BodyHelpLog,
        UiMode::BodyLog,
        UiMode::ConfigMenu,
        UiMode::CreateTheme,
        UiMode::EditKeybindings,
        UiMode::HelpMenu,
        UiMode::LoadCloudSave,
        UiMode::LoadLocalSave,
        UiMode::Login,
        UiMode::LogsOnly,
        UiMode::MainMenu,
        UiMode::NewBoard,
        UiMode::NewCard,
        UiMode::ResetPassword,
        UiMode::SignUp,
        UiMode::TitleBody,
        UiMode::TitleBodyHelp,
        UiMode::TitleBodyHelpLog,
        UiMode::TitleBodyLog,
        UiMode::Zen,
    ]
}

#[test]
fn label_round_trip_every_mode() {
    for m in all_modes() {
        let s = m.to_string();
        assert_eq!(UiMode::from_string(&s), Some(m));
    }
}

#[test]
fn labels_are_exact() {
    assert_eq!(UiMode::Zen.to_string(), "Zen");
    assert_eq!(UiMode::TitleBodyHelpLog.to_string(), "Title, Body, Help and Log");
    assert_eq!(UiMode::LoadCloudSave.to_string(), "Load a Save (Cloud)");
    assert_eq!(UiMode::from_string("Config"), Some(UiMode::ConfigMenu));
    assert_eq!(UiMode::from_string("config"), None);
    assert_eq!(UiMode::from_string("Zen "), None);
    assert_eq!(UiMode::from_string(""), None);
}

#[test]
fn numeric_shortcuts() {
    let views = UiMode::view_modes();
    for n in 1u8..=8 {
        let m = UiMode::from_number(n);
        assert_eq!(m, views[(n - 1) as usize]);
    }
    assert_eq!(UiMode::from_number(1), UiMode::Zen);
    assert_eq!(UiMode::from_number(8), UiMode::TitleBodyHelpLog);
    assert_eq!(UiMode::from_number(9), UiMode::TitleBodyHelpLog);
    for n in 1u8..=9 {
        assert!(views.contains(&UiMode::from_number(n)));
    }
    assert_eq!(UiMode::from_number(0), UiMode::TitleBody);
    assert_eq!(UiMode::from_number(10), UiMode::TitleBody);
    assert_eq!(UiMode::from_number(255), UiMode::TitleBody);
}

#[test]
fn view_modes_and_their_labels() {
    let views = UiMode::view_modes();
    assert_eq!(views.len(), 8);
    assert_eq!(views[0], UiMode::Zen);
    assert_eq!(views[7], UiMode::TitleBodyHelpLog);
    let labels = UiMode::view_modes_as_string();
    assert_eq!(labels.len(), 8);
    for (m, l) in views.iter().zip(labels.iter()) {
        assert_eq!(&m.to_string(), l);
    }
    assert_eq!(labels[1], "Title and Body");
}

#[test]
fn targets_nonempty_and_distinct() {
    for m in all_modes() {
        let t = m.get_available_targets();
        assert!(!t.is_empty());
        for i in 0..t.len() {
            for j in 0..t.len() {
                if i != j {
                    assert_ne!(t[i], t[j]);
                }
            }
        }
    }
}

#[test]
fn targets_in_declared_order() {
    assert_eq!(
        UiMode::ConfigMenu.get_available_targets(),
        vec![Focus::ConfigTable, Focus::SubmitButton, Focus::ExtraFocus]
    );
    assert_eq!(
        UiMode::NewCard.get_available_targets(),
        vec![Focus::CardName, Focus::CardDescription, Focus::CardDueDate, Focus::SubmitButton]
    );
    assert_eq!(UiMode::ResetPassword.get_available_targets().len(), 8);
    assert_eq!(UiMode::Zen.get_available_targets(), vec![Focus::Body]);
}

#[test]
fn next_then_prev_returns() {
    for m in all_modes() {
        let t = m.get_available_targets();
        for f in t.iter() {
            assert_eq!(f.next(&t).prev(&t), *f);
            assert_eq!(f.prev(&t).next(&t), *f);
        }
    }
}

#[test]
fn next_and_prev_wrap() {
    let t = vec![Focus::Title, Focus::Body, Focus::Help];
    assert_eq!(Focus::Title.next(&t), Focus::Body);
    assert_eq!(Focus::Help.next(&t), Focus::Title);
    assert_eq!(Focus::Title.prev(&t), Focus::Help);
    assert_eq!(Focus::Body.prev(&t), Focus::Title);
    let one = vec![Focus::Log];
    assert_eq!(Focus::Log.next(&one), Focus::Log);
    assert_eq!(Focus::Log.prev(&one), Focus::Log);
}

#[test]
fn absent_focus_goes_to_first() {
    let t = vec![Focus::Title, Focus::Body, Focus::Help];
    assert_eq!(Focus::CardName.next(&t), Focus::Title);
    assert_eq!(Focus::CardName.prev(&t), Focus::Title);
    assert_eq!(Focus::NoFocus.next(&t), Focus::Title);
}

#[test]
fn repeated_focus_counts_at_first_position() {
    let t = vec![Focus::Body, Focus::Help, Focus::Body];
    assert_eq!(Focus::Body.next(&t), Focus::Help);
    assert_eq!(Focus::Body.prev(&t), Focus::Body);
}

#[test]
fn activation_repairs_focus() {
    let f = UiMode::ConfigMenu.focus_on_activation(Focus::CardName, false);
    assert_eq!(f, Focus::ConfigTable);
}

#[test]
fn activation_keeps_valid_focus_or_popup() {
    assert_eq!(
        UiMode::ConfigMenu.focus_on_activation(Focus::SubmitButton, false),
        Focus::SubmitButton
    );
    assert_eq!(UiMode::ConfigMenu.focus_on_activation(Focus::CardName, true), Focus::CardName);
    for m in all_modes() {
        let f = m.focus_on_activation(Focus::NoFocus, false);
        assert!(m.get_available_targets().contains(&f));
    }
}

#[test]
fn defaults_of_enums() {
    assert_eq!(UiMode::default(), UiMode::Zen);
    assert_eq!(Focus::default(), Focus::NoFocus);
}
