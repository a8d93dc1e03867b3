use vstd::prelude::*;
use vstd::string::StringExecFns;

use crate::action::Action;
use crate::key::Key;
use crate::text::str_eq;

verus! {

/// The name of a rebindable command.
#[derive(Clone, Copy, Debug, PartialEq, Eq, Structural)]
pub enum KeyBindingEnum {
    Accept,
    ChangeCardStatusToActive,
    ChangeCardStatusToCompleted,
    ChangeCardStatusToStale,
    ChangeCardPriorityToHigh,
    ChangeCardPriorityToMedium,
    ChangeCardPriorityToLow,
    ClearAllToasts,
    DeleteBoard,
    DeleteCard,
    Down,
    GoToMainMenu,
    GoToPreviousUIModeorCancel,
    HideUiElement,
    Left,
    MoveCardDown,
    MoveCardLeft,
    MoveCardRight,
    MoveCardUp,
    NewBoard,
    NewCard,
    NextFocus,
    OpenConfigMenu,
    PrvFocus,
    Quit,
    Redo,
    ResetUI,
    Right,
    SaveState,
    StopUserInput,
    TakeUserInput,
    ToggleCommandPalette,
    Undo,
    Up,
}

/// The number of binding names.
pub const BINDING_COUNT: usize = 34;

/// The text under which a binding name is written.
pub open spec fn binding_name(b: KeyBindingEnum) -> Seq<char> {
    match b {
        KeyBindingEnum::Accept => "Accept"@,
        KeyBindingEnum::ChangeCardStatusToActive => "ChangeCardStatusToActive"@,
        KeyBindingEnum::ChangeCardStatusToCompleted => "ChangeCardStatusToCompleted"@,
        KeyBindingEnum::ChangeCardStatusToStale => "ChangeCardStatusToStale"@,
        KeyBindingEnum::ChangeCardPriorityToHigh => "ChangeCardPriorityToHigh"@,
        KeyBindingEnum::ChangeCardPriorityToMedium => "ChangeCardPriorityToMedium"@,
        KeyBindingEnum::ChangeCardPriorityToLow => "ChangeCardPriorityToLow"@,
        KeyBindingEnum::ClearAllToasts => "ClearAllToasts"@,
        KeyBindingEnum::DeleteBoard => "DeleteBoard"@,
        KeyBindingEnum::DeleteCard => "DeleteCard"@,
        KeyBindingEnum::Down => "Down"@,
        KeyBindingEnum::GoToMainMenu => "GoToMainMenu"@,
        KeyBindingEnum::GoToPreviousUIModeorCancel => "GoToPreviousUIModeorCancel"@,
        KeyBindingEnum::HideUiElement => "HideUiElement"@,
        KeyBindingEnum::Left => "Left"@,
        KeyBindingEnum::MoveCardDown => "MoveCardDown"@,
        KeyBindingEnum::MoveCardLeft => "MoveCardLeft"@,
        KeyBindingEnum::MoveCardRight => "MoveCardRight"@,
        KeyBindingEnum::MoveCardUp => "MoveCardUp"@,
        KeyBindingEnum::NewBoard => "NewBoard"@,
        KeyBindingEnum::NewCard => "NewCard"@,
        KeyBindingEnum::NextFocus => "NextFocus"@,
        KeyBindingEnum::OpenConfigMenu => "OpenConfigMenu"@,
        KeyBindingEnum::PrvFocus => "PrvFocus"@,
        KeyBindingEnum::Quit => "Quit"@,
        KeyBindingEnum::Redo => "Redo"@,
        KeyBindingEnum::ResetUI => "ResetUI"@,
        KeyBindingEnum::Right => "Right"@,
        KeyBindingEnum::SaveState => "SaveState"@,
        KeyBindingEnum::StopUserInput => "StopUserInput"@,
        KeyBindingEnum::TakeUserInput => "TakeUserInput"@,
        KeyBindingEnum::ToggleCommandPalette => "ToggleCommandPalette"@,
        KeyBindingEnum::Undo => "Undo"@,
        KeyBindingEnum::Up => "Up"@,
    }
}

/// The binding name written as `s`, if any.
pub open spec fn binding_with_name(s: Seq<char>) -> Option<KeyBindingEnum> {
    if exists|b: KeyBindingEnum| binding_name(b) == s {
        Some(choose|b: KeyBindingEnum| binding_name(b) == s)
    } else {
        None
    }
}

/// The position of a binding name in the canonical order.
pub open spec fn ordinal(b: KeyBindingEnum) -> int {
    match b {
        KeyBindingEnum::Accept => 0,
        KeyBindingEnum::ChangeCardStatusToActive => 1,
        KeyBindingEnum::ChangeCardStatusToCompleted => 2,
        KeyBindingEnum::ChangeCardStatusToStale => 3,
        KeyBindingEnum::ChangeCardPriorityToHigh => 4,
        KeyBindingEnum::ChangeCardPriorityToMedium => 5,
        KeyBindingEnum::ChangeCardPriorityToLow => 6,
        KeyBindingEnum::ClearAllToasts => 7,
        KeyBindingEnum::DeleteBoard => 8,
        KeyBindingEnum::DeleteCard => 9,
        KeyBindingEnum::Down => 10,
        KeyBindingEnum::GoToMainMenu => 11,
        KeyBindingEnum::GoToPreviousUIModeorCancel => 12,
        KeyBindingEnum::HideUiElement => 13,
        KeyBindingEnum::Left => 14,
        KeyBindingEnum::MoveCardDown => 15,
        KeyBindingEnum::MoveCardLeft => 16,
        KeyBindingEnum::MoveCardRight => 17,
        KeyBindingEnum::MoveCardUp => 18,
        KeyBindingEnum::NewBoard => 19,
        KeyBindingEnum::NewCard => 20,
        KeyBindingEnum::NextFocus => 21,
        KeyBindingEnum::OpenConfigMenu => 22,
        KeyBindingEnum::PrvFocus => 23,
        KeyBindingEnum::Quit => 24,
        KeyBindingEnum::Redo => 25,
        KeyBindingEnum::ResetUI => 26,
        KeyBindingEnum::Right => 27,
        KeyBindingEnum::SaveState => 28,
        KeyBindingEnum::StopUserInput => 29,
        KeyBindingEnum::TakeUserInput => 30,
        KeyBindingEnum::ToggleCommandPalette => 31,
        KeyBindingEnum::Undo => 32,
        KeyBindingEnum::Up => 33,
    }
}

/// All binding names, in the canonical order.
pub open spec fn binding_seq() -> Seq<KeyBindingEnum> {
    seq![
        KeyBindingEnum::Accept,
        KeyBindingEnum::ChangeCardStatusToActive,
        KeyBindingEnum::ChangeCardStatusToCompleted,
        KeyBindingEnum::ChangeCardStatusToStale,
        KeyBindingEnum::ChangeCardPriorityToHigh,
        KeyBindingEnum::ChangeCardPriorityToMedium,
        KeyBindingEnum::ChangeCardPriorityToLow,
        KeyBindingEnum::ClearAllToasts,
        KeyBindingEnum::DeleteBoard,
        KeyBindingEnum::DeleteCard,
        KeyBindingEnum::Down,
        KeyBindingEnum::GoToMainMenu,
        KeyBindingEnum::GoToPreviousUIModeorCancel,
        KeyBindingEnum::HideUiElement,
        KeyBindingEnum::Left,
        KeyBindingEnum::MoveCardDown,
        KeyBindingEnum::MoveCardLeft,
        KeyBindingEnum::MoveCardRight,
        KeyBindingEnum::MoveCardUp,
        KeyBindingEnum::NewBoard,
        KeyBindingEnum::NewCard,
        KeyBindingEnum::NextFocus,
        KeyBindingEnum::OpenConfigMenu,
        KeyBindingEnum::PrvFocus,
        KeyBindingEnum::Quit,
        KeyBindingEnum::Redo,
        KeyBindingEnum::ResetUI,
        KeyBindingEnum::Right,
        KeyBindingEnum::SaveState,
        KeyBindingEnum::StopUserInput,
        KeyBindingEnum::TakeUserInput,
        KeyBindingEnum::ToggleCommandPalette,
        KeyBindingEnum::Undo,
        KeyBindingEnum::Up,
    ]
}

/// The command that a binding name stands for.
pub open spec fn action_of(b: KeyBindingEnum) -> Action {
    match b {
        KeyBindingEnum::Accept => Action::Accept,
        KeyBindingEnum::ChangeCardStatusToActive => Action::ChangeCardStatusToActive,
        KeyBindingEnum::ChangeCardStatusToCompleted => Action::ChangeCardStatusToCompleted,
        KeyBindingEnum::ChangeCardStatusToStale => Action::ChangeCardStatusToStale,
        KeyBindingEnum::ChangeCardPriorityToHigh => Action::ChangeCardPriorityToHigh,
        KeyBindingEnum::ChangeCardPriorityToMedium => Action::ChangeCardPriorityToMedium,
        KeyBindingEnum::ChangeCardPriorityToLow => Action::ChangeCardPriorityToLow,
        KeyBindingEnum::ClearAllToasts => Action::ClearAllToasts,
        KeyBindingEnum::DeleteBoard => Action::DeleteBoard,
        KeyBindingEnum::DeleteCard => Action::Delete,
        KeyBindingEnum::Down => Action::Down,
        KeyBindingEnum::GoToMainMenu => Action::GoToMainMenu,
        KeyBindingEnum::GoToPreviousUIModeorCancel => Action::GoToPreviousUIModeorCancel,
        KeyBindingEnum::HideUiElement => Action::HideUiElement,
        KeyBindingEnum::Left => Action::Left,
        KeyBindingEnum::MoveCardDown => Action::MoveCardDown,
        KeyBindingEnum::MoveCardLeft => Action::MoveCardLeft,
        KeyBindingEnum::MoveCardRight => Action::MoveCardRight,
        KeyBindingEnum::MoveCardUp => Action::MoveCardUp,
        KeyBindingEnum::NewBoard => Action::NewBoard,
        KeyBindingEnum::NewCard => Action::NewCard,
        KeyBindingEnum::NextFocus => Action::NextFocus,
        KeyBindingEnum::OpenConfigMenu => Action::OpenConfigMenu,
        KeyBindingEnum::PrvFocus => Action::PrvFocus,
        KeyBindingEnum::Quit => Action::Quit,
        KeyBindingEnum::Redo => Action::Redo,
        KeyBindingEnum::ResetUI => Action::ResetUI,
        KeyBindingEnum::Right => Action::Right,
        KeyBindingEnum::SaveState => Action::SaveState,
        KeyBindingEnum::StopUserInput => Action::StopUserInput,
        KeyBindingEnum::TakeUserInput => Action::TakeUserInput,
        KeyBindingEnum::ToggleCommandPalette => Action::ToggleCommandPalette,
        KeyBindingEnum::Undo => Action::Undo,
        KeyBindingEnum::Up => Action::Up,
    }
}

/// The canonical order lists every binding name once, at its ordinal.
pub proof fn lemma_binding_order(b: KeyBindingEnum)
    ensures
        binding_seq().len() == BINDING_COUNT,
        0 <= ordinal(b) < BINDING_COUNT,
        binding_seq()[ordinal(b)] == b,
        forall|c: KeyBindingEnum| ordinal(c) == ordinal(b) ==> c == b,
        forall|i: int| 0 <= i < BINDING_COUNT ==> ordinal(#[trigger] binding_seq()[i]) == i,
{
}

/// Distinct binding names stand for distinct commands.
pub proof fn lemma_action_injective(a: KeyBindingEnum, b: KeyBindingEnum)
    ensures
        action_of(a) == action_of(b) ==> a == b,
{
}

/// No two binding names are written alike.
pub proof fn lemma_binding_name_injective(a: KeyBindingEnum, b: KeyBindingEnum)
    ensures
        binding_name(a) == binding_name(b) ==> a == b,
{
    reveal_strlit("Accept");
    reveal_strlit("ChangeCardStatusToActive");
    reveal_strlit("ChangeCardStatusToCompleted");
    reveal_strlit("ChangeCardStatusToStale");
    reveal_strlit("ChangeCardPriorityToHigh");
    reveal_strlit("ChangeCardPriorityToMedium");
    reveal_strlit("ChangeCardPriorityToLow");
    reveal_strlit("ClearAllToasts");
    reveal_strlit("DeleteBoard");
    reveal_strlit("DeleteCard");
    reveal_strlit("Down");
    reveal_strlit("GoToMainMenu");
    reveal_strlit("GoToPreviousUIModeorCancel");
    reveal_strlit("HideUiElement");
    reveal_strlit("Left");
    reveal_strlit("MoveCardDown");
    reveal_strlit("MoveCardLeft");
    reveal_strlit("MoveCardRight");
    reveal_strlit("MoveCardUp");
    reveal_strlit("NewBoard");
    reveal_strlit("NewCard");
    reveal_strlit("NextFocus");
    reveal_strlit("OpenConfigMenu");
    reveal_strlit("PrvFocus");
    reveal_strlit("Quit");
    reveal_strlit("Redo");
    reveal_strlit("ResetUI");
    reveal_strlit("Right");
    reveal_strlit("SaveState");
    reveal_strlit("StopUserInput");
    reveal_strlit("TakeUserInput");
    reveal_strlit("ToggleCommandPalette");
    reveal_strlit("Undo");
    reveal_strlit("Up");
    if binding_name(a) == binding_name(b) {
        assert(binding_name(a).len() == binding_name(b).len());
        assert(binding_name(a)[0] == binding_name(b)[0]);
        if binding_name(a).len() > 10 {
            assert(binding_name(a)[8] == binding_name(b)[8]);
            assert(binding_name(a)[10] == binding_name(b)[10]);
        }
    }
}

/// Parsing a binding name's text gives that binding name back.
pub proof fn lemma_binding_name_round_trip(b: KeyBindingEnum)
    ensures
        binding_with_name(binding_name(b)) == Some(b),
{
    let c = choose|c: KeyBindingEnum| binding_name(c) == binding_name(b);
    lemma_binding_name_injective(b, c);
}

impl KeyBindingEnum {
    /// All binding names, in the canonical order.
    pub fn iter() -> (r: Vec<KeyBindingEnum>)
        ensures
            r@ == binding_seq(),
    {
        let r = vec![
            KeyBindingEnum::Accept,
            KeyBindingEnum::ChangeCardStatusToActive,
            KeyBindingEnum::ChangeCardStatusToCompleted,
            KeyBindingEnum::ChangeCardStatusToStale,
            KeyBindingEnum::ChangeCardPriorityToHigh,
            KeyBindingEnum::ChangeCardPriorityToMedium,
            KeyBindingEnum::ChangeCardPriorityToLow,
            KeyBindingEnum::ClearAllToasts,
            KeyBindingEnum::DeleteBoard,
            KeyBindingEnum::DeleteCard,
            KeyBindingEnum::Down,
            KeyBindingEnum::GoToMainMenu,
            KeyBindingEnum::GoToPreviousUIModeorCancel,
            KeyBindingEnum::HideUiElement,
            KeyBindingEnum::Left,
            KeyBindingEnum::MoveCardDown,
            KeyBindingEnum::MoveCardLeft,
            KeyBindingEnum::MoveCardRight,
            KeyBindingEnum::MoveCardUp,
            KeyBindingEnum::NewBoard,
            KeyBindingEnum::NewCard,
            KeyBindingEnum::NextFocus,
            KeyBindingEnum::OpenConfigMenu,
            KeyBindingEnum::PrvFocus,
            KeyBindingEnum::Quit,
            KeyBindingEnum::Redo,
            KeyBindingEnum::ResetUI,
            KeyBindingEnum::Right,
            KeyBindingEnum::SaveState,
            KeyBindingEnum::StopUserInput,
            KeyBindingEnum::TakeUserInput,
            KeyBindingEnum::ToggleCommandPalette,
            KeyBindingEnum::Undo,
            KeyBindingEnum::Up,
        ];
        assert(r@ =~= binding_seq());
        r
    }

    /// The text under which this binding name is written.
    pub fn name_str(&self) -> (r: &'static str)
        ensures
            r@ == binding_name(*self),
    {
        match self {
            KeyBindingEnum::Accept => "Accept",
            KeyBindingEnum::ChangeCardStatusToActive => "ChangeCardStatusToActive",
            KeyBindingEnum::ChangeCardStatusToCompleted => "ChangeCardStatusToCompleted",
            KeyBindingEnum::ChangeCardStatusToStale => "ChangeCardStatusToStale",
            KeyBindingEnum::ChangeCardPriorityToHigh => "ChangeCardPriorityToHigh",
            KeyBindingEnum::ChangeCardPriorityToMedium => "ChangeCardPriorityToMedium",
            KeyBindingEnum::ChangeCardPriorityToLow => "ChangeCardPriorityToLow",
            KeyBindingEnum::ClearAllToasts => "ClearAllToasts",
            KeyBindingEnum::DeleteBoard => "DeleteBoard",
            KeyBindingEnum::DeleteCard => "DeleteCard",
            KeyBindingEnum::Down => "Down",
            KeyBindingEnum::GoToMainMenu => "GoToMainMenu",
            KeyBindingEnum::GoToPreviousUIModeorCancel => "GoToPreviousUIModeorCancel",
            KeyBindingEnum::HideUiElement => "HideUiElement",
            KeyBindingEnum::Left => "Left",
            KeyBindingEnum::MoveCardDown => "MoveCardDown",
            KeyBindingEnum::MoveCardLeft => "MoveCardLeft",
            KeyBindingEnum::MoveCardRight => "MoveCardRight",
            KeyBindingEnum::MoveCardUp => "MoveCardUp",
            KeyBindingEnum::NewBoard => "NewBoard",
            KeyBindingEnum::NewCard => "NewCard",
            KeyBindingEnum::NextFocus => "NextFocus",
            KeyBindingEnum::OpenConfigMenu => "OpenConfigMenu",
            KeyBindingEnum::PrvFocus => "PrvFocus",
            KeyBindingEnum::Quit => "Quit",
            KeyBindingEnum::Redo => "Redo",
            KeyBindingEnum::ResetUI => "ResetUI",
            KeyBindingEnum::Right => "Right",
            KeyBindingEnum::SaveState => "SaveState",
            KeyBindingEnum::StopUserInput => "StopUserInput",
            KeyBindingEnum::TakeUserInput => "TakeUserInput",
            KeyBindingEnum::ToggleCommandPalette => "ToggleCommandPalette",
            KeyBindingEnum::Undo => "Undo",
            KeyBindingEnum::Up => "Up",
        }
    }

    /// The text under which this binding name is written, as an owned string.
    pub fn to_string(&self) -> (r: String)
        ensures
            r@ == binding_name(*self),
    {
        String::from_str(self.name_str())
    }

    /// The binding name written exactly as `s`, if any.
    pub fn from_name(s: &str) -> (r: Option<KeyBindingEnum>)
        ensures
            r == binding_with_name(s@),
    {
        let r = if str_eq(s, "Accept") {
            Some(KeyBindingEnum::Accept)
        } else if str_eq(s, "ChangeCardStatusToActive") {
            Some(KeyBindingEnum::ChangeCardStatusToActive)
        } else if str_eq(s, "ChangeCardStatusToCompleted") {
            Some(KeyBindingEnum::ChangeCardStatusToCompleted)
        } else if str_eq(s, "ChangeCardStatusToStale") {
            Some(KeyBindingEnum::ChangeCardStatusToStale)
        } else if str_eq(s, "ChangeCardPriorityToHigh") {
            Some(KeyBindingEnum::ChangeCardPriorityToHigh)
        } else if str_eq(s, "ChangeCardPriorityToMedium") {
            Some(KeyBindingEnum::ChangeCardPriorityToMedium)
        } else if str_eq(s, "ChangeCardPriorityToLow") {
            Some(KeyBindingEnum::ChangeCardPriorityToLow)
        } else if str_eq(s, "ClearAllToasts") {
            Some(KeyBindingEnum::ClearAllToasts)
        } else if str_eq(s, "DeleteBoard") {
            Some(KeyBindingEnum::DeleteBoard)
        } else if str_eq(s, "DeleteCard") {
            Some(KeyBindingEnum::DeleteCard)
        } else if str_eq(s, "Down") {
            Some(KeyBindingEnum::Down)
        } else if str_eq(s, "GoToMainMenu") {
            Some(KeyBindingEnum::GoToMainMenu)
        } else if str_eq(s, "GoToPreviousUIModeorCancel") {
            Some(KeyBindingEnum::GoToPreviousUIModeorCancel)
        } else if str_eq(s, "HideUiElement") {
            Some(KeyBindingEnum::HideUiElement)
        } else if str_eq(s, "Left") {
            Some(KeyBindingEnum::Left)
        } else if str_eq(s, "MoveCardDown") {
            Some(KeyBindingEnum::MoveCardDown)
        } else if str_eq(s, "MoveCardLeft") {
            Some(KeyBindingEnum::MoveCardLeft)
        } else if str_eq(s, "MoveCardRight") {
            Some(KeyBindingEnum::MoveCardRight)
        } else if str_eq(s, "MoveCardUp") {
            Some(KeyBindingEnum::MoveCardUp)
        } else if str_eq(s, "NewBoard") {
            Some(KeyBindingEnum::NewBoard)
        } else if str_eq(s, "NewCard") {
            Some(KeyBindingEnum::NewCard)
        } else if str_eq(s, "NextFocus") {
            Some(KeyBindingEnum::NextFocus)
        } else if str_eq(s, "OpenConfigMenu") {
            Some(KeyBindingEnum::OpenConfigMenu)
        } else if str_eq(s, "PrvFocus") {
            Some(KeyBindingEnum::PrvFocus)
        } else if str_eq(s, "Quit") {
            Some(KeyBindingEnum::Quit)
        } else if str_eq(s, "Redo") {
            Some(KeyBindingEnum::Redo)
        } else if str_eq(s, "ResetUI") {
            Some(KeyBindingEnum::ResetUI)
        } else if str_eq(s, "Right") {
            Some(KeyBindingEnum::Right)
        } else if str_eq(s, "SaveState") {
            Some(KeyBindingEnum::SaveState)
        } else if str_eq(s, "StopUserInput") {
            Some(KeyBindingEnum::StopUserInput)
        } else if str_eq(s, "TakeUserInput") {
            Some(KeyBindingEnum::TakeUserInput)
        } else if str_eq(s, "ToggleCommandPalette") {
            Some(KeyBindingEnum::ToggleCommandPalette)
        } else if str_eq(s, "Undo") {
            Some(KeyBindingEnum::Undo)
        } else if str_eq(s, "Up") {
            Some(KeyBindingEnum::Up)
        } else {
            None
        };
        proof {
            if let Some(b) = r {
                assert(binding_name(b) == s@);
                let c = choose|c: KeyBindingEnum| binding_name(c) == s@;
                lemma_binding_name_injective(b, c);
            }
        }
        r
    }
}



/// The keys bound to each command, one list per binding name.
#[derive(Clone, Debug)]
pub struct KeyBindings {
    pub accept: Vec<Key>,
    pub change_card_status_to_active: Vec<Key>,
    pub change_card_status_to_completed: Vec<Key>,
    pub change_card_status_to_stale: Vec<Key>,
    pub change_card_priority_to_high: Vec<Key>,
    pub change_card_priority_to_medium: Vec<Key>,
    pub change_card_priority_to_low: Vec<Key>,
    pub clear_all_toasts: Vec<Key>,
    pub delete_board: Vec<Key>,
    pub delete_card: Vec<Key>,
    pub down: Vec<Key>,
    pub go_to_main_menu: Vec<Key>,
    pub go_to_previous_ui_mode_or_cancel: Vec<Key>,
    pub hide_ui_element: Vec<Key>,
    pub left: Vec<Key>,
    pub move_card_down: Vec<Key>,
    pub move_card_left: Vec<Key>,
    pub move_card_right: Vec<Key>,
    pub move_card_up: Vec<Key>,
    pub new_board: Vec<Key>,
    pub new_card: Vec<Key>,
    pub next_focus: Vec<Key>,
    pub open_config_menu: Vec<Key>,
    pub prv_focus: Vec<Key>,
    pub quit: Vec<Key>,
    pub redo: Vec<Key>,
    pub reset_ui: Vec<Key>,
    pub right: Vec<Key>,
    pub save_state: Vec<Key>,
    pub stop_user_input: Vec<Key>,
    pub take_user_input: Vec<Key>,
    pub toggle_command_palette: Vec<Key>,
    pub undo: Vec<Key>,
    pub up: Vec<Key>,
}

/// The keys of the default table for a binding name.
pub open spec fn default_keys(b: KeyBindingEnum) -> Seq<Key> {
    match b {
        KeyBindingEnum::Accept => seq![Key::Enter],
        KeyBindingEnum::ChangeCardStatusToActive => seq![Key::Char('2')],
        KeyBindingEnum::ChangeCardStatusToCompleted => seq![Key::Char('1')],
        KeyBindingEnum::ChangeCardStatusToStale => seq![Key::Char('3')],
        KeyBindingEnum::ChangeCardPriorityToHigh => seq![Key::Char('4')],
        KeyBindingEnum::ChangeCardPriorityToMedium => seq![Key::Char('5')],
        KeyBindingEnum::ChangeCardPriorityToLow => seq![Key::Char('6')],
        KeyBindingEnum::ClearAllToasts => seq![Key::Char('t')],
        KeyBindingEnum::DeleteBoard => seq![Key::Char('D')],
        KeyBindingEnum::DeleteCard => seq![Key::Char('d'), Key::Delete],
        KeyBindingEnum::Down => seq![Key::Down],
        KeyBindingEnum::GoToMainMenu => seq![Key::Char('m')],
        KeyBindingEnum::GoToPreviousUIModeorCancel => seq![Key::Esc],
        KeyBindingEnum::HideUiElement => seq![Key::Char('h')],
        KeyBindingEnum::Left => seq![Key::Left],
        KeyBindingEnum::MoveCardDown => seq![Key::ShiftDown],
        KeyBindingEnum::MoveCardLeft => seq![Key::ShiftLeft],
        KeyBindingEnum::MoveCardRight => seq![Key::ShiftRight],
        KeyBindingEnum::MoveCardUp => seq![Key::ShiftUp],
        KeyBindingEnum::NewBoard => seq![Key::Char('b')],
        KeyBindingEnum::NewCard => seq![Key::Char('n')],
        KeyBindingEnum::NextFocus => seq![Key::Tab],
        KeyBindingEnum::OpenConfigMenu => seq![Key::Char('c')],
        KeyBindingEnum::PrvFocus => seq![Key::BackTab],
        KeyBindingEnum::Quit => seq![Key::Ctrl('c'), Key::Char('q')],
        KeyBindingEnum::Redo => seq![Key::Ctrl('y')],
        KeyBindingEnum::ResetUI => seq![Key::Char('r')],
        KeyBindingEnum::Right => seq![Key::Right],
        KeyBindingEnum::SaveState => seq![Key::Ctrl('s')],
        KeyBindingEnum::StopUserInput => seq![Key::Ins],
        KeyBindingEnum::TakeUserInput => seq![Key::Char('i')],
        KeyBindingEnum::ToggleCommandPalette => seq![Key::Ctrl('p')],
        KeyBindingEnum::Undo => seq![Key::Ctrl('z')],
        KeyBindingEnum::Up => seq![Key::Up],
    }
}

/// The binding name to which the default table binds `k`, if any.
pub open spec fn default_binding_of(k: Key) -> Option<KeyBindingEnum> {
    match k {
        Key::Enter => Some(KeyBindingEnum::Accept),
        Key::Delete => Some(KeyBindingEnum::DeleteCard),
        Key::Down => Some(KeyBindingEnum::Down),
        Key::Esc => Some(KeyBindingEnum::GoToPreviousUIModeorCancel),
        Key::Left => Some(KeyBindingEnum::Left),
        Key::ShiftDown => Some(KeyBindingEnum::MoveCardDown),
        Key::ShiftLeft => Some(KeyBindingEnum::MoveCardLeft),
        Key::ShiftRight => Some(KeyBindingEnum::MoveCardRight),
        Key::ShiftUp => Some(KeyBindingEnum::MoveCardUp),
        Key::Tab => Some(KeyBindingEnum::NextFocus),
        Key::BackTab => Some(KeyBindingEnum::PrvFocus),
        Key::Right => Some(KeyBindingEnum::Right),
        Key::Ins => Some(KeyBindingEnum::StopUserInput),
        Key::Up => Some(KeyBindingEnum::Up),
        Key::Char(c) => match c {
            '2' => Some(KeyBindingEnum::ChangeCardStatusToActive),
            '1' => Some(KeyBindingEnum::ChangeCardStatusToCompleted),
            '3' => Some(KeyBindingEnum::ChangeCardStatusToStale),
            '4' => Some(KeyBindingEnum::ChangeCardPriorityToHigh),
            '5' => Some(KeyBindingEnum::ChangeCardPriorityToMedium),
            '6' => Some(KeyBindingEnum::ChangeCardPriorityToLow),
            't' => Some(KeyBindingEnum::ClearAllToasts),
            'D' => Some(KeyBindingEnum::DeleteBoard),
            'd' => Some(KeyBindingEnum::DeleteCard),
            'm' => Some(KeyBindingEnum::GoToMainMenu),
            'h' => Some(KeyBindingEnum::HideUiElement),
            'b' => Some(KeyBindingEnum::NewBoard),
            'n' => Some(KeyBindingEnum::NewCard),
            'c' => Some(KeyBindingEnum::OpenConfigMenu),
            'q' => Some(KeyBindingEnum::Quit),
            'r' => Some(KeyBindingEnum::ResetUI),
            'i' => Some(KeyBindingEnum::TakeUserInput),
            _ => None,
        },
        Key::Ctrl(c) => match c {
            'c' => Some(KeyBindingEnum::Quit),
            'y' => Some(KeyBindingEnum::Redo),
            's' => Some(KeyBindingEnum::SaveState),
            'p' => Some(KeyBindingEnum::ToggleCommandPalette),
            'z' => Some(KeyBindingEnum::Undo),
            _ => None,
        },
        _ => None,
    }
}

/// Copies a list of keys.
fn copy_keys(v: &Vec<Key>) -> (r: Vec<Key>)
    ensures
        r@ == v@,
{
    let mut r: Vec<Key> = Vec::new();
    let mut i: usize = 0;
    while i < v.len()
        invariant
            i <= v@.len(),
            r@ == v@.take(i as int),
        decreases v@.len() - i,
    {
        r.push(v[i]);
        i = i + 1;
        assert(r@ =~= v@.take(i as int));
    }
    assert(v@.take(v@.len() as int) =~= v@);
    r
}

/// Whether `k` is one of `v`.
fn contains_key(v: &Vec<Key>, k: &Key) -> (r: bool)
    ensures
        r == v@.contains(*k),
{
    let mut i: usize = 0;
    while i < v.len()
        invariant
            i <= v@.len(),
            forall|j: int| 0 <= j < i ==> v@[j] != *k,
        decreases v@.len() - i,
    {
        if v[i] == *k {
            assert(v@[i as int] == *k);
            return true;
        }
        i = i + 1;
    }
    false
}

/// Drops every key that occurred earlier in `v`, keeping the order of first
/// occurrences.
fn dedup_keys(v: Vec<Key>) -> (r: Vec<Key>)
    ensures
        r@ == v@.remove_duplicates(Seq::empty()),
{
    let mut r: Vec<Key> = Vec::new();
    let mut i: usize = 0;
    assert(v@.take(0) =~= Seq::<Key>::empty());
    while i < v.len()
        invariant
            i <= v@.len(),
            r@ == v@.take(i as int).remove_duplicates(Seq::empty()),
        decreases v@.len() - i,
    {
        let k = v[i];
        proof {
            let pre = v@.take(i as int);
            assert(pre + Seq::<Key>::empty() =~= pre);
            assert(v@.take(i + 1) =~= pre + seq![k]);
            pre.lemma_remove_duplicates_properties(Seq::empty());
            pre.lemma_remove_duplicates_append(k, Seq::empty());
        }
        if !contains_key(&r, &k) {
            r.push(k);
        }
        i = i + 1;
    }
    assert(v@.take(v@.len() as int) =~= v@);
    r
}

impl KeyBindings {
    /// The keys bound to `b`.
    pub open spec fn keys_of(self, b: KeyBindingEnum) -> Seq<Key> {
        match b {
            KeyBindingEnum::Accept => self.accept@,
            KeyBindingEnum::ChangeCardStatusToActive => self.change_card_status_to_active@,
            KeyBindingEnum::ChangeCardStatusToCompleted => self.change_card_status_to_completed@,
            KeyBindingEnum::ChangeCardStatusToStale => self.change_card_status_to_stale@,
            KeyBindingEnum::ChangeCardPriorityToHigh => self.change_card_priority_to_high@,
            KeyBindingEnum::ChangeCardPriorityToMedium => self.change_card_priority_to_medium@,
            KeyBindingEnum::ChangeCardPriorityToLow => self.change_card_priority_to_low@,
            KeyBindingEnum::ClearAllToasts => self.clear_all_toasts@,
            KeyBindingEnum::DeleteBoard => self.delete_board@,
            KeyBindingEnum::DeleteCard => self.delete_card@,
            KeyBindingEnum::Down => self.down@,
            KeyBindingEnum::GoToMainMenu => self.go_to_main_menu@,
            KeyBindingEnum::GoToPreviousUIModeorCancel => self.go_to_previous_ui_mode_or_cancel@,
            KeyBindingEnum::HideUiElement => self.hide_ui_element@,
            KeyBindingEnum::Left => self.left@,
            KeyBindingEnum::MoveCardDown => self.move_card_down@,
            KeyBindingEnum::MoveCardLeft => self.move_card_left@,
            KeyBindingEnum::MoveCardRight => self.move_card_right@,
            KeyBindingEnum::MoveCardUp => self.move_card_up@,
            KeyBindingEnum::NewBoard => self.new_board@,
            KeyBindingEnum::NewCard => self.new_card@,
            KeyBindingEnum::NextFocus => self.next_focus@,
            KeyBindingEnum::OpenConfigMenu => self.open_config_menu@,
            KeyBindingEnum::PrvFocus => self.prv_focus@,
            KeyBindingEnum::Quit => self.quit@,
            KeyBindingEnum::Redo => self.redo@,
            KeyBindingEnum::ResetUI => self.reset_ui@,
            KeyBindingEnum::Right => self.right@,
            KeyBindingEnum::SaveState => self.save_state@,
            KeyBindingEnum::StopUserInput => self.stop_user_input@,
            KeyBindingEnum::TakeUserInput => self.take_user_input@,
            KeyBindingEnum::ToggleCommandPalette => self.toggle_command_palette@,
            KeyBindingEnum::Undo => self.undo@,
            KeyBindingEnum::Up => self.up@,
        }
    }

    /// Whether `k` is among the keys bound to `b`.
    pub open spec fn binds(self, b: KeyBindingEnum, k: Key) -> bool {
        self.keys_of(b).contains(k)
    }

    /// Whether `b` is the earliest binding name, in the canonical order, to
    /// which `k` is bound.
    pub open spec fn is_first_binding(self, b: KeyBindingEnum, k: Key) -> bool {
        &&& self.binds(b, k)
        &&& forall|c: KeyBindingEnum| ordinal(c) < ordinal(b) ==> !self.binds(c, k)
    }

    /// The binding name that a key press of `k` selects: the earliest one in
    /// the canonical order to which `k` is bound.
    pub open spec fn resolve(self, k: Key) -> Option<KeyBindingEnum> {
        if exists|b: KeyBindingEnum| self.binds(b, k) {
            Some(choose|b: KeyBindingEnum| self.is_first_binding(b, k))
        } else {
            None
        }
    }

    /// The keys bound to `b`, by reference.
    fn keys_ref(&self, b: KeyBindingEnum) -> (r: &Vec<Key>)
        ensures
            r@ == self.keys_of(b),
    {
        match b {
            KeyBindingEnum::Accept => &self.accept,
            KeyBindingEnum::ChangeCardStatusToActive => &self.change_card_status_to_active,
            KeyBindingEnum::ChangeCardStatusToCompleted => &self.change_card_status_to_completed,
            KeyBindingEnum::ChangeCardStatusToStale => &self.change_card_status_to_stale,
            KeyBindingEnum::ChangeCardPriorityToHigh => &self.change_card_priority_to_high,
            KeyBindingEnum::ChangeCardPriorityToMedium => &self.change_card_priority_to_medium,
            KeyBindingEnum::ChangeCardPriorityToLow => &self.change_card_priority_to_low,
            KeyBindingEnum::ClearAllToasts => &self.clear_all_toasts,
            KeyBindingEnum::DeleteBoard => &self.delete_board,
            KeyBindingEnum::DeleteCard => &self.delete_card,
            KeyBindingEnum::Down => &self.down,
            KeyBindingEnum::GoToMainMenu => &self.go_to_main_menu,
            KeyBindingEnum::GoToPreviousUIModeorCancel => &self.go_to_previous_ui_mode_or_cancel,
            KeyBindingEnum::HideUiElement => &self.hide_ui_element,
            KeyBindingEnum::Left => &self.left,
            KeyBindingEnum::MoveCardDown => &self.move_card_down,
            KeyBindingEnum::MoveCardLeft => &self.move_card_left,
            KeyBindingEnum::MoveCardRight => &self.move_card_right,
            KeyBindingEnum::MoveCardUp => &self.move_card_up,
            KeyBindingEnum::NewBoard => &self.new_board,
            KeyBindingEnum::NewCard => &self.new_card,
            KeyBindingEnum::NextFocus => &self.next_focus,
            KeyBindingEnum::OpenConfigMenu => &self.open_config_menu,
            KeyBindingEnum::PrvFocus => &self.prv_focus,
            KeyBindingEnum::Quit => &self.quit,
            KeyBindingEnum::Redo => &self.redo,
            KeyBindingEnum::ResetUI => &self.reset_ui,
            KeyBindingEnum::Right => &self.right,
            KeyBindingEnum::SaveState => &self.save_state,
            KeyBindingEnum::StopUserInput => &self.stop_user_input,
            KeyBindingEnum::TakeUserInput => &self.take_user_input,
            KeyBindingEnum::ToggleCommandPalette => &self.toggle_command_palette,
            KeyBindingEnum::Undo => &self.undo,
            KeyBindingEnum::Up => &self.up,
        }
    }

    /// Each binding name with its keys, in the canonical order.
    pub fn iter(&self) -> (r: Vec<(KeyBindingEnum, &Vec<Key>)>)
        ensures
            r@.len() == binding_seq().len(),
            forall|i: int|
                0 <= i < r@.len() ==> (#[trigger] r@[i]).0 == binding_seq()[i] && r@[i].1@
                    == self.keys_of(binding_seq()[i]),
    {
        let all = KeyBindingEnum::iter();
        let mut r: Vec<(KeyBindingEnum, &Vec<Key>)> = Vec::new();
        let mut i: usize = 0;
        while i < all.len()
            invariant
                all@ == binding_seq(),
                i <= all@.len(),
                r@.len() == i,
                forall|j: int|
                    0 <= j < i ==> (#[trigger] r@[j]).0 == binding_seq()[j] && r@[j].1@
                        == self.keys_of(binding_seq()[j]),
            decreases all@.len() - i,
        {
            let b = all[i];
            r.push((b, self.keys_ref(b)));
            i = i + 1;
        }
        r
    }

    /// The binding name that a key press of `key` selects, if any.
    pub fn binding_for_key(&self, key: &Key) -> (r: Option<KeyBindingEnum>)
        ensures
            r == self.resolve(*key),
    {
        let all = KeyBindingEnum::iter();
        let mut i: usize = 0;
        while i < all.len()
            invariant
                all@ == binding_seq(),
                i <= all@.len(),
                forall|j: int| 0 <= j < i ==> !self.binds(#[trigger] binding_seq()[j], *key),
            decreases all@.len() - i,
        {
            let b = all[i];
            if contains_key(self.keys_ref(b), key) {
                proof {
                    lemma_binding_order(b);
                    assert forall|c: KeyBindingEnum| ordinal(c) < ordinal(b) implies !self.binds(
                        c,
                        *key,
                    ) by {
                        lemma_binding_order(c);
                    }
                    self.lemma_first_binding_unique(b, *key);
                }
                return Some(b);
            }
            i = i + 1;
        }
        proof {
            assert forall|c: KeyBindingEnum| !self.binds(c, *key) by {
                lemma_binding_order(c);
            }
        }
        None
    }

    /// The command that a key press of `key` selects, if any.
    pub fn key_to_action(&self, key: &Key) -> (r: Option<Action>)
        ensures
            match self.resolve(*key) {
                Some(b) => r == Some(action_of(b)),
                None => r is None,
            },
    {
        match self.binding_for_key(key) {
            Some(b) => Some(self.keybinding_enum_to_action(b)),
            None => None,
        }
    }

    /// The command that a binding name stands for.
    pub fn keybinding_enum_to_action(&self, keybinding_enum: KeyBindingEnum) -> (r: Action)
        ensures
            r == action_of(keybinding_enum),
    {
        match keybinding_enum {
            KeyBindingEnum::Accept => Action::Accept,
            KeyBindingEnum::ChangeCardStatusToActive => Action::ChangeCardStatusToActive,
            KeyBindingEnum::ChangeCardStatusToCompleted => Action::ChangeCardStatusToCompleted,
            KeyBindingEnum::ChangeCardStatusToStale => Action::ChangeCardStatusToStale,
            KeyBindingEnum::ChangeCardPriorityToHigh => Action::ChangeCardPriorityToHigh,
            KeyBindingEnum::ChangeCardPriorityToMedium => Action::ChangeCardPriorityToMedium,
            KeyBindingEnum::ChangeCardPriorityToLow => Action::ChangeCardPriorityToLow,
            KeyBindingEnum::ClearAllToasts => Action::ClearAllToasts,
            KeyBindingEnum::DeleteBoard => Action::DeleteBoard,
            KeyBindingEnum::DeleteCard => Action::Delete,
            KeyBindingEnum::Down => Action::Down,
            KeyBindingEnum::GoToMainMenu => Action::GoToMainMenu,
            KeyBindingEnum::GoToPreviousUIModeorCancel => Action::GoToPreviousUIModeorCancel,
            KeyBindingEnum::HideUiElement => Action::HideUiElement,
            KeyBindingEnum::Left => Action::Left,
            KeyBindingEnum::MoveCardDown => Action::MoveCardDown,
            KeyBindingEnum::MoveCardLeft => Action::MoveCardLeft,
            KeyBindingEnum::MoveCardRight => Action::MoveCardRight,
            KeyBindingEnum::MoveCardUp => Action::MoveCardUp,
            KeyBindingEnum::NewBoard => Action::NewBoard,
            KeyBindingEnum::NewCard => Action::NewCard,
            KeyBindingEnum::NextFocus => Action::NextFocus,
            KeyBindingEnum::OpenConfigMenu => Action::OpenConfigMenu,
            KeyBindingEnum::PrvFocus => Action::PrvFocus,
            KeyBindingEnum::Quit => Action::Quit,
            KeyBindingEnum::Redo => Action::Redo,
            KeyBindingEnum::ResetUI => Action::ResetUI,
            KeyBindingEnum::Right => Action::Right,
            KeyBindingEnum::SaveState => Action::SaveState,
            KeyBindingEnum::StopUserInput => Action::StopUserInput,
            KeyBindingEnum::TakeUserInput => Action::TakeUserInput,
            KeyBindingEnum::ToggleCommandPalette => Action::ToggleCommandPalette,
            KeyBindingEnum::Undo => Action::Undo,
            KeyBindingEnum::Up => Action::Up,
        }
    }

    /// A copy of the keys bound to `keybinding_enum`.
    pub fn get_keybindings(&self, keybinding_enum: KeyBindingEnum) -> (r: Option<Vec<Key>>)
        ensures
            match r {
                Some(v) => v@ == self.keys_of(keybinding_enum),
                None => false,
            },
    {
        Some(copy_keys(self.keys_ref(keybinding_enum)))
    }

    /// Binds the binding name written as `key` to `keybinding`, with repeated
    /// keys dropped; leaves the table as it is when `key` names no binding.
    /// Returns the table, for further edits.
    pub fn edit_keybinding(&mut self, key: &str, keybinding: Vec<Key>) -> (r: &mut KeyBindings)
        ensures
            *final(self) == *final(r),
            match binding_with_name(key@) {
                Some(b) => {
                    &&& (*r).keys_of(b) == keybinding@.remove_duplicates(Seq::empty())
                    &&& forall|c: KeyBindingEnum| c != b ==> (*r).keys_of(c) == old(self).keys_of(c)
                },
                None => *r == *old(self),
            },
    {
        let keybinding = dedup_keys(keybinding);
        match KeyBindingEnum::from_name(key) {
            Some(b) => match b {
                KeyBindingEnum::Accept => self.accept = keybinding,
                KeyBindingEnum::ChangeCardStatusToActive => self.change_card_status_to_active = keybinding,
                KeyBindingEnum::ChangeCardStatusToCompleted => self.change_card_status_to_completed = keybinding,
                KeyBindingEnum::ChangeCardStatusToStale => self.change_card_status_to_stale = keybinding,
                KeyBindingEnum::ChangeCardPriorityToHigh => self.change_card_priority_to_high = keybinding,
                KeyBindingEnum::ChangeCardPriorityToMedium => self.change_card_priority_to_medium = keybinding,
                KeyBindingEnum::ChangeCardPriorityToLow => self.change_card_priority_to_low = keybinding,
                KeyBindingEnum::ClearAllToasts => self.clear_all_toasts = keybinding,
                KeyBindingEnum::DeleteBoard => self.delete_board = keybinding,
                KeyBindingEnum::DeleteCard => self.delete_card = keybinding,
                KeyBindingEnum::Down => self.down = keybinding,
                KeyBindingEnum::GoToMainMenu => self.go_to_main_menu = keybinding,
                KeyBindingEnum::GoToPreviousUIModeorCancel => self.go_to_previous_ui_mode_or_cancel = keybinding,
                KeyBindingEnum::HideUiElement => self.hide_ui_element = keybinding,
                KeyBindingEnum::Left => self.left = keybinding,
                KeyBindingEnum::MoveCardDown => self.move_card_down = keybinding,
                KeyBindingEnum::MoveCardLeft => self.move_card_left = keybinding,
                KeyBindingEnum::MoveCardRight => self.move_card_right = keybinding,
                KeyBindingEnum::MoveCardUp => self.move_card_up = keybinding,
                KeyBindingEnum::NewBoard => self.new_board = keybinding,
                KeyBindingEnum::NewCard => self.new_card = keybinding,
                KeyBindingEnum::NextFocus => self.next_focus = keybinding,
                KeyBindingEnum::OpenConfigMenu => self.open_config_menu = keybinding,
                KeyBindingEnum::PrvFocus => self.prv_focus = keybinding,
                KeyBindingEnum::Quit => self.quit = keybinding,
                KeyBindingEnum::Redo => self.redo = keybinding,
                KeyBindingEnum::ResetUI => self.reset_ui = keybinding,
                KeyBindingEnum::Right => self.right = keybinding,
                KeyBindingEnum::SaveState => self.save_state = keybinding,
                KeyBindingEnum::StopUserInput => self.stop_user_input = keybinding,
                KeyBindingEnum::TakeUserInput => self.take_user_input = keybinding,
                KeyBindingEnum::ToggleCommandPalette => self.toggle_command_palette = keybinding,
                KeyBindingEnum::Undo => self.undo = keybinding,
                KeyBindingEnum::Up => self.up = keybinding,
            },
            None => {},
        }
        self
    }

    /// The earliest binding name of `k` is the one that `resolve` picks.
    proof fn lemma_first_binding_unique(self, b: KeyBindingEnum, k: Key)
        requires
            self.is_first_binding(b, k),
        ensures
            self.resolve(k) == Some(b),
    {
        let c = choose|c: KeyBindingEnum| self.is_first_binding(c, k);
        lemma_binding_order(b);
        lemma_binding_order(c);
    }
}

/// A key of the default table belongs to the binding name that
/// `default_binding_of` gives for it.
proof fn lemma_default_binding_of(b: KeyBindingEnum, k: Key)
    requires
        default_keys(b).contains(k),
    ensures
        default_binding_of(k) == Some(b),
{
    let i = choose|i: int| 0 <= i < default_keys(b).len() && default_keys(b)[i] == k;
    assert(default_keys(b)[i] == k);
}

/// In the default table every binding name has at least one key, and a press
/// of any key that it binds selects the binding name the key is bound to.
pub proof fn lemma_default_table(kb: KeyBindings)
    requires
        forall|b: KeyBindingEnum| #[trigger] kb.keys_of(b) == default_keys(b),
    ensures
        forall|b: KeyBindingEnum| #[trigger] kb.keys_of(b).len() >= 1,
        forall|b: KeyBindingEnum, k: Key| #[trigger] kb.binds(b, k) ==> kb.resolve(k) == Some(b),
{
    assert forall|b: KeyBindingEnum| #[trigger] kb.keys_of(b).len() >= 1 by {
        assert(kb.keys_of(b) == default_keys(b));
    }
    assert forall|b: KeyBindingEnum, k: Key| #[trigger] kb.binds(b, k) implies kb.resolve(k)
        == Some(b) by {
        assert(kb.keys_of(b) == default_keys(b));
        lemma_default_binding_of(b, k);
        assert forall|c: KeyBindingEnum| ordinal(c) < ordinal(b) implies !kb.binds(c, k) by {
            if kb.binds(c, k) {
                assert(kb.keys_of(c) == default_keys(c));
                lemma_default_binding_of(c, k);
            }
        }
        kb.lemma_first_binding_unique(b, k);
    }
}

/// Dropping repeated keys leaves a list without repeats that holds the same
/// keys, ordered by where each first occurs: a key listed before another
/// occurs in the input before every occurrence of the other.
pub proof fn lemma_dedup_first_occurrences(s: Seq<Key>)
    ensures
        s.remove_duplicates(Seq::empty()).no_duplicates(),
        forall|k: Key| #[trigger] s.remove_duplicates(Seq::empty()).contains(k) <==> s.contains(k),
        forall|i: int, j: int, q: int|
            #![trigger s.remove_duplicates(Seq::empty())[i], s.remove_duplicates(Seq::empty())[j], s[q]]
            0 <= i < j < s.remove_duplicates(Seq::empty()).len() && 0 <= q < s.len() && s[q]
                == s.remove_duplicates(Seq::empty())[j] ==> s.take(q).contains(
                s.remove_duplicates(Seq::empty())[i],
            ),
    decreases s.len(),
{
    let e = Seq::<Key>::empty();
    if s.len() == 0 {
        assert(s.remove_duplicates(e) == e);
    } else {
        let p = s.drop_last();
        let x = s.last();
        assert(s =~= p + seq![x]);
        assert(p + e =~= p);
        lemma_dedup_first_occurrences(p);
        p.lemma_remove_duplicates_append(x, e);
        let dp = p.remove_duplicates(e);
        let d = s.remove_duplicates(e);
        assert forall|q: int| 0 <= q <= p.len() implies #[trigger] s.take(q) == p.take(q) by {
            assert(s.take(q) =~= p.take(q));
        }
        if p.contains(x) {
            assert(d == dp);
            let w = choose|w: int| 0 <= w < p.len() && p[w] == x;
            assert forall|i: int, j: int, q: int|
                #![trigger d[i], d[j], s[q]]
                0 <= i < j < d.len() && 0 <= q < s.len() && s[q] == d[j] implies s.take(q).contains(
                d[i],
            ) by {
                if q < p.len() {
                    assert(s[q] == p[q]);
                    assert(p.take(q).contains(dp[i]));
                } else {
                    assert(p[w] == dp[j]);
                    assert(p.take(w).contains(dp[i]));
                    let v = choose|v: int| 0 <= v < p.take(w).len() && p.take(w)[v] == dp[i];
                    assert(s.take(q)[v] == dp[i]);
                }
            }
        } else {
            assert(d == dp + seq![x]);
            assert forall|k: Key| #[trigger] d.contains(k) <==> s.contains(k) by {
                if d.contains(k) {
                    let v = choose|v: int| 0 <= v < d.len() && d[v] == k;
                    if v < dp.len() {
                        assert(dp[v] == k);
                        assert(dp.contains(k));
                        assert(p.contains(k));
                        let u = choose|u: int| 0 <= u < p.len() && p[u] == k;
                        assert(s[u] == k);
                    } else {
                        assert(s[p.len() as int] == k);
                    }
                }
                if s.contains(k) {
                    let v = choose|v: int| 0 <= v < s.len() && s[v] == k;
                    if v < p.len() {
                        assert(p[v] == k);
                        assert(dp.contains(k));
                        let u = choose|u: int| 0 <= u < dp.len() && dp[u] == k;
                        assert(d[u] == k);
                    } else {
                        assert(d[dp.len() as int] == k);
                    }
                }
            }
            assert forall|a: int, b: int| 0 <= a < d.len() && 0 <= b < d.len() && a != b implies d[a]
                != d[b] by {
                if a < dp.len() && b < dp.len() {
                } else if a < dp.len() {
                    assert(dp.contains(d[a]));
                } else if b < dp.len() {
                    assert(dp.contains(d[b]));
                }
            }
            assert forall|i: int, j: int, q: int|
                #![trigger d[i], d[j], s[q]]
                0 <= i < j < d.len() && 0 <= q < s.len() && s[q] == d[j] implies s.take(q).contains(
                d[i],
            ) by {
                if j < dp.len() {
                    if q < p.len() {
                        assert(s[q] == p[q]);
                        assert(p.take(q).contains(dp[i]));
                    } else {
                        assert(dp.contains(dp[j]));
                    }
                } else {
                    if q < p.len() {
                        assert(p[q] == x);
                    }
                    assert(dp.contains(dp[i]));
                    let u = choose|u: int| 0 <= u < p.len() && p[u] == dp[i];
                    assert(s.take(q)[u] == dp[i]);
                }
            }
        }
    }
}

impl Default for KeyBindings {
    fn default() -> (r: KeyBindings)
        ensures
            forall|b: KeyBindingEnum| #[trigger] r.keys_of(b) == default_keys(b),
    {
        let r = KeyBindings {
            accept: vec![Key::Enter],
            change_card_status_to_active: vec![Key::Char('2')],
            change_card_status_to_completed: vec![Key::Char('1')],
            change_card_status_to_stale: vec![Key::Char('3')],
            change_card_priority_to_high: vec![Key::Char('4')],
            change_card_priority_to_medium: vec![Key::Char('5')],
            change_card_priority_to_low: vec![Key::Char('6')],
            clear_all_toasts: vec![Key::Char('t')],
            delete_board: vec![Key::Char('D')],
            delete_card: vec![Key::Char('d'), Key::Delete],
            down: vec![Key::Down],
            go_to_main_menu: vec![Key::Char('m')],
            go_to_previous_ui_mode_or_cancel: vec![Key::Esc],
            hide_ui_element: vec![Key::Char('h')],
            left: vec![Key::Left],
            move_card_down: vec![Key::ShiftDown],
            move_card_left: vec![Key::ShiftLeft],
            move_card_right: vec![Key::ShiftRight],
            move_card_up: vec![Key::ShiftUp],
            new_board: vec![Key::Char('b')],
            new_card: vec![Key::Char('n')],
            next_focus: vec![Key::Tab],
            open_config_menu: vec![Key::Char('c')],
            prv_focus: vec![Key::BackTab],
            quit: vec![Key::Ctrl('c'), Key::Char('q')],
            redo: vec![Key::Ctrl('y')],
            reset_ui: vec![Key::Char('r')],
            right: vec![Key::Right],
            save_state: vec![Key::Ctrl('s')],
            stop_user_input: vec![Key::Ins],
            take_user_input: vec![Key::Char('i')],
            toggle_command_palette: vec![Key::Ctrl('p')],
            undo: vec![Key::Ctrl('z')],
            up: vec![Key::Up],
        };
        assert forall|b: KeyBindingEnum| #[trigger] r.keys_of(b) == default_keys(b) by {
            assert(r.keys_of(b) =~= default_keys(b));
        }
        r
    }
}

} // verus!
