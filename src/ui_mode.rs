use vstd::prelude::*;
use vstd::string::StringExecFns;

use crate::focus::Focus;
use crate::text::str_eq;

verus! {

/// A screen of the application.
#[derive(Clone, Copy, Debug, PartialEq, Eq, Structural)]
pub enum UiMode {
    BodyHelp,
    BodyHelpLog,
    BodyLog,
    ConfigMenu,
    CreateTheme,
    EditKeybindings,
    HelpMenu,
    LoadCloudSave,
    LoadLocalSave,
    Login,
    LogsOnly,
    MainMenu,
    NewBoard,
    NewCard,
    ResetPassword,
    SignUp,
    TitleBody,
    TitleBodyHelp,
    TitleBodyHelpLog,
    TitleBodyLog,
    Zen,
}

impl Default for UiMode {
    fn default() -> (r: UiMode)
        ensures
            r == UiMode::Zen,
    {
        UiMode::Zen
    }
}

/// The label under which a screen is shown and stored.
pub open spec fn label(m: UiMode) -> Seq<char> {
    match m {
        UiMode::BodyHelp => "Body and Help"@,
        UiMode::BodyHelpLog => "Body, Help and Log"@,
        UiMode::BodyLog => "Body and Log"@,
        UiMode::ConfigMenu => "Config"@,
        UiMode::CreateTheme => "Create Theme"@,
        UiMode::EditKeybindings => "Edit Keybindings"@,
        UiMode::HelpMenu => "Help Menu"@,
        UiMode::LoadCloudSave => "Load a Save (Cloud)"@,
        UiMode::LoadLocalSave => "Load a Save (Local)"@,
        UiMode::Login => "Login"@,
        UiMode::LogsOnly => "Logs Only"@,
        UiMode::MainMenu => "Main Menu"@,
        UiMode::NewBoard => "New Board"@,
        UiMode::NewCard => "New Card"@,
        UiMode::ResetPassword => "Reset Password"@,
        UiMode::SignUp => "Sign Up"@,
        UiMode::TitleBody => "Title and Body"@,
        UiMode::TitleBodyHelp => "Title, Body and Help"@,
        UiMode::TitleBodyHelpLog => "Title, Body, Help and Log"@,
        UiMode::TitleBodyLog => "Title, Body and Log"@,
        UiMode::Zen => "Zen"@,
    }
}

/// The screen whose label is `s`, if any.
pub open spec fn mode_with_label(s: Seq<char>) -> Option<UiMode> {
    if exists|m: UiMode| label(m) == s {
        Some(choose|m: UiMode| label(m) == s)
    } else {
        None
    }
}

/// The focus targets of a screen, in traversal order.
pub open spec fn targets(m: UiMode) -> Seq<Focus> {
    match m {
        UiMode::BodyHelp => seq![Focus::Body, Focus::Help],
        UiMode::BodyHelpLog => seq![Focus::Body, Focus::Help, Focus::Log],
        UiMode::BodyLog => seq![Focus::Body, Focus::Log],
        UiMode::ConfigMenu => seq![Focus::ConfigTable, Focus::SubmitButton, Focus::ExtraFocus],
        UiMode::CreateTheme => seq![Focus::ThemeEditor, Focus::SubmitButton, Focus::ExtraFocus],
        UiMode::EditKeybindings => seq![Focus::EditKeybindingsTable, Focus::SubmitButton],
        UiMode::HelpMenu => seq![Focus::Help, Focus::Log],
        UiMode::LoadCloudSave => seq![Focus::Body],
        UiMode::LoadLocalSave => seq![Focus::Body],
        UiMode::Login => seq![Focus::Title, Focus::EmailIDField, Focus::PasswordField, Focus::ExtraFocus, Focus::SubmitButton],
        UiMode::LogsOnly => seq![Focus::Log],
        UiMode::MainMenu => seq![Focus::MainMenu, Focus::Help, Focus::Log],
        UiMode::NewBoard => seq![Focus::NewBoardName, Focus::NewBoardDescription, Focus::SubmitButton],
        UiMode::NewCard => seq![Focus::CardName, Focus::CardDescription, Focus::CardDueDate, Focus::SubmitButton],
        UiMode::ResetPassword => seq![Focus::Title, Focus::EmailIDField, Focus::SendResetPasswordLinkButton, Focus::ResetPasswordLinkField, Focus::PasswordField, Focus::ConfirmPasswordField, Focus::ExtraFocus, Focus::SubmitButton],
        UiMode::SignUp => seq![Focus::Title, Focus::EmailIDField, Focus::PasswordField, Focus::ConfirmPasswordField, Focus::ExtraFocus, Focus::SubmitButton],
        UiMode::TitleBody => seq![Focus::Title, Focus::Body],
        UiMode::TitleBodyHelp => seq![Focus::Title, Focus::Body, Focus::Help],
        UiMode::TitleBodyHelpLog => seq![Focus::Title, Focus::Body, Focus::Help, Focus::Log],
        UiMode::TitleBodyLog => seq![Focus::Title, Focus::Body, Focus::Log],
        UiMode::Zen => seq![Focus::Body],
    }
}

/// The board layouts, in the order in which they are cycled.
pub open spec fn view_mode_seq() -> Seq<UiMode> {
    seq![
        UiMode::Zen,
        UiMode::TitleBody,
        UiMode::BodyHelp,
        UiMode::BodyLog,
        UiMode::TitleBodyHelp,
        UiMode::TitleBodyLog,
        UiMode::BodyHelpLog,
        UiMode::TitleBodyHelpLog,
    ]
}

/// The screen chosen by a numeric shortcut: the board layouts for 1 to 8 in
/// cycling order, the full layout with title, body, help and log for 9, and the
/// title and body layout for anything else.
pub open spec fn mode_for_number(n: u8) -> UiMode {
    if 1 <= n <= 8 {
        view_mode_seq()[n - 1]
    } else if n == 9 {
        UiMode::TitleBodyHelpLog
    } else {
        UiMode::TitleBody
    }
}

/// The focus a screen takes when it becomes active: unless a popup is shown,
/// a focus that is not among the screen's targets moves to the first target.
pub open spec fn focus_after_activation(m: UiMode, current: Focus, popup_active: bool) -> Focus {
    if !popup_active && !targets(m).contains(current) && targets(m).len() > 0 {
        targets(m)[0]
    } else {
        current
    }
}

/// No two screens share a label.
pub proof fn lemma_label_injective(a: UiMode, b: UiMode)
    ensures
        label(a) == label(b) ==> a == b,
{
    reveal_strlit("Body and Help");
    reveal_strlit("Body, Help and Log");
    reveal_strlit("Body and Log");
    reveal_strlit("Config");
    reveal_strlit("Create Theme");
    reveal_strlit("Edit Keybindings");
    reveal_strlit("Help Menu");
    reveal_strlit("Load a Save (Cloud)");
    reveal_strlit("Load a Save (Local)");
    reveal_strlit("Login");
    reveal_strlit("Logs Only");
    reveal_strlit("Main Menu");
    reveal_strlit("New Board");
    reveal_strlit("New Card");
    reveal_strlit("Reset Password");
    reveal_strlit("Sign Up");
    reveal_strlit("Title and Body");
    reveal_strlit("Title, Body and Help");
    reveal_strlit("Title, Body, Help and Log");
    reveal_strlit("Title, Body and Log");
    reveal_strlit("Zen");
    if label(a) == label(b) {
        assert(label(a).len() == label(b).len());
        assert(label(a)[0] == label(b)[0]);
        if label(a).len() > 13 {
            assert(label(a)[13] == label(b)[13]);
        }
    }
}

/// Whether `f` is one of `tabs`.
fn contains_focus(tabs: &Vec<Focus>, f: Focus) -> (r: bool)
    ensures
        r == tabs@.contains(f),
{
    let mut i: usize = 0;
    while i < tabs.len()
        invariant
            i <= tabs@.len(),
            forall|j: int| 0 <= j < i ==> tabs@[j] != f,
        decreases tabs@.len() - i,
    {
        if tabs[i] == f {
            assert(tabs@[i as int] == f);
            return true;
        }
        i = i + 1;
    }
    false
}

impl UiMode {
    /// The label of this screen.
    pub fn label_str(&self) -> (r: &'static str)
        ensures
            r@ == label(*self),
    {
        match self {
            UiMode::BodyHelp => "Body and Help",
            UiMode::BodyHelpLog => "Body, Help and Log",
            UiMode::BodyLog => "Body and Log",
            UiMode::ConfigMenu => "Config",
            UiMode::CreateTheme => "Create Theme",
            UiMode::EditKeybindings => "Edit Keybindings",
            UiMode::HelpMenu => "Help Menu",
            UiMode::LoadCloudSave => "Load a Save (Cloud)",
            UiMode::LoadLocalSave => "Load a Save (Local)",
            UiMode::Login => "Login",
            UiMode::LogsOnly => "Logs Only",
            UiMode::MainMenu => "Main Menu",
            UiMode::NewBoard => "New Board",
            UiMode::NewCard => "New Card",
            UiMode::ResetPassword => "Reset Password",
            UiMode::SignUp => "Sign Up",
            UiMode::TitleBody => "Title and Body",
            UiMode::TitleBodyHelp => "Title, Body and Help",
            UiMode::TitleBodyHelpLog => "Title, Body, Help and Log",
            UiMode::TitleBodyLog => "Title, Body and Log",
            UiMode::Zen => "Zen",
        }
    }

    /// The label of this screen, as an owned string.
    pub fn to_string(&self) -> (r: String)
        ensures
            r@ == label(*self),
    {
        String::from_str(self.label_str())
    }

    /// The screen whose label is exactly `s`, if any.
    pub fn from_string(s: &str) -> (r: Option<UiMode>)
        ensures
            r == mode_with_label(s@),
    {
        let r = if str_eq(s, "Body and Help") {
            Some(UiMode::BodyHelp)
        } else if str_eq(s, "Body, Help and Log") {
            Some(UiMode::BodyHelpLog)
        } else if str_eq(s, "Body and Log") {
            Some(UiMode::BodyLog)
        } else if str_eq(s, "Config") {
            Some(UiMode::ConfigMenu)
        } else if str_eq(s, "Create Theme") {
            Some(UiMode::CreateTheme)
        } else if str_eq(s, "Edit Keybindings") {
            Some(UiMode::EditKeybindings)
        } else if str_eq(s, "Help Menu") {
            Some(UiMode::HelpMenu)
        } else if str_eq(s, "Load a Save (Cloud)") {
            Some(UiMode::LoadCloudSave)
        } else if str_eq(s, "Load a Save (Local)") {
            Some(UiMode::LoadLocalSave)
        } else if str_eq(s, "Login") {
            Some(UiMode::Login)
        } else if str_eq(s, "Logs Only") {
            Some(UiMode::LogsOnly)
        } else if str_eq(s, "Main Menu") {
            Some(UiMode::MainMenu)
        } else if str_eq(s, "New Board") {
            Some(UiMode::NewBoard)
        } else if str_eq(s, "New Card") {
            Some(UiMode::NewCard)
        } else if str_eq(s, "Reset Password") {
            Some(UiMode::ResetPassword)
        } else if str_eq(s, "Sign Up") {
            Some(UiMode::SignUp)
        } else if str_eq(s, "Title and Body") {
            Some(UiMode::TitleBody)
        } else if str_eq(s, "Title, Body and Help") {
            Some(UiMode::TitleBodyHelp)
        } else if str_eq(s, "Title, Body, Help and Log") {
            Some(UiMode::TitleBodyHelpLog)
        } else if str_eq(s, "Title, Body and Log") {
            Some(UiMode::TitleBodyLog)
        } else if str_eq(s, "Zen") {
            Some(UiMode::Zen)
        } else {
            None
        };
        proof {
            if let Some(m) = r {
                assert(label(m) == s@);
                let c = choose|c: UiMode| label(c) == s@;
                lemma_label_injective(m, c);
            }
        }
        r
    }

    /// The focus targets of this screen, in traversal order.
    pub fn get_available_targets(&self) -> (r: Vec<Focus>)
        ensures
            r@ == targets(*self),
    {
        let r = match self {
            UiMode::BodyHelp => vec![Focus::Body, Focus::Help],
            UiMode::BodyHelpLog => vec![Focus::Body, Focus::Help, Focus::Log],
            UiMode::BodyLog => vec![Focus::Body, Focus::Log],
            UiMode::ConfigMenu => vec![Focus::ConfigTable, Focus::SubmitButton, Focus::ExtraFocus],
            UiMode::CreateTheme => vec![Focus::ThemeEditor, Focus::SubmitButton, Focus::ExtraFocus],
            UiMode::EditKeybindings => vec![Focus::EditKeybindingsTable, Focus::SubmitButton],
            UiMode::HelpMenu => vec![Focus::Help, Focus::Log],
            UiMode::LoadCloudSave => vec![Focus::Body],
            UiMode::LoadLocalSave => vec![Focus::Body],
            UiMode::Login => vec![Focus::Title, Focus::EmailIDField, Focus::PasswordField, Focus::ExtraFocus, Focus::SubmitButton],
            UiMode::LogsOnly => vec![Focus::Log],
            UiMode::MainMenu => vec![Focus::MainMenu, Focus::Help, Focus::Log],
            UiMode::NewBoard => vec![Focus::NewBoardName, Focus::NewBoardDescription, Focus::SubmitButton],
            UiMode::NewCard => vec![Focus::CardName, Focus::CardDescription, Focus::CardDueDate, Focus::SubmitButton],
            UiMode::ResetPassword => vec![Focus::Title, Focus::EmailIDField, Focus::SendResetPasswordLinkButton, Focus::ResetPasswordLinkField, Focus::PasswordField, Focus::ConfirmPasswordField, Focus::ExtraFocus, Focus::SubmitButton],
            UiMode::SignUp => vec![Focus::Title, Focus::EmailIDField, Focus::PasswordField, Focus::ConfirmPasswordField, Focus::ExtraFocus, Focus::SubmitButton],
            UiMode::TitleBody => vec![Focus::Title, Focus::Body],
            UiMode::TitleBodyHelp => vec![Focus::Title, Focus::Body, Focus::Help],
            UiMode::TitleBodyHelpLog => vec![Focus::Title, Focus::Body, Focus::Help, Focus::Log],
            UiMode::TitleBodyLog => vec![Focus::Title, Focus::Body, Focus::Log],
            UiMode::Zen => vec![Focus::Body],
        };
        assert(r@ =~= targets(*self));
        r
    }

    /// The board layouts, in the order in which they are cycled.
    pub fn view_modes() -> (r: Vec<UiMode>)
        ensures
            r@ == view_mode_seq(),
    {
        let r = vec![
            UiMode::Zen,
            UiMode::TitleBody,
            UiMode::BodyHelp,
            UiMode::BodyLog,
            UiMode::TitleBodyHelp,
            UiMode::TitleBodyLog,
            UiMode::BodyHelpLog,
            UiMode::TitleBodyHelpLog,
        ];
        assert(r@ =~= view_mode_seq());
        r
    }

    /// The labels of the board layouts, in the order in which they are cycled.
    pub fn view_modes_as_string() -> (r: Vec<String>)
        ensures
            r@.len() == view_mode_seq().len(),
            forall|i: int| 0 <= i < r@.len() ==> #[trigger] r@[i]@ == label(view_mode_seq()[i]),
    {
        let modes = UiMode::view_modes();
        let mut r: Vec<String> = Vec::new();
        let mut i: usize = 0;
        while i < modes.len()
            invariant
                modes@ == view_mode_seq(),
                i <= modes@.len(),
                r@.len() == i,
                forall|j: int| 0 <= j < i ==> #[trigger] r@[j]@ == label(view_mode_seq()[j]),
            decreases modes@.len() - i,
        {
            r.push(modes[i].to_string());
            i = i + 1;
        }
        r
    }

    /// The focus to hold once this screen becomes active, given the focus held
    /// so far and whether a popup is shown.
    pub fn focus_on_activation(&self, current: Focus, popup_active: bool) -> (r: Focus)
        ensures
            r == focus_after_activation(*self, current, popup_active),
    {
        if !popup_active {
            let available = self.get_available_targets();
            if !contains_focus(&available, current) && available.len() > 0 {
                return available[0];
            }
        }
        current
    }

    /// The board layout for a numeric shortcut; numbers outside 1 to 9 give
    /// the title and body layout.
    pub fn from_number(n: u8) -> (r: UiMode)
        ensures
            r == mode_for_number(n),
            1 <= n <= 9 ==> view_mode_seq().contains(r),
            !(1 <= n <= 9) ==> r == UiMode::TitleBody,
    {
        let r = match n {
            1 => UiMode::Zen,
            2 => UiMode::TitleBody,
            3 => UiMode::BodyHelp,
            4 => UiMode::BodyLog,
            5 => UiMode::TitleBodyHelp,
            6 => UiMode::TitleBodyLog,
            7 => UiMode::BodyHelpLog,
            8 => UiMode::TitleBodyHelpLog,
            9 => UiMode::TitleBodyHelpLog,
            _ => UiMode::TitleBody,
        };
        proof {
            lemma_number_selects_layout(n);
        }
        r
    }
}

/// Parsing a screen's label gives that screen back.
pub proof fn lemma_label_round_trip(m: UiMode)
    ensures
        mode_with_label(label(m)) == Some(m),
{
    let c = choose|c: UiMode| label(c) == label(m);
    lemma_label_injective(m, c);
}

/// Every numeric shortcut selects a board layout: 1 to 8 select the layouts
/// in cycling order, 9 the full layout, and numbers outside 1 to 9 the title
/// and body layout.
pub proof fn lemma_number_selects_layout(n: u8)
    ensures
        view_mode_seq().contains(mode_for_number(n)),
        1 <= n <= 8 ==> mode_for_number(n) == view_mode_seq()[n - 1],
{
    if 1 <= n <= 8 {
        assert(view_mode_seq()[n - 1] == mode_for_number(n));
    } else if n == 9 {
        assert(view_mode_seq()[7] == UiMode::TitleBodyHelpLog);
    } else {
        assert(view_mode_seq()[1] == UiMode::TitleBody);
    }
}

/// Every screen has at least one focus target, and none twice.
pub proof fn lemma_targets_nonempty_distinct(m: UiMode)
    ensures
        targets(m).len() > 0,
        targets(m).no_duplicates(),
{
}

/// Unless a popup is shown, the focus after activating a screen is one of the
/// screen's targets.
pub proof fn lemma_activation_focus_valid(m: UiMode, current: Focus)
    ensures
        targets(m).contains(focus_after_activation(m, current, false)),
{
    lemma_targets_nonempty_distinct(m);
    assert(targets(m)[0] == targets(m)[0]);
}

} // verus!
