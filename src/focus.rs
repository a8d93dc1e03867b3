use vstd::prelude::*;

verus! {

/// A region of a screen that can receive key input.
#[derive(Clone, Copy, Debug, PartialEq, Eq, Structural)]
pub enum Focus {
    Body,
    CardComments,
    CardDescription,
    CardDueDate,
    CardName,
    CardPriority,
    CardStatus,
    CardTags,
    ChangeCardPriorityPopup,
    ChangeCardStatusPopup,
    ChangeDateFormatPopup,
    ChangeUiModePopup,
    CloseButton,
    CommandPaletteBoard,
    CommandPaletteCard,
    CommandPaletteCommand,
    ConfigHelp,
    ConfigTable,
    ConfirmPasswordField,
    EditGeneralConfigPopup,
    EditKeybindingsTable,
    EditSpecificKeyBindingPopup,
    EmailIDField,
    /// Used where defining a dedicated focus is not necessary.
    ExtraFocus,
    FilterByTagPopup,
    Help,
    LoadSave,
    Log,
    MainMenu,
    NewBoardDescription,
    NewBoardName,
    NoFocus,
    PasswordField,
    ResetPasswordLinkField,
    SelectDefaultView,
    SendResetPasswordLinkButton,
    StyleEditorBG,
    StyleEditorFG,
    StyleEditorModifier,
    SubmitButton,
    TextInput,
    ThemeEditor,
    ThemeSelector,
    Title,
}

impl Default for Focus {
    fn default() -> (r: Focus)
        ensures
            r == Focus::NoFocus,
    {
        Focus::NoFocus
    }
}

/// The entry after `f` in `tabs`, wrapping from the last to the first; the
/// first entry when `f` is not in `tabs`. A repeated `f` counts at its first
/// position.
pub open spec fn following(tabs: Seq<Focus>, f: Focus) -> Focus {
    match tabs.index_of_first(f) {
        Some(i) => if i == tabs.len() - 1 {
            tabs[0]
        } else {
            tabs[i + 1]
        },
        None => tabs[0],
    }
}

/// The entry before `f` in `tabs`, wrapping from the first to the last; the
/// first entry when `f` is not in `tabs`. A repeated `f` counts at its first
/// position.
pub open spec fn preceding(tabs: Seq<Focus>, f: Focus) -> Focus {
    match tabs.index_of_first(f) {
        Some(i) => if i == 0 {
            tabs[tabs.len() - 1]
        } else {
            tabs[i - 1]
        },
        None => tabs[0],
    }
}

/// Finds the first position of `f` in `tabs`.
fn position(tabs: &[Focus], f: Focus) -> (r: Option<usize>)
    ensures
        match r {
            Some(i) => i < tabs@.len() && tabs@.index_of_first(f) == Some(i as int),
            None => tabs@.index_of_first(f) is None,
        },
{
    let mut i: usize = 0;
    while i < tabs.len()
        invariant
            i <= tabs@.len(),
            forall|j: int| 0 <= j < i ==> tabs@[j] != f,
        decreases tabs@.len() - i,
    {
        if tabs[i] == f {
            assert(tabs@[i as int] == f);
            assert(tabs@.contains(f));
            proof {
                tabs@.index_of_first_ensures(f);
            }
            return Some(i);
        }
        i = i + 1;
    }
    proof {
        tabs@.index_of_first_ensures(f);
    }
    None
}

impl Focus {
    /// The focus that follows this one in `available_tabs`, cyclically.
    pub fn next(&self, available_tabs: &[Focus]) -> (r: Focus)
        requires
            available_tabs@.len() > 0,
        ensures
            r == following(available_tabs@, *self),
    {
        match position(available_tabs, *self) {
            Some(index) => if index == available_tabs.len() - 1 {
                available_tabs[0]
            } else {
                available_tabs[index + 1]
            },
            None => available_tabs[0],
        }
    }

    /// The focus that precedes this one in `available_tabs`, cyclically.
    pub fn prev(&self, available_tabs: &[Focus]) -> (r: Focus)
        requires
            available_tabs@.len() > 0,
        ensures
            r == preceding(available_tabs@, *self),
    {
        match position(available_tabs, *self) {
            Some(index) => if index == 0 {
                available_tabs[available_tabs.len() - 1]
            } else {
                available_tabs[index - 1]
            },
            None => available_tabs[0],
        }
    }
}

/// On a list without repeated entries, stepping forward and then back returns
/// to the starting focus when that focus is in the list.
pub proof fn lemma_next_then_prev(tabs: Seq<Focus>, f: Focus)
    requires
        tabs.len() > 0,
        tabs.no_duplicates(),
        tabs.contains(f),
    ensures
        preceding(tabs, following(tabs, f)) == f,
{
    tabs.index_of_first_ensures(f);
    let i = tabs.index_of_first(f).unwrap();
    let j: int = if i == tabs.len() - 1 { 0 } else { i + 1 };
    let g = tabs[j];
    tabs.index_of_first_ensures(g);
    assert(tabs.index_of_first(g) == Some(j));
}

/// A focus that is not in the list steps to the list's first entry, in either
/// direction.
pub proof fn lemma_absent_focus_goes_first(tabs: Seq<Focus>, f: Focus)
    requires
        tabs.len() > 0,
        !tabs.contains(f),
    ensures
        following(tabs, f) == tabs[0],
        preceding(tabs, f) == tabs[0],
{
    tabs.index_of_first_ensures(f);
}

} // verus!
