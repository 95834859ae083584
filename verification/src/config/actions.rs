use vstd::prelude::*;
use crate::text::{char_is_uppercase, is_upper, push_char};

verus! {

/// Something the user can ask of the application, by key binding or from
/// the command palette.
#[derive(Debug, PartialEq)]
pub enum TerminalAction {
    NoAction,
    CloseTabSpecific(usize),
    Write(String),

    OpenSettings,
    OpenPluginMenu,
    ToggleCommandPalette,
    OpenDevTools,

    PasteText,
    CopyText,
    ClearBuffer,

    NewTab,
    CloseTab,
    NextTab,
    PreviousTab,
    CloseOtherTabs,

    Quit,

    ScrollUp,
    ScrollUpPage,
    ScrollDown,
    ScrollDownPage,
    ScrollToBottom,
    ScrollToTop,
}

/// `text` with a space put before every upper-case character but the first.
pub open spec fn spaced(text: Seq<char>) -> Seq<char>
    decreases text.len(),
{
    if text.len() == 0 {
        Seq::empty()
    } else if text.len() > 1 && is_upper(text.last()) {
        spaced(text.drop_last()) + seq![' ', text.last()]
    } else {
        spaced(text.drop_last()).push(text.last())
    }
}

/// Puts a space before every upper-case character of `text` but the first,
/// so that `CloseOtherTabs` reads `Close Other Tabs`.
fn insert_spaces(text: &str) -> (r: String)
    ensures
        r@ == spaced(text@),
{
    let mut new_text = String::new();
    let n = text.unicode_len();
    let mut i: usize = 0;
    while i < n
        invariant
            i <= n,
            n == text@.len(),
            new_text@ == spaced(text@.take(i as int)),
        decreases n - i,
    {
        let c = text.get_char(i);
        assert(text@.take(i + 1).drop_last() =~= text@.take(i as int));
        if char_is_uppercase(c) && i != 0 {
            push_char(&mut new_text, ' ');
        }
        push_char(&mut new_text, c);
        assert(new_text@ =~= spaced(text@.take(i + 1)));
        i = i + 1;
    }
    assert(text@.take(n as int) =~= text@);
    new_text
}

impl Clone for TerminalAction {
    fn clone(&self) -> (r: Self)
        ensures
            r == *self,
    {
        match self {
            TerminalAction::NoAction => TerminalAction::NoAction,
            TerminalAction::CloseTabSpecific(n) => TerminalAction::CloseTabSpecific(*n),
            TerminalAction::Write(s) => TerminalAction::Write(s.clone()),
            TerminalAction::OpenSettings => TerminalAction::OpenSettings,
            TerminalAction::OpenPluginMenu => TerminalAction::OpenPluginMenu,
            TerminalAction::ToggleCommandPalette => TerminalAction::ToggleCommandPalette,
            TerminalAction::OpenDevTools => TerminalAction::OpenDevTools,
            TerminalAction::PasteText => TerminalAction::PasteText,
            TerminalAction::CopyText => TerminalAction::CopyText,
            TerminalAction::ClearBuffer => TerminalAction::ClearBuffer,
            TerminalAction::NewTab => TerminalAction::NewTab,
            TerminalAction::CloseTab => TerminalAction::CloseTab,
            TerminalAction::NextTab => TerminalAction::NextTab,
            TerminalAction::PreviousTab => TerminalAction::PreviousTab,
            TerminalAction::CloseOtherTabs => TerminalAction::CloseOtherTabs,
            TerminalAction::Quit => TerminalAction::Quit,
            TerminalAction::ScrollUp => TerminalAction::ScrollUp,
            TerminalAction::ScrollUpPage => TerminalAction::ScrollUpPage,
            TerminalAction::ScrollDown => TerminalAction::ScrollDown,
            TerminalAction::ScrollDownPage => TerminalAction::ScrollDownPage,
            TerminalAction::ScrollToBottom => TerminalAction::ScrollToBottom,
            TerminalAction::ScrollToTop => TerminalAction::ScrollToTop,
        }
    }
}

impl TerminalAction {
    /// The name of the variant.
    pub open spec fn spec_name(&self) -> Seq<char> {
        match *self {
            TerminalAction::NoAction => "NoAction"@,
            TerminalAction::CloseTabSpecific(_) => "CloseTabSpecific"@,
            TerminalAction::Write(_) => "Write"@,
            TerminalAction::OpenSettings => "OpenSettings"@,
            TerminalAction::OpenPluginMenu => "OpenPluginMenu"@,
            TerminalAction::ToggleCommandPalette => "ToggleCommandPalette"@,
            TerminalAction::OpenDevTools => "OpenDevTools"@,
            TerminalAction::PasteText => "PasteText"@,
            TerminalAction::CopyText => "CopyText"@,
            TerminalAction::ClearBuffer => "ClearBuffer"@,
            TerminalAction::NewTab => "NewTab"@,
            TerminalAction::CloseTab => "CloseTab"@,
            TerminalAction::NextTab => "NextTab"@,
            TerminalAction::PreviousTab => "PreviousTab"@,
            TerminalAction::CloseOtherTabs => "CloseOtherTabs"@,
            TerminalAction::Quit => "Quit"@,
            TerminalAction::ScrollUp => "ScrollUp"@,
            TerminalAction::ScrollUpPage => "ScrollUpPage"@,
            TerminalAction::ScrollDown => "ScrollDown"@,
            TerminalAction::ScrollDownPage => "ScrollDownPage"@,
            TerminalAction::ScrollToBottom => "ScrollToBottom"@,
            TerminalAction::ScrollToTop => "ScrollToTop"@,
        }
    }

    /// The name of the variant, as `AsRef<str>` gives it.
    pub fn as_ref(&self) -> (s: &'static str)
        ensures
            s@ == self.spec_name(),
    {
        match self {
            TerminalAction::NoAction => "NoAction",
            TerminalAction::CloseTabSpecific(_) => "CloseTabSpecific",
            TerminalAction::Write(_) => "Write",
            TerminalAction::OpenSettings => "OpenSettings",
            TerminalAction::OpenPluginMenu => "OpenPluginMenu",
            TerminalAction::ToggleCommandPalette => "ToggleCommandPalette",
            TerminalAction::OpenDevTools => "OpenDevTools",
            TerminalAction::PasteText => "PasteText",
            TerminalAction::CopyText => "CopyText",
            TerminalAction::ClearBuffer => "ClearBuffer",
            TerminalAction::NewTab => "NewTab",
            TerminalAction::CloseTab => "CloseTab",
            TerminalAction::NextTab => "NextTab",
            TerminalAction::PreviousTab => "PreviousTab",
            TerminalAction::CloseOtherTabs => "CloseOtherTabs",
            TerminalAction::Quit => "Quit",
            TerminalAction::ScrollUp => "ScrollUp",
            TerminalAction::ScrollUpPage => "ScrollUpPage",
            TerminalAction::ScrollDown => "ScrollDown",
            TerminalAction::ScrollDownPage => "ScrollDownPage",
            TerminalAction::ScrollToBottom => "ScrollToBottom",
            TerminalAction::ScrollToTop => "ScrollToTop",
        }
    }

    /// The names of all the variants, in declaration order.
    pub open spec fn spec_variants() -> Seq<Seq<char>> {
        seq![
            "NoAction"@, "CloseTabSpecific"@, "Write"@, "OpenSettings"@, "OpenPluginMenu"@,
            "ToggleCommandPalette"@, "OpenDevTools"@, "PasteText"@, "CopyText"@, "ClearBuffer"@,
            "NewTab"@, "CloseTab"@, "NextTab"@, "PreviousTab"@, "CloseOtherTabs"@, "Quit"@,
            "ScrollUp"@, "ScrollUpPage"@, "ScrollDown"@, "ScrollDownPage"@, "ScrollToBottom"@,
            "ScrollToTop"@,
        ]
    }

    /// The names of all the variants, in declaration order (strum's `VARIANTS`).
    pub fn variants() -> (v: Vec<&'static str>)
        ensures
            v@.len() == Self::spec_variants().len(),
            forall|i: int| 0 <= i < v@.len() ==> #[trigger] v@[i]@ == Self::spec_variants()[i],
    {
        vec![
            "NoAction", "CloseTabSpecific", "Write", "OpenSettings", "OpenPluginMenu",
            "ToggleCommandPalette", "OpenDevTools", "PasteText", "CopyText", "ClearBuffer",
            "NewTab", "CloseTab", "NextTab", "PreviousTab", "CloseOtherTabs", "Quit",
            "ScrollUp", "ScrollUpPage", "ScrollDown", "ScrollDownPage", "ScrollToBottom",
            "ScrollToTop",
        ]
    }

    /// The actions offered by the command palette, in the order shown.
    pub open spec fn spec_palette_usable() -> Seq<TerminalAction> {
        seq![
            TerminalAction::OpenSettings,
            TerminalAction::ToggleCommandPalette,
            TerminalAction::OpenDevTools,
            TerminalAction::PasteText,
            TerminalAction::CopyText,
            TerminalAction::ClearBuffer,
            TerminalAction::NewTab,
            TerminalAction::CloseTab,
            TerminalAction::NextTab,
            TerminalAction::PreviousTab,
            TerminalAction::CloseOtherTabs,
            TerminalAction::Quit,
            TerminalAction::ScrollUp,
            TerminalAction::ScrollUpPage,
            TerminalAction::ScrollDown,
            TerminalAction::ScrollDownPage,
            TerminalAction::ScrollToBottom,
            TerminalAction::ScrollToTop,
        ]
    }

    pub fn palette_usable() -> (v: Vec<TerminalAction>)
        ensures
            v@ == Self::spec_palette_usable(),
    {
        let v = vec![
            TerminalAction::OpenSettings,
            TerminalAction::ToggleCommandPalette,
            TerminalAction::OpenDevTools,
            TerminalAction::PasteText,
            TerminalAction::CopyText,
            TerminalAction::ClearBuffer,
            TerminalAction::NewTab,
            TerminalAction::CloseTab,
            TerminalAction::NextTab,
            TerminalAction::PreviousTab,
            TerminalAction::CloseOtherTabs,
            TerminalAction::Quit,
            TerminalAction::ScrollUp,
            TerminalAction::ScrollUpPage,
            TerminalAction::ScrollDown,
            TerminalAction::ScrollDownPage,
            TerminalAction::ScrollToBottom,
            TerminalAction::ScrollToTop,
        ];
        assert(v@ =~= Self::spec_palette_usable());
        v
    }

    /// A human-readable form of the variant name: `NewTab` reads `New Tab`.
    pub fn readable(&self) -> (s: String)
        ensures
            s@ == spaced(self.spec_name()),
    {
        insert_spaces(self.as_ref())
    }
}

} // verus!
