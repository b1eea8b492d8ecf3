//! The texts of the dialog that asks before the program quits.

use vstd::prelude::*;

verus! {

/// The title and the question of the quit dialog.
#[derive(Debug, Clone, Copy, PartialEq, Eq)]
pub struct QuitHandler {
    text: &'static str,
    title: &'static str,
}

/// The mathematical value of a [`QuitHandler`].
pub struct QuitHandlerView {
    pub title: Seq<char>,
    pub text: Seq<char>,
}

impl View for QuitHandler {
    type V = QuitHandlerView;

    closed spec fn view(&self) -> QuitHandlerView {
        QuitHandlerView { title: self.title@, text: self.text@ }
    }
}

impl Default for QuitHandler {
    /// The dialog titled `Quit` that asks `Are you sure you want to quit?`.
    fn default() -> (handler: Self)
        ensures
            handler@ == (QuitHandlerView {
                title: "Quit"@,
                text: "Are you sure you want to quit?"@,
            }),
    {
        QuitHandler { text: "Are you sure you want to quit?", title: "Quit" }
    }
}

impl QuitHandler {
    /// A dialog with the given title and question.
    pub fn new(title: &'static str, text: &'static str) -> (handler: Self)
        ensures
            handler@ == (QuitHandlerView { title: title@, text: text@ }),
    {
        QuitHandler { title, text }
    }

    /// The title of the dialog.
    pub fn title(&self) -> (title: &'static str)
        ensures
            title@ == self@.title,
    {
        self.title
    }

    /// The question that the dialog asks.
    pub fn text(&self) -> (text: &'static str)
        ensures
            text@ == self@.text,
    {
        self.text
    }
}

} // verus!
