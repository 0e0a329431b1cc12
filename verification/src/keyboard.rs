//! Inline keyboards as plain values: rows of buttons that either send data
//! back to the bot or open a URL.

use vstd::prelude::*;

verus! {

/// What pressing a button does.
#[derive(Debug, PartialEq, Eq)]
pub enum ButtonAction {
    /// Sends this data back to the bot.
    Callback(String),
    /// Opens this URL.
    Url(String),
}

/// A button's action as a value.
pub enum ButtonActionView {
    Callback(Seq<char>),
    Url(Seq<char>),
}

/// An inline-keyboard button.
#[derive(Debug, PartialEq, Eq)]
pub struct Button {
    pub text: String,
    pub action: ButtonAction,
}

/// A button as a value.
pub struct ButtonView {
    pub text: Seq<char>,
    pub action: ButtonActionView,
}

impl View for Button {
    type V = ButtonView;

    open spec fn view(&self) -> ButtonView {
        ButtonView {
            text: self.text@,
            action: match &self.action {
                ButtonAction::Callback(d) => ButtonActionView::Callback(d@),
                ButtonAction::Url(u) => ButtonActionView::Url(u@),
            },
        }
    }
}

/// A button that sends `data` back, as a value.
pub open spec fn cb(text: Seq<char>, data: Seq<char>) -> ButtonView {
    ButtonView { text, action: ButtonActionView::Callback(data) }
}

/// A row of buttons as values.
pub open spec fn row_view(row: Seq<Button>) -> Seq<ButtonView> {
    row.map_values(|b: Button| b@)
}

/// A keyboard as values.
pub open spec fn keyboard_view(k: Seq<Vec<Button>>) -> Seq<Seq<ButtonView>> {
    k.map_values(|row: Vec<Button>| row_view(row@))
}

/// A button that sends `data` back.
pub fn callback_button(text: &str, data: String) -> (res: Button)
    ensures
        res@ == cb(text@, data@),
{
    Button { text: String::from_str(text), action: ButtonAction::Callback(data) }
}

/// A button that opens `url`.
pub fn url_button(text: &str, url: String) -> (res: Button)
    ensures
        res@ == (ButtonView { text: text@, action: ButtonActionView::Url(url@) }),
{
    Button { text: String::from_str(text), action: ButtonAction::Url(url) }
}

} // verus!
