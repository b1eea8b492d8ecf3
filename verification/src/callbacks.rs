//! What the callbacks of the list decide.

use vstd::prelude::*;
use vstd::string::StringExecFns;
use cursive::views::SelectView;
use crate::date::{read_date, PurchaseDate};
use crate::item::Item;
use crate::staging::{selected_id, staged};
use crate::text::{blank, input_text, is_blank};

verus! {

/// What selecting a row asks of the user.
#[derive(Debug, Clone, Copy, PartialEq, Eq, Structural)]
pub enum DeletePrompt {
    /// No row is selected: there is nothing to remove.
    NothingToRemove,
    /// The row at this position is selected: the user is asked to confirm
    /// its removal.
    Confirm(usize),
}

/// What a selection asks of the user.
pub open spec fn delete_prompt(selected: Option<usize>) -> DeletePrompt {
    match selected {
        None => DeletePrompt::NothingToRemove,
        Some(index) => DeletePrompt::Confirm(index),
    }
}

impl DeletePrompt {
    /// The prompt for a selection.
    pub fn for_selection(selected: Option<usize>) -> (prompt: DeletePrompt)
        ensures
            prompt == delete_prompt(selected),
    {
        match selected {
            None => DeletePrompt::NothingToRemove,
            Some(index) => DeletePrompt::Confirm(index),
        }
    }

    /// The sentence shown to the user.
    pub fn message(&self) -> (text: &'static str)
        ensures
            text@ == match *self {
                DeletePrompt::NothingToRemove => "Nothing to remove!"@,
                DeletePrompt::Confirm(_) => "Remove item from list?"@,
            },
    {
        match self {
            DeletePrompt::NothingToRemove => "Nothing to remove!",
            DeletePrompt::Confirm(_) => "Remove item from list?",
        }
    }
}

/// The callback of a row: asks the user to confirm the removal of the
/// selected row, or says that there is nothing to remove where the list is
/// empty. The list is only read; the removal itself is
/// [`crate::staging::remove_at`].
pub fn delete_item(list: &SelectView<Item>) -> (prompt: DeletePrompt)
    ensures
        prompt == DeletePrompt::NothingToRemove <==> staged(*list).len() == 0,
{
    DeletePrompt::for_selection(selected_id(list))
}

/// Why the short entry form, which asks for name, price and purchase date
/// only, turns an entry down.
#[derive(Debug, Clone, Copy, PartialEq, Eq, Structural)]
pub enum RowRejection {
    /// An input view was not found, or is empty.
    Unfilled,
    /// An input holds spaces only.
    Blank,
    /// The purchase date is no date of the format `YYYY/MM/DD`.
    DateFormat,
}

impl RowRejection {
    /// The sentence shown to the user.
    pub fn message(&self) -> (text: &'static str)
        ensures
            text@ == match *self {
                RowRejection::Unfilled => "All input fields must be filled"@,
                RowRejection::Blank => "No bogus please"@,
                RowRejection::DateFormat =>
                    "Date provided is not the correct format. Use YYYY/MM/DD"@,
            },
    {
        match self {
            RowRejection::Unfilled => "All input fields must be filled",
            RowRejection::Blank => "No bogus please",
            RowRejection::DateFormat => "Date provided is not the correct format. Use YYYY/MM/DD",
        }
    }
}

/// Whether an input was found and holds at least one character.
pub open spec fn filled(content: Option<Seq<char>>) -> bool {
    content is Some && content->0.len() > 0
}

/// What the short entry form makes of its three inputs: the row to show,
/// which is the three texts with a bar between each two, or the first reason
/// to turn the entry down.
pub open spec fn short_entry(
    name: Option<Seq<char>>,
    price: Option<Seq<char>>,
    purchase_date: Option<Seq<char>>,
) -> Result<Seq<char>, RowRejection> {
    if !filled(name) || !filled(price) || !filled(purchase_date) {
        Err(RowRejection::Unfilled)
    } else if blank(name->0) || blank(price->0) || blank(purchase_date->0) {
        Err(RowRejection::Blank)
    } else if read_date(purchase_date->0) is Err {
        Err(RowRejection::DateFormat)
    } else {
        Ok(name->0 + " | "@ + price->0 + " | "@ + purchase_date->0)
    }
}

/// Hands back the text of an input that is filled.
fn filled_text(content: Option<String>) -> (text: Option<String>)
    ensures
        text is Some <==> filled(input_text(content)),
        text is Some ==> input_text(content) == Some(text->0@),
{
    match content {
        None => None,
        Some(text) => {
            if text.as_str().is_empty() {
                None
            } else {
                Some(text)
            }
        },
    }
}

/// The `Add` button of the short entry form: checks name, price and
/// purchase date and returns the row to show in the list, or the reason to
/// turn the entry down. Each argument is the text of one input view, or
/// nothing where the screen has no such view.
pub fn add_button_cb(
    name: Option<String>,
    price: Option<String>,
    purchase_date: Option<String>,
) -> (row: Result<String, RowRejection>)
    ensures
        match row {
            Ok(line) => short_entry(
                input_text(name),
                input_text(price),
                input_text(purchase_date),
            ) == Ok::<Seq<char>, RowRejection>(line@),
            Err(reason) => short_entry(
                input_text(name),
                input_text(price),
                input_text(purchase_date),
            ) == Err::<Seq<char>, RowRejection>(reason),
        },
{
    let name = filled_text(name);
    let price = filled_text(price);
    let purchase_date = filled_text(purchase_date);
    match (name, price, purchase_date) {
        (Some(name), Some(price), Some(purchase_date)) => {
            if is_blank(name.as_str()) || is_blank(price.as_str()) || is_blank(
                purchase_date.as_str(),
            ) {
                return Err(RowRejection::Blank);
            }
            match PurchaseDate::parse(purchase_date.as_str()) {
                Ok(_) => {},
                Err(_) => {
                    return Err(RowRejection::DateFormat);
                },
            }
            let mut line = name;
            line.append(" | ");
            line.append(price.as_str());
            line.append(" | ");
            line.append(purchase_date.as_str());
            Ok(line)
        },
        _ => Err(RowRejection::Unfilled),
    }
}

} // verus!
