//! What the buttons of the entry form decide.
//!
//! Each function takes what was read from the screen as plain values, and
//! the staging list where it changes it, and returns what to show.

use vstd::prelude::*;
use vstd::string::StringExecFns;
use cursive::views::SelectView;
use crate::commit::{handle_commit, planned, CommitBatch};
use crate::date::{error_text, read_date, DateError};
use crate::food_item::convert;
use crate::item::{Item, ItemView};
use crate::number::{read_decimal, NumberError};
use crate::staging::{append, clear, len, row_of, rows, snapshot, staged};
use crate::text::{blank, decimal_digits, input_text, is_blank, number_text};

verus! {

/// One of the four input fields of the entry form.
#[derive(Debug, Clone, Copy, PartialEq, Eq, Structural)]
pub enum Field {
    Name,
    Price,
    Amount,
    PurchaseDate,
}

impl Field {
    /// The name under which the field's input view is found on screen.
    pub fn view_name(&self) -> (name: &'static str)
        ensures
            name@ == match *self {
                Field::Name => "product_name"@,
                Field::Price => "product_price"@,
                Field::Amount => "product_amount"@,
                Field::PurchaseDate => "product_date_of_purchase"@,
            },
    {
        match self {
            Field::Name => "product_name",
            Field::Price => "product_price",
            Field::Amount => "product_amount",
            Field::PurchaseDate => "product_date_of_purchase",
        }
    }

    /// The title shown above the field.
    pub fn title(&self) -> (title: &'static str)
        ensures
            title@ == field_title(*self),
    {
        match self {
            Field::Name => "Name",
            Field::Price => "Price",
            Field::Amount => "Amount",
            Field::PurchaseDate => "Purchase Date",
        }
    }
}

/// The title shown above a field.
pub open spec fn field_title(field: Field) -> Seq<char> {
    match field {
        Field::Name => "Name"@,
        Field::Price => "Price"@,
        Field::Amount => "Amount"@,
        Field::PurchaseDate => "Purchase Date"@,
    }
}

/// How pressing `Add` ended.
#[derive(Debug, Clone, Copy, PartialEq, Eq, Structural)]
pub enum AddOutcome {
    /// The entry passed every check and is the last row of the list now.
    Added,
    /// The screen has no list to add to.
    ListNotFound,
    /// The screen has no input view for the field.
    FieldNotFound(Field),
    /// The field is empty.
    FieldEmpty(Field),
    /// The field holds spaces only.
    FieldBlank(Field),
    /// The price is no decimal number.
    PriceInvalid(NumberError),
    /// The amount is no decimal number.
    AmountInvalid(NumberError),
    /// The purchase date is no date of the format `YYYY/MM/DD`.
    PurchaseDateInvalid(DateError),
}

/// The record that an entry stands for, once all four inputs are there.
pub open spec fn entry_record(
    name: Option<Seq<char>>,
    price: Option<Seq<char>>,
    amount: Option<Seq<char>>,
    purchase_date: Option<Seq<char>>,
) -> ItemView {
    ItemView { name: name->0, price: price->0, amount: amount->0, purchase_date: purchase_date->0 }
}

/// What stops an input before its text is looked at more closely: the view
/// was not found, or it is empty.
pub open spec fn input_gap(field: Field, content: Option<Seq<char>>) -> Option<AddOutcome> {
    match content {
        None => Some(AddOutcome::FieldNotFound(field)),
        Some(text) => if text.len() == 0 {
            Some(AddOutcome::FieldEmpty(field))
        } else {
            None
        },
    }
}

/// How an entry fares. The inputs are looked at in the order name, price,
/// amount, purchase date, three times over: first for one that is missing or
/// empty, then for one that is blank, then for one whose text does not read
/// as what the field holds. The first finding decides.
pub open spec fn entry_outcome(
    name: Option<Seq<char>>,
    price: Option<Seq<char>>,
    amount: Option<Seq<char>>,
    purchase_date: Option<Seq<char>>,
) -> AddOutcome {
    if input_gap(Field::Name, name) is Some {
        input_gap(Field::Name, name)->0
    } else if input_gap(Field::Price, price) is Some {
        input_gap(Field::Price, price)->0
    } else if input_gap(Field::Amount, amount) is Some {
        input_gap(Field::Amount, amount)->0
    } else if input_gap(Field::PurchaseDate, purchase_date) is Some {
        input_gap(Field::PurchaseDate, purchase_date)->0
    } else if blank(name->0) {
        AddOutcome::FieldBlank(Field::Name)
    } else if blank(price->0) {
        AddOutcome::FieldBlank(Field::Price)
    } else if blank(amount->0) {
        AddOutcome::FieldBlank(Field::Amount)
    } else if blank(purchase_date->0) {
        AddOutcome::FieldBlank(Field::PurchaseDate)
    } else if read_decimal(price->0) is Err {
        AddOutcome::PriceInvalid(read_decimal(price->0)->Err_0)
    } else if read_decimal(amount->0) is Err {
        AddOutcome::AmountInvalid(read_decimal(amount->0)->Err_0)
    } else if read_date(purchase_date->0) is Err {
        AddOutcome::PurchaseDateInvalid(read_date(purchase_date->0)->Err_0)
    } else {
        AddOutcome::Added
    }
}

/// The sentence that tells the user how pressing `Add` ended, where there is
/// anything to tell.
pub open spec fn outcome_message(outcome: AddOutcome) -> Option<Seq<char>> {
    match outcome {
        AddOutcome::Added => None,
        AddOutcome::ListNotFound => Some("Couldn't find a view with that name"@),
        AddOutcome::FieldNotFound(_) => Some("Couldn't find content with the given name"@),
        AddOutcome::FieldEmpty(field) => Some(field_title(field) + " cannot be empty"@),
        AddOutcome::FieldBlank(_) => Some("No bogus please"@),
        AddOutcome::PriceInvalid(_) => Some("Price field does not have a valid format"@),
        AddOutcome::AmountInvalid(_) => Some("Amount field does not have a valid format"@),
        AddOutcome::PurchaseDateInvalid(reason) => Some(
            "Purchase Date field doesn't not have a valid format:\n"@ + error_text(reason),
        ),
    }
}

impl AddOutcome {
    /// The sentence that tells the user how pressing `Add` ended. There is
    /// none where the entry was added.
    pub fn message(&self) -> (text: Option<String>)
        ensures
            input_text(text) == outcome_message(*self),
    {
        match self {
            AddOutcome::Added => None,
            AddOutcome::ListNotFound => Some("Couldn't find a view with that name".to_owned()),
            AddOutcome::FieldNotFound(_) => Some(
                "Couldn't find content with the given name".to_owned(),
            ),
            AddOutcome::FieldEmpty(field) => {
                let mut text = field.title().to_owned();
                text.append(" cannot be empty");
                Some(text)
            },
            AddOutcome::FieldBlank(_) => Some("No bogus please".to_owned()),
            AddOutcome::PriceInvalid(_) => Some(
                "Price field does not have a valid format".to_owned(),
            ),
            AddOutcome::AmountInvalid(_) => Some(
                "Amount field does not have a valid format".to_owned(),
            ),
            AddOutcome::PurchaseDateInvalid(reason) => {
                let mut text = "Purchase Date field doesn't not have a valid format:\n".to_owned();
                text.append(reason.message());
                Some(text)
            },
        }
    }
}

/// Looks at one input before its text is read: tells whether the view was
/// not found or is empty, and hands the text back otherwise.
fn take_input(field: Field, content: Option<String>) -> (taken: Result<String, AddOutcome>)
    ensures
        match taken {
            Ok(text) => input_gap(field, input_text(content)) is None && input_text(content)
                == Some(text@),
            Err(outcome) => input_gap(field, input_text(content)) == Some(outcome),
        },
{
    match content {
        None => Err(AddOutcome::FieldNotFound(field)),
        Some(text) => {
            if text.as_str().is_empty() {
                Err(AddOutcome::FieldEmpty(field))
            } else {
                Ok(text)
            }
        },
    }
}

/// The `Add` button: checks the four inputs of the entry form and, where
/// they pass, adds the entry to the staging list as its last row. Each
/// argument is the text of one input view, or nothing where the screen has no
/// such view. An entry that does not pass leaves the list as it is.
pub fn add_button(
    list: &mut SelectView<Item>,
    name: Option<String>,
    price: Option<String>,
    amount: Option<String>,
    purchase_date: Option<String>,
) -> (outcome: AddOutcome)
    ensures
        outcome == entry_outcome(
            input_text(name),
            input_text(price),
            input_text(amount),
            input_text(purchase_date),
        ),
        rows(*final(list)) == if outcome == AddOutcome::Added {
            rows(*old(list)).push(
                row_of(
                    entry_record(
                        input_text(name),
                        input_text(price),
                        input_text(amount),
                        input_text(purchase_date),
                    ),
                ),
            )
        } else {
            rows(*old(list))
        },
{
    let name = match take_input(Field::Name, name) {
        Ok(text) => text,
        Err(outcome) => {
            return outcome;
        },
    };
    let price = match take_input(Field::Price, price) {
        Ok(text) => text,
        Err(outcome) => {
            return outcome;
        },
    };
    let amount = match take_input(Field::Amount, amount) {
        Ok(text) => text,
        Err(outcome) => {
            return outcome;
        },
    };
    let purchase_date = match take_input(Field::PurchaseDate, purchase_date) {
        Ok(text) => text,
        Err(outcome) => {
            return outcome;
        },
    };
    if is_blank(name.as_str()) {
        return AddOutcome::FieldBlank(Field::Name);
    }
    if is_blank(price.as_str()) {
        return AddOutcome::FieldBlank(Field::Price);
    }
    if is_blank(amount.as_str()) {
        return AddOutcome::FieldBlank(Field::Amount);
    }
    if is_blank(purchase_date.as_str()) {
        return AddOutcome::FieldBlank(Field::PurchaseDate);
    }
    let item = Item::new(name.as_str(), price.as_str(), amount.as_str(), purchase_date.as_str());
    match item.validate_price() {
        Ok(_) => {},
        Err(reason) => {
            return AddOutcome::PriceInvalid(reason);
        },
    }
    match item.validate_amount() {
        Ok(_) => {},
        Err(reason) => {
            return AddOutcome::AmountInvalid(reason);
        },
    }
    match item.validate_purchase_date() {
        Ok(_) => {},
        Err(reason) => {
            return AddOutcome::PurchaseDateInvalid(reason);
        },
    }
    append(list, item);
    AddOutcome::Added
}

/// What pressing `Commit` asks of the user.
#[derive(Debug, Clone, Copy, PartialEq, Eq, Structural)]
pub enum CommitPrompt {
    /// The list is empty: there is nothing to commit, and nothing is started.
    NothingToCommit,
    /// The list holds this many drafts: the user is asked to confirm.
    Confirm(usize),
}

/// What pressing `Commit` asks of the user, for a list of `count` drafts.
pub open spec fn commit_prompt(count: nat) -> CommitPrompt {
    if count == 0 {
        CommitPrompt::NothingToCommit
    } else {
        CommitPrompt::Confirm(count as usize)
    }
}

/// The sentence of a commit prompt.
pub open spec fn prompt_message(prompt: CommitPrompt) -> Seq<char> {
    match prompt {
        CommitPrompt::NothingToCommit => "List is empty. Nothing to commit."@,
        CommitPrompt::Confirm(count) => "Commit "@ + decimal_digits(count as nat) + " items?"@,
    }
}

impl CommitPrompt {
    /// The sentence shown to the user.
    pub fn message(&self) -> (text: String)
        ensures
            text@ == prompt_message(*self),
    {
        match self {
            CommitPrompt::NothingToCommit => "List is empty. Nothing to commit.".to_owned(),
            CommitPrompt::Confirm(count) => {
                let mut text = "Commit ".to_owned();
                let digits = number_text(*count);
                text.append(digits.as_str());
                text.append(" items?");
                text
            },
        }
    }
}

/// The `Commit` button: asks for confirmation where the list holds drafts,
/// and says that there is nothing to commit where it holds none. The list is
/// only read.
pub fn commit_button(list: &SelectView<Item>) -> (prompt: CommitPrompt)
    ensures
        prompt == commit_prompt(staged(*list).len()),
{
    let count = len(list);
    if count == 0 {
        CommitPrompt::NothingToCommit
    } else {
        CommitPrompt::Confirm(count)
    }
}

/// The confirmed commit: takes a snapshot of the list, plans the batch for
/// the table from it, and empties the list at once, before any write is
/// tried and whatever becomes of the batch. Where the list is empty there is
/// no batch: nothing is to be written and nothing to be notified.
pub fn confirm_commit(list: &mut SelectView<Item>, table_name: &str) -> (batch: Option<CommitBatch>)
    ensures
        staged(*final(list)) == Seq::<ItemView>::empty(),
        batch is None <==> staged(*old(list)).len() == 0,
        batch is Some ==> batch->0@ == planned(staged(*old(list)), table_name@),
{
    let drafts = snapshot(list);
    proof {
        assert(drafts@.len() == drafts@.map_values(|draft: Item| draft@).len());
    }
    let batch = handle_commit(&drafts, table_name);
    clear(list);
    batch
}

/// An entry that `Add` lets into the staging list converts at commit time:
/// every draft that is staged through [`add_button`] has a record to write.
pub proof fn lemma_added_entry_converts(
    name: Option<Seq<char>>,
    price: Option<Seq<char>>,
    amount: Option<Seq<char>>,
    purchase_date: Option<Seq<char>>,
)
    requires
        entry_outcome(name, price, amount, purchase_date) == AddOutcome::Added,
    ensures
        convert(entry_record(name, price, amount, purchase_date)) is Ok,
{
}

} // verus!
