//! Draft records: the four texts of the entry form, before any check.

use vstd::prelude::*;
use vstd::string::StringExecFns;
use crate::date::{read_date, CalendarDay, DateError, PurchaseDate};
use crate::number::{read_decimal, Decimal, NumberError};

verus! {

/// A draft record: the four texts of the entry form, kept as they were typed.
/// Any of them may be empty, and none has been checked.
#[derive(Debug, PartialEq, Eq)]
pub struct Item {
    name: String,
    price: String,
    amount: String,
    purchase_date: String,
}

/// The mathematical value of an [`Item`]: its four texts as sequences of
/// characters.
pub struct ItemView {
    pub name: Seq<char>,
    pub price: Seq<char>,
    pub amount: Seq<char>,
    pub purchase_date: Seq<char>,
}

/// The four texts of a record with `separator` between each two of them.
pub open spec fn joined_fields(item: ItemView, separator: Seq<char>) -> Seq<char> {
    item.name + separator + item.price + separator + item.amount + separator + item.purchase_date
}

/// The line that stands for a record on screen: its four texts with a bar
/// between each two of them.
pub open spec fn display_text(item: ItemView) -> Seq<char> {
    joined_fields(item, " | "@)
}

impl View for Item {
    type V = ItemView;

    closed spec fn view(&self) -> ItemView {
        ItemView {
            name: self.name@,
            price: self.price@,
            amount: self.amount@,
            purchase_date: self.purchase_date@,
        }
    }
}

impl Clone for Item {
    fn clone(&self) -> (copy: Self)
        ensures
            copy@ == self@,
    {
        Item {
            name: self.name.clone(),
            price: self.price.clone(),
            amount: self.amount.clone(),
            purchase_date: self.purchase_date.clone(),
        }
    }
}

impl Item {
    /// Builds a draft record from the four texts of the entry form.
    pub fn new(name: &str, price: &str, amount: &str, purchase_date: &str) -> (item: Self)
        ensures
            item@ == (ItemView {
                name: name@,
                price: price@,
                amount: amount@,
                purchase_date: purchase_date@,
            }),
    {
        Item {
            name: name.to_owned(),
            price: price.to_owned(),
            amount: amount.to_owned(),
            purchase_date: purchase_date.to_owned(),
        }
    }

    /// The four texts in the order name, price, amount, purchase date.
    pub fn as_vec(&self) -> (fields: Vec<&str>)
        ensures
            fields@.len() == 4,
            fields@[0]@ == self@.name,
            fields@[1]@ == self@.price,
            fields@[2]@ == self@.amount,
            fields@[3]@ == self@.purchase_date,
    {
        let mut fields: Vec<&str> = Vec::new();
        fields.push(self.name.as_str());
        fields.push(self.price.as_str());
        fields.push(self.amount.as_str());
        fields.push(self.purchase_date.as_str());
        fields
    }

    /// Reads the price as a decimal number.
    pub fn validate_price(&self) -> (parsed: Result<Decimal, NumberError>)
        ensures
            match parsed {
                Ok(number) => read_decimal(self@.price) == Ok::<Seq<char>, NumberError>(number@),
                Err(reason) => read_decimal(self@.price) == Err::<Seq<char>, NumberError>(reason),
            },
    {
        Decimal::parse(self.price.as_str())
    }

    /// Reads the amount as a decimal number.
    pub fn validate_amount(&self) -> (parsed: Result<Decimal, NumberError>)
        ensures
            match parsed {
                Ok(number) => read_decimal(self@.amount) == Ok::<Seq<char>, NumberError>(number@),
                Err(reason) => read_decimal(self@.amount) == Err::<Seq<char>, NumberError>(reason),
            },
    {
        Decimal::parse(self.amount.as_str())
    }

    /// Reads the purchase date, which must have the format `YYYY/MM/DD`.
    pub fn validate_purchase_date(&self) -> (parsed: Result<PurchaseDate, DateError>)
        ensures
            match parsed {
                Ok(date) => read_date(self@.purchase_date) == Ok::<CalendarDay, DateError>(date@),
                Err(reason) => read_date(self@.purchase_date) == Err::<CalendarDay, DateError>(
                    reason,
                ),
            },
    {
        PurchaseDate::parse(self.purchase_date.as_str())
    }

    /// The four texts with `separator` between each two of them.
    pub fn joined(&self, separator: &str) -> (line: String)
        ensures
            line@ == joined_fields(self@, separator@),
    {
        let mut line = self.name.clone();
        line.append(separator);
        line.append(self.price.as_str());
        line.append(separator);
        line.append(self.amount.as_str());
        line.append(separator);
        line.append(self.purchase_date.as_str());
        line
    }

    /// Whether all four texts are empty.
    pub fn are_empty(&self) -> (empty: bool)
        ensures
            empty == (self@.name.len() == 0 && self@.price.len() == 0 && self@.amount.len() == 0
                && self@.purchase_date.len() == 0),
    {
        self.name.as_str().is_empty() && self.price.as_str().is_empty()
            && self.amount.as_str().is_empty() && self.purchase_date.as_str().is_empty()
    }

    /// Takes the record apart: name, price, amount, purchase date.
    pub fn to_parts(self) -> (parts: (String, String, String, String))
        ensures
            parts.0@ == self@.name,
            parts.1@ == self@.price,
            parts.2@ == self@.amount,
            parts.3@ == self@.purchase_date,
    {
        (self.name, self.price, self.amount, self.purchase_date)
    }

    /// The line that stands for the record on screen.
    pub fn to_string(&self) -> (line: String)
        ensures
            line@ == display_text(self@),
    {
        self.joined(" | ")
    }
}

} // verus!
