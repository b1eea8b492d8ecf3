//! Validated records: what is written to the store for one draft.

use vstd::prelude::*;
use crate::date::{read_date, CalendarDay, DateError, PurchaseDate};
use crate::item::{Item, ItemView};
use crate::number::{read_decimal, Decimal, NumberError};

verus! {

/// A record ready for the store: the table it goes to, the name as typed, and
/// price, amount and purchase date in their checked forms.
#[derive(Debug, PartialEq, Eq)]
pub struct FoodItem {
    table_name: String,
    name: String,
    price: Decimal,
    amount: Decimal,
    purchase_date: PurchaseDate,
}

/// The mathematical value of a [`FoodItem`].
pub struct FoodItemView {
    pub table_name: Seq<char>,
    pub name: Seq<char>,
    pub price: Seq<char>,
    pub amount: Seq<char>,
    pub purchase_date: CalendarDay,
}

/// Why a draft cannot become a validated record: the first of its fields, in
/// the order name, price, amount, purchase date, that does not pass.
#[derive(Debug, Clone, Copy, PartialEq, Eq, Structural)]
pub enum ConversionError {
    /// The name is empty.
    NameEmpty,
    /// The price is no decimal number.
    Price(NumberError),
    /// The amount is no decimal number.
    Amount(NumberError),
    /// The purchase date is no date.
    PurchaseDate(DateError),
}

/// What converting a draft gives: a validated record with an empty table
/// name, or the reason why the draft does not pass.
pub open spec fn convert(item: ItemView) -> Result<FoodItemView, ConversionError> {
    if item.name.len() == 0 {
        Err(ConversionError::NameEmpty)
    } else {
        match read_decimal(item.price) {
            Err(reason) => Err(ConversionError::Price(reason)),
            Ok(price) => match read_decimal(item.amount) {
                Err(reason) => Err(ConversionError::Amount(reason)),
                Ok(amount) => match read_date(item.purchase_date) {
                    Err(reason) => Err(ConversionError::PurchaseDate(reason)),
                    Ok(purchase_date) => Ok(
                        FoodItemView {
                            table_name: Seq::<char>::empty(),
                            name: item.name,
                            price,
                            amount,
                            purchase_date,
                        },
                    ),
                },
            },
        }
    }
}

impl View for FoodItem {
    type V = FoodItemView;

    closed spec fn view(&self) -> FoodItemView {
        FoodItemView {
            table_name: self.table_name@,
            name: self.name@,
            price: self.price@,
            amount: self.amount@,
            purchase_date: self.purchase_date@,
        }
    }
}

impl Clone for FoodItem {
    fn clone(&self) -> (copy: Self)
        ensures
            copy@ == self@,
    {
        FoodItem {
            table_name: self.table_name.clone(),
            name: self.name.clone(),
            price: self.price.clone(),
            amount: self.amount.clone(),
            purchase_date: self.purchase_date,
        }
    }
}

impl FoodItem {
    /// A record with empty texts, zero for price and amount, and the first
    /// day of 1970 for the purchase date.
    pub fn new() -> (record: FoodItem)
        ensures
            record@ == (FoodItemView {
                table_name: Seq::<char>::empty(),
                name: Seq::<char>::empty(),
                price: "0"@,
                amount: "0"@,
                purchase_date: CalendarDay { year: 1970, month: 1, day: 1 },
            }),
    {
        FoodItem {
            table_name: String::new(),
            name: String::new(),
            price: Decimal::zero(),
            amount: Decimal::zero(),
            purchase_date: PurchaseDate::epoch(),
        }
    }

    /// Converts a draft: checks the name, reads price and amount as decimal
    /// numbers and the purchase date as a date. The table name is left empty.
    pub fn from_item(item: &Item) -> (converted: Result<FoodItem, ConversionError>)
        ensures
            match converted {
                Ok(record) => convert(item@) == Ok::<FoodItemView, ConversionError>(record@),
                Err(reason) => convert(item@) == Err::<FoodItemView, ConversionError>(reason),
            },
    {
        let fields = item.as_vec();
        if fields[0].is_empty() {
            return Err(ConversionError::NameEmpty);
        }
        let price = match Decimal::parse(fields[1]) {
            Ok(number) => number,
            Err(reason) => {
                return Err(ConversionError::Price(reason));
            },
        };
        let amount = match Decimal::parse(fields[2]) {
            Ok(number) => number,
            Err(reason) => {
                return Err(ConversionError::Amount(reason));
            },
        };
        let purchase_date = match PurchaseDate::parse(fields[3]) {
            Ok(date) => date,
            Err(reason) => {
                return Err(ConversionError::PurchaseDate(reason));
            },
        };
        Ok(
            FoodItem {
                table_name: String::new(),
                name: fields[0].to_owned(),
                price,
                amount,
                purchase_date,
            },
        )
    }

    /// Takes the record apart: table name, name, price, amount, purchase date.
    pub fn to_parts(self) -> (parts: (String, String, Decimal, Decimal, PurchaseDate))
        ensures
            parts.0@ == self@.table_name,
            parts.1@ == self@.name,
            parts.2@ == self@.price,
            parts.3@ == self@.amount,
            parts.4@ == self@.purchase_date,
    {
        (self.table_name, self.name, self.price, self.amount, self.purchase_date)
    }

    /// Sets the table that the record goes to.
    pub fn set_table_name(&mut self, table_name: &str) -> (this: &mut Self)
        ensures
            this@ == (FoodItemView { table_name: table_name@, ..old(self)@ }),
            *final(self) == *final(this),
    {
        self.table_name = table_name.to_owned();
        self
    }

    /// Sets the name.
    pub fn set_name(&mut self, name: &str) -> (this: &mut Self)
        ensures
            this@ == (FoodItemView { name: name@, ..old(self)@ }),
            *final(self) == *final(this),
    {
        self.name = name.to_owned();
        self
    }

    /// Sets the price.
    pub fn set_price(&mut self, price: Decimal) -> (this: &mut Self)
        ensures
            this@ == (FoodItemView { price: price@, ..old(self)@ }),
            *final(self) == *final(this),
    {
        self.price = price;
        self
    }

    /// Sets the amount.
    pub fn set_amount(&mut self, amount: Decimal) -> (this: &mut Self)
        ensures
            this@ == (FoodItemView { amount: amount@, ..old(self)@ }),
            *final(self) == *final(this),
    {
        self.amount = amount;
        self
    }

    /// Sets the purchase date.
    pub fn set_purchase_date(&mut self, purchase_date: PurchaseDate) -> (this: &mut Self)
        ensures
            this@ == (FoodItemView { purchase_date: purchase_date@, ..old(self)@ }),
            *final(self) == *final(this),
    {
        self.purchase_date = purchase_date;
        self
    }
}

} // verus!
