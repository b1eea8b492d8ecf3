use food_staging::date::{DateError, PurchaseDate};
use food_staging::food_item::{ConversionError, FoodItem};
use food_staging::item::Item;
use food_staging::number::{Decimal, NumberError};
use food_staging::quit::QuitHandler;

#[test]
fn item_keeps_its_four_texts() {
    let item = Item::new("Milk", "1.5", "2", "2024/02/05");
    assert_eq!(item.as_vec(), vec!["Milk", "1.5", "2", "2024/02/05"]);
    let (name, price, amount, purchase_date) = item.to_parts();
    assert_eq!(name, "Milk");
    assert_eq!(price, "1.5");
    assert_eq!(amount, "2");
    assert_eq!(purchase_date, "2024/02/05");
}

#[test]
fn item_joins_its_texts() {
    let item = Item::new("Milk", "1.5", "2", "2024/02/05");
    assert_eq!(item.joined(", "), "Milk, 1.5, 2, 2024/02/05");
    assert_eq!(item.joined(""), "Milk1.522024/02/05");
    assert_eq!(item.to_string(), "Milk | 1.5 | 2 | 2024/02/05");
    assert_eq!(Item::new("", "", "", "").to_string(), " |  |  | ");
}

#[test]
fn item_is_empty_only_with_four_empty_texts() {
    assert!(Item::new("", "", "", "").are_empty());
    assert!(!Item::new("a", "", "", "").are_empty());
    assert!(!Item::new("", "1", "", "").are_empty());
    assert!(!Item::new("", "", "1", "").are_empty());
    assert!(!Item::new("", "", "", "2024/02/05").are_empty());
    assert!(!Item::new(" ", " ", " ", " ").are_empty());
}

#[test]
fn item_clone_is_equal() {
    let item = Item::new("Milk", "1.5", "2", "2024/02/05");
    assert_eq!(item.clone(), item);
}

#[test]
fn item_validates_each_field_on_its_own() {
    let item = Item::new("Milk", "1.5", "two", "2024/02/30");
    assert_eq!(item.validate_price().unwrap().as_str(), "1.5");
    assert_eq!(item.validate_amount(), Err(NumberError::Invalid));
    assert_eq!(item.validate_purchase_date(), Err(DateError::OutOfRange));
    let other = Item::new("Milk", "", "-2", "2024/02/05");
    assert_eq!(other.validate_price(), Err(NumberError::Empty));
    assert_eq!(other.validate_amount().unwrap().as_str(), "-2");
    assert_eq!(other.validate_purchase_date(), Ok(PurchaseDate::parse("2024/02/05").unwrap()));
}

#[test]
fn food_item_comes_from_a_valid_draft() {
    let record = FoodItem::from_item(&Item::new("Milk", "-1.5", "0", "2024/02/05")).unwrap();
    let (table_name, name, price, amount, purchase_date) = record.to_parts();
    assert_eq!(table_name, "");
    assert_eq!(name, "Milk");
    assert_eq!(price.as_str(), "-1.5");
    assert_eq!(amount.as_str(), "0");
    assert_eq!((purchase_date.year(), purchase_date.month(), purchase_date.day()), (2024, 2, 5));
}

#[test]
fn food_item_names_the_first_field_that_fails() {
    let convert = |name, price, amount, date| FoodItem::from_item(&Item::new(name, price, amount, date));
    assert_eq!(convert("", "x", "y", "z"), Err(ConversionError::NameEmpty));
    assert_eq!(convert("Milk", "x", "y", "z"), Err(ConversionError::Price(NumberError::Invalid)));
    assert_eq!(convert("Milk", "", "y", "z"), Err(ConversionError::Price(NumberError::Empty)));
    assert_eq!(convert("Milk", "1", "y", "z"), Err(ConversionError::Amount(NumberError::Invalid)));
    assert_eq!(convert("Milk", "1", "", "z"), Err(ConversionError::Amount(NumberError::Empty)));
    assert_eq!(
        convert("Milk", "1", "2", "z"),
        Err(ConversionError::PurchaseDate(DateError::TooShort))
    );
    assert_eq!(
        convert("Milk", "1", "2", "2024/02/30"),
        Err(ConversionError::PurchaseDate(DateError::OutOfRange))
    );
    assert!(convert(" ", "1", "2", "2024/02/05").is_ok());
}

#[test]
fn food_item_starts_from_defaults() {
    let (table_name, name, price, amount, purchase_date) = FoodItem::new().to_parts();
    assert_eq!(table_name, "");
    assert_eq!(name, "");
    assert_eq!(price, Decimal::zero());
    assert_eq!(amount.as_str(), "0");
    assert_eq!(purchase_date, PurchaseDate::epoch());
}

#[test]
fn food_item_setters_change_one_field_each() {
    let mut record = FoodItem::new();
    record.set_table_name("Meat");
    record.set_name("Ham");
    record.set_price(Decimal::parse("3.2").unwrap());
    record.set_amount(Decimal::parse("-4").unwrap());
    record.set_purchase_date(PurchaseDate::parse("2023/12/31").unwrap());
    let copy = record.clone();
    assert_eq!(copy, record);
    let (table_name, name, price, amount, purchase_date) = record.to_parts();
    assert_eq!(table_name, "Meat");
    assert_eq!(name, "Ham");
    assert_eq!(price.as_str(), "3.2");
    assert_eq!(amount.as_str(), "-4");
    assert_eq!(purchase_date, PurchaseDate::parse("2023/12/31").unwrap());
}

#[test]
fn food_item_setters_chain() {
    let mut record = FoodItem::new();
    record.set_table_name("Fruit").set_name("Pear").set_amount(Decimal::parse("6").unwrap());
    let (table_name, name, price, amount, _) = record.to_parts();
    assert_eq!(table_name, "Fruit");
    assert_eq!(name, "Pear");
    assert_eq!(price.as_str(), "0");
    assert_eq!(amount.as_str(), "6");
}

#[test]
fn quit_handler_default_texts() {
    let handler = QuitHandler::default();
    assert_eq!(handler.title(), "Quit");
    assert_eq!(handler.text(), "Are you sure you want to quit?");
}

#[test]
fn quit_handler_keeps_title_and_text_apart() {
    let handler = QuitHandler::new("Leave", "Really leave?");
    assert_eq!(handler.title(), "Leave");
    assert_eq!(handler.text(), "Really leave?");
}
