use food_staging::date::{DateError, PurchaseDate, Timestamp};
use food_staging::number::{Decimal, NumberError};
use food_staging::text::{chars_of, is_blank, number_text};

#[test]
fn price_reads_plain_digits() {
    let price = Decimal::parse("1250").unwrap();
    assert_eq!(price.as_str(), "1250");
}

#[test]
fn price_reads_fraction_forms() {
    assert_eq!(Decimal::parse("12.5").unwrap().as_str(), "12.5");
    assert_eq!(Decimal::parse("12.").unwrap().as_str(), "12.");
    assert_eq!(Decimal::parse(".5").unwrap().as_str(), ".5");
    assert_eq!(Decimal::parse("0.0").unwrap().as_str(), "0.0");
}

#[test]
fn price_reads_exponent_forms() {
    assert!(Decimal::parse("1e3").is_ok());
    assert!(Decimal::parse("1E3").is_ok());
    assert!(Decimal::parse("2.5e-3").is_ok());
    assert!(Decimal::parse("2.5E+10").is_ok());
    assert!(Decimal::parse(".5e0").is_ok());
}

#[test]
fn price_keeps_sign_and_zero() {
    assert_eq!(Decimal::parse("-3.75").unwrap().as_str(), "-3.75");
    assert_eq!(Decimal::parse("+3.75").unwrap().as_str(), "+3.75");
    assert_eq!(Decimal::parse("0").unwrap(), Decimal::zero());
    assert_eq!(Decimal::parse("-0").unwrap().as_str(), "-0");
}

#[test]
fn price_rejects_empty_text() {
    assert_eq!(Decimal::parse(""), Err(NumberError::Empty));
}

#[test]
fn price_rejects_what_is_no_number() {
    for text in [
        "abc", "1.2.3", "..", ".", "-", "+", "1,5", " 1", "1 ", "1e", "1e+", "e5", "--1", "1-", "12a",
        "1.5e2.5", "inf", "nan", "infinity", "٣", "1_000", "0x10",
    ] {
        assert_eq!(Decimal::parse(text), Err(NumberError::Invalid), "{}", text);
    }
}

#[test]
fn every_accepted_price_is_a_float_of_std() {
    for text in ["0", "-0", "+7", "12.", ".5", "-12.5e-7", "1E400", "000123.4500", "9e+3"] {
        let number = Decimal::parse(text).unwrap();
        assert!(number.as_str().parse::<f64>().is_ok(), "{}", text);
    }
}

#[test]
fn total_is_the_product_of_what_was_read() {
    let price = Decimal::parse("-2.5").unwrap().as_str().parse::<f64>().unwrap();
    let amount = Decimal::parse("4").unwrap().as_str().parse::<f64>().unwrap();
    assert_eq!(price * amount, -10.0);
    let nothing = Decimal::parse("0").unwrap().as_str().parse::<f64>().unwrap();
    assert_eq!(price * nothing, 0.0);
}

#[test]
fn date_reads_the_exact_format() {
    let date = PurchaseDate::parse("2024/02/05").unwrap();
    assert_eq!((date.year(), date.month(), date.day()), (2024, 2, 5));
}

#[test]
fn date_rejects_a_day_the_month_lacks() {
    assert_eq!(PurchaseDate::parse("2024/02/30"), Err(DateError::OutOfRange));
    assert_eq!(PurchaseDate::parse("2023/02/29"), Err(DateError::OutOfRange));
    assert_eq!(PurchaseDate::parse("2024/04/31"), Err(DateError::OutOfRange));
    assert_eq!(PurchaseDate::parse("2024/13/01"), Err(DateError::OutOfRange));
    assert_eq!(PurchaseDate::parse("2024/00/10"), Err(DateError::OutOfRange));
    assert_eq!(PurchaseDate::parse("2024/01/00"), Err(DateError::OutOfRange));
    assert_eq!(PurchaseDate::parse("1900/02/29"), Err(DateError::OutOfRange));
}

#[test]
fn date_accepts_leap_days_and_month_ends() {
    assert!(PurchaseDate::parse("2024/02/29").is_ok());
    assert!(PurchaseDate::parse("2000/02/29").is_ok());
    assert!(PurchaseDate::parse("2023/12/31").is_ok());
    assert!(PurchaseDate::parse("2023/11/30").is_ok());
    assert!(PurchaseDate::parse("0000/01/01").is_ok());
    assert!(PurchaseDate::parse("9999/12/31").is_ok());
}

#[test]
fn date_rejects_wrong_digit_width() {
    assert_eq!(PurchaseDate::parse("2024/2/5"), Err(DateError::TooShort));
    assert_eq!(PurchaseDate::parse("24/02/05"), Err(DateError::TooShort));
    assert_eq!(PurchaseDate::parse(""), Err(DateError::TooShort));
    assert_eq!(PurchaseDate::parse("2024/002/05"), Err(DateError::TooLong));
    assert_eq!(PurchaseDate::parse("2024/02/05 "), Err(DateError::TooLong));
    assert_eq!(PurchaseDate::parse("02024/2/05"), Err(DateError::Invalid));
}

#[test]
fn date_rejects_wrong_separators_and_characters() {
    assert_eq!(PurchaseDate::parse("2024-02-05"), Err(DateError::Invalid));
    assert_eq!(PurchaseDate::parse("2024/02-05"), Err(DateError::Invalid));
    assert_eq!(PurchaseDate::parse("2024.02.05"), Err(DateError::Invalid));
    assert_eq!(PurchaseDate::parse("20a4/02/05"), Err(DateError::Invalid));
    assert_eq!(PurchaseDate::parse(" 024/02/05"), Err(DateError::Invalid));
    assert_eq!(PurchaseDate::parse("+024/02/05"), Err(DateError::Invalid));
    assert_eq!(PurchaseDate::parse("2024/ 2/05"), Err(DateError::Invalid));
    assert_eq!(PurchaseDate::parse("05/02/2024"), Err(DateError::Invalid));
}

#[test]
fn date_counts_characters_not_bytes() {
    assert_eq!(PurchaseDate::parse("2024/02/0é"), Err(DateError::Invalid));
    assert_eq!(PurchaseDate::parse("2024/02é"), Err(DateError::TooShort));
}

#[test]
fn date_agrees_with_the_calendar_of_chrono() {
    for year in [1999, 2000, 2023, 2024, 2100] {
        for month in 1..=12u32 {
            for day in 1..=31u32 {
                let text = format!("{:04}/{:02}/{:02}", year, month, day);
                let expected = chrono::NaiveDate::from_ymd_opt(year, month, day).is_some();
                assert_eq!(PurchaseDate::parse(&text).is_ok(), expected, "{}", text);
            }
        }
    }
}

#[test]
fn date_is_stored_as_midnight_at_offset_zero() {
    let date = PurchaseDate::parse("2024/02/05").unwrap();
    assert_eq!(
        date.at_midnight_utc(),
        Timestamp { year: 2024, month: 2, day: 5, hour: 0, minute: 0, second: 0, offset_seconds: 0 }
    );
}

#[test]
fn epoch_is_the_first_day_of_1970() {
    assert_eq!(PurchaseDate::epoch(), PurchaseDate::parse("1970/01/01").unwrap());
}

#[test]
fn date_error_messages() {
    assert_eq!(DateError::TooShort.message(), "premature end of input");
    assert_eq!(DateError::TooLong.message(), "trailing input");
    assert_eq!(DateError::Invalid.message(), "input contains invalid characters");
    assert_eq!(DateError::OutOfRange.message(), "input is out of range");
}

#[test]
fn blank_is_empty_or_spaces_only() {
    assert!(is_blank(""));
    assert!(is_blank(" "));
    assert!(is_blank("     "));
    assert!(!is_blank(" a "));
    assert!(!is_blank("\t"));
    assert!(!is_blank("\n"));
    assert!(!is_blank("x"));
}

#[test]
fn characters_of_a_text() {
    assert_eq!(chars_of(""), Vec::<char>::new());
    assert_eq!(chars_of("a/é"), vec!['a', '/', 'é']);
}

#[test]
fn numbers_are_written_in_decimal() {
    assert_eq!(number_text(0), "0");
    assert_eq!(number_text(7), "7");
    assert_eq!(number_text(10), "10");
    assert_eq!(number_text(1203), "1203");
    assert_eq!(number_text(usize::MAX), usize::MAX.to_string());
}
