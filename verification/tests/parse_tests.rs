use pulsedoc::date::PlainDate;
use pulsedoc::num::PreciseNum;
use pulsedoc::parse::{
    parse_date, parse_int, parse_num_precise, parse_num_x_num, parse_string, prep_num_msg,
    ParseError,
};

#[test]
fn parse_int_accepts_plain_and_signed() {
    assert_eq!(parse_int("42"), Ok(42));
    assert_eq!(parse_int("-42"), Ok(-42));
    assert_eq!(parse_int("+7"), Ok(7));
    assert_eq!(parse_int("0"), Ok(0));
}

#[test]
fn parse_int_bounds() {
    assert_eq!(parse_int("9223372036854775807"), Ok(i64::MAX));
    assert_eq!(parse_int("-9223372036854775808"), Ok(i64::MIN));
    assert_eq!(parse_int("9223372036854775808"), Err(ParseError::InvalidNumber));
    assert_eq!(parse_int("-9223372036854775809"), Err(ParseError::InvalidNumber));
    assert_eq!(parse_int("99999999999999999999999999"), Err(ParseError::InvalidNumber));
}

#[test]
fn parse_int_rejections() {
    assert_eq!(parse_int(""), Err(ParseError::EmptyNumber));
    assert_eq!(parse_int("abc"), Err(ParseError::InvalidNumber));
    assert_eq!(parse_int("1.5"), Err(ParseError::InvalidNumber));
    assert_eq!(parse_int("-"), Err(ParseError::InvalidNumber));
    assert_eq!(parse_int("+"), Err(ParseError::InvalidNumber));
    assert_eq!(parse_int("4 2"), Err(ParseError::InvalidNumber));
}

#[test]
fn parse_num_attaches_precision() {
    let v = parse_num_precise("175", 1).unwrap();
    assert_eq!(v, PreciseNum::new_scaled(175, 1));
    assert_eq!(v.format(), "17,5");
    assert_eq!(parse_num_precise("", 1), Err(ParseError::EmptyNumber));
    assert_eq!(parse_num_precise("x", 0), Err(ParseError::InvalidNumber));
}

#[test]
fn round_trip_format_then_parse() {
    for n in [0i64, 7, 175, -44, 9001, i64::MAX, i64::MIN] {
        let text = pulsedoc::num::format_int(n);
        assert_eq!(parse_int(&text), Ok(n));
    }
}

#[test]
fn parse_string_rejects_empty_only() {
    assert_eq!(parse_string(""), Err(ParseError::EmptyString));
    assert_eq!(parse_string("Иванов"), Ok("Иванов".to_string()));
}

#[test]
fn parse_pair_happy_path() {
    let pair = parse_num_x_num("45 52", 1).unwrap();
    assert_eq!(pair.num1, PreciseNum::new_scaled(45, 1));
    assert_eq!(pair.num2, PreciseNum::new_scaled(52, 1));
    assert_eq!(pair.format(), "4,5×5,2");
    let spaced = parse_num_x_num("  12   34  ", 0).unwrap();
    assert_eq!(spaced.format(), "12×34");
}

#[test]
fn parse_pair_errors_in_order() {
    assert_eq!(parse_num_x_num("", 1), Err(ParseError::NumXNumNeedTwo));
    assert_eq!(parse_num_x_num("   ", 1), Err(ParseError::NumXNumNeedTwo));
    assert_eq!(parse_num_x_num("12", 1), Err(ParseError::NumXNumNeedTwo));
    assert_eq!(parse_num_x_num("ab 12", 1), Err(ParseError::NumXNumFirstInvalid));
    assert_eq!(parse_num_x_num("ab", 1), Err(ParseError::NumXNumFirstInvalid));
    assert_eq!(parse_num_x_num("12 cd", 1), Err(ParseError::NumXNumSecondInvalid));
    assert_eq!(parse_num_x_num("1 2 3", 1), Err(ParseError::NumXNumTooMany));
}

#[test]
fn parse_date_happy_path() {
    assert_eq!(
        parse_date("01011980"),
        Ok(PlainDate { year: 1980, month: 1, day: 1 })
    );
    assert_eq!(
        parse_date("29022024"),
        Ok(PlainDate { year: 2024, month: 2, day: 29 })
    );
    assert_eq!(
        parse_date("31122000"),
        Ok(PlainDate { year: 2000, month: 12, day: 31 })
    );
}

#[test]
fn parse_date_rejects_bad_calendar_dates() {
    assert_eq!(parse_date("29022023"), Err(ParseError::InvalidDate));
    assert_eq!(parse_date("31042023"), Err(ParseError::InvalidDate));
    assert_eq!(parse_date("00012023"), Err(ParseError::InvalidDate));
    assert_eq!(parse_date("01132023"), Err(ParseError::InvalidDate));
    assert_eq!(parse_date("29021900"), Err(ParseError::InvalidDate));
}

#[test]
fn parse_date_rejects_bad_shapes() {
    assert_eq!(parse_date(""), Err(ParseError::InvalidDate));
    assert_eq!(parse_date("1234"), Err(ParseError::InvalidDate));
    assert_eq!(parse_date("010119800"), Err(ParseError::InvalidDate));
    assert_eq!(parse_date("ab011980"), Err(ParseError::InvalidDate));
    assert_eq!(parse_date("01.01.80"), Err(ParseError::InvalidDate));
}

#[test]
fn error_messages_match() {
    assert_eq!(ParseError::EmptyString.message(), "Строка не должна быть пустой.");
    assert_eq!(ParseError::InvalidNumber.message(), "Некорректное число.");
    assert_eq!(ParseError::InvalidDate.message(), "Некорректная дата (ожидаю ДДММГГГГ).");
    assert_eq!(ParseError::EmptyNumber.message(), "Ввод этого числа нельзя пропустить.");
    assert_eq!(ParseError::NumXNumNeedTwo.message(), "Введите два числа через пробел.");
    assert_eq!(ParseError::NumXNumFirstInvalid.message(), "Первое число некорректно.");
    assert_eq!(ParseError::NumXNumSecondInvalid.message(), "Второе число некорректно.");
    assert_eq!(
        ParseError::NumXNumTooMany.message(),
        "Должно быть ровно два числа, введено более двух."
    );
}

#[test]
fn prompt_labels() {
    assert_eq!(prep_num_msg("Рост", 0), "Рост (целое)");
    assert_eq!(prep_num_msg("Ао", 1), "Ао (/10)");
    assert_eq!(prep_num_msg("x", 3), "x (/1000)");
}
