use titanio::commands::currency::{parse_currency_args, CurrencyRequest};
use titanio::number::{is_amount_text, is_numeric};
use titanio::text::{is_blank_text, is_whitespace, split_whitespace};

#[test]
fn currency_test_parse_currency_args() {
    let args = "100 USD EUR".to_string();
    assert_eq!(
        parse_currency_args(args),
        Ok(vec!["100".to_string(), "USD".to_string(), "EUR".to_string()])
    );

    let args = "USD EUR".to_string();
    let result = parse_currency_args(args);
    assert!(result.is_err());

    let args = "Invalid USD EUR".to_string();
    let result = parse_currency_args(args);
    assert!(result.is_err());

    let args = "100 USD EUR Invalid".to_string();
    let result = parse_currency_args(args);
    assert!(result.is_err());
}

#[test]
fn test_parse_currency_args() {
    assert_eq!(
        parse_currency_args("100 USD EUR".to_string()),
        Ok(vec!["100".into(), "USD".into(), "EUR".into()])
    );

    assert!(parse_currency_args("USD EUR".to_string()).is_err());
    assert!(parse_currency_args("abc USD EUR".to_string()).is_err());
    assert!(parse_currency_args("100 USD EUR XYZ".to_string()).is_err());
}

#[test]
fn currency_args_may_have_white_space_around_and_between() {
    assert_eq!(
        parse_currency_args("  12.5\tusd \u{3000} eur\n".to_string()),
        Ok(vec!["12.5".to_string(), "usd".to_string(), "eur".to_string()])
    );
}

#[test]
fn currency_args_of_no_words_are_refused() {
    assert!(parse_currency_args(String::new()).is_err());
    assert!(parse_currency_args("   ".to_string()).is_err());
    assert!(parse_currency_args("100".to_string()).is_err());
}

#[test]
fn currency_codes_are_not_checked() {
    assert_eq!(
        parse_currency_args("1 ??? 123".to_string()),
        Ok(vec!["1".to_string(), "???".to_string(), "123".to_string()])
    );
}

#[test]
fn split_whitespace_agrees_with_std() {
    let samples = [
        "",
        " ",
        "a",
        " a",
        "a ",
        "a b",
        "100 USD EUR",
        "  100\t\tUSD \n EUR  ",
        "one\u{a0}two\u{2003}three",
        "\u{85}x\u{1680}y\u{2028}z\u{2029}w\u{202f}v\u{205f}u\u{3000}",
        "tab\there\u{b}and\u{c}there\r\n",
        "no-break\u{feff}zero\u{200b}width",
        "ünïcödé wörds 🦀 here",
    ];
    for sample in samples {
        let expected: Vec<String> = sample.split_whitespace().map(String::from).collect();
        assert_eq!(split_whitespace(sample), expected, "{:?}", sample);
    }
}

#[test]
fn whitespace_agrees_with_std_on_every_character() {
    let mut code: u32 = 0;
    while code <= 0x10FFFF {
        if let Some(c) = char::from_u32(code) {
            assert_eq!(is_whitespace(c), c.is_whitespace(), "U+{:04X}", code);
        }
        code += 1;
    }
}

#[test]
fn blank_texts_are_those_that_trim_to_nothing() {
    for sample in ["", " ", "\t\n ", "\u{3000}", "a", " a ", "\u{200b}"] {
        assert_eq!(is_blank_text(sample), sample.trim().is_empty(), "{:?}", sample);
    }
}

#[test]
fn numbers_are_what_std_reads_as_floats() {
    let samples = [
        "", "0", "100", "007", "1.5", "1.", ".5", ".", "+", "-", "+1", "-1", "+.5", "-5.",
        "1e5", "1E5", "1e+5", "1e-5", "1e", "1e+", "e5", ".e5", "1.e5", ".5e5", "1.5e10",
        "1e5.5", "1..5", "1.5.5", "--1", "+-1", "1+", "inf", "INF", "Inf", "+inf", "-inf",
        "infinity", "INFINITY", "-Infinity", "infinit", "infinityy", "nan", "NaN", "-nan",
        "+NAN", "nana", "abc", "Invalid", "USD", "1x", "x1", "0x10", "1_000", "1,5", " 1",
        "1 ", "١٢٣", "1e5e5", "1ee5", "9999999999999999999999999999999999999999",
        "1e99999", "in", "na", "i", "n", "é", "1é",
    ];
    for sample in samples {
        assert_eq!(is_numeric(sample), sample.parse::<f64>().is_ok(), "{:?}", sample);
    }
}

#[test]
fn a_request_holds_the_amount_and_the_two_codes() {
    let request = CurrencyRequest::parse(" 100  usd\tEUR ").unwrap();
    assert_eq!(request.amount, "100");
    assert_eq!(request.from, "usd");
    assert_eq!(request.to, "EUR");
    assert!(CurrencyRequest::parse("USD EUR").is_none());
    assert!(CurrencyRequest::parse("abc USD EUR").is_none());
    assert!(CurrencyRequest::parse("100 USD EUR XYZ").is_none());
    assert!(CurrencyRequest::parse("").is_none());
}

#[test]
fn amounts_are_the_numbers_that_are_positive_and_finite() {
    for sample in [
        "1", "100", "007", "12.5", "0.5", ".5", "5.", "0.10", "000.001", "10", "1.0",
        "99999999999999999999", "+5", "+0.5", "+.5", "1e3", "1E3", "1e-3", "1e+3", "5e0",
        "+1.5e10", "0.1e1", "10e0",
    ] {
        assert!(is_amount_text(sample), "{:?}", sample);
        assert!(is_numeric(sample), "{:?}", sample);
    }
    for sample in [
        "inf", "INF", "+inf", "-inf", "infinity", "+Infinity", "-Infinity", "nan", "NaN",
        "+nan", "-nan", "-5", "-1.5", "-.5", "-1e3", "-0", "0", "00", "0.0", "0.", ".0", "+0",
        "+0.0", "0e5", "0e1", "0.0e9", "+0e3",
    ] {
        assert!(!is_amount_text(sample), "{:?}", sample);
        assert!(is_numeric(sample), "{:?}", sample);
    }
    for sample in [
        "", ".", "+", "-", "e5", "1e", "abc", "1x", "1,5", "1..5", "1.5.5", "1_000", "0x10", " 1",
        "1 ", "١٢٣", "++5", "5+",
    ] {
        assert!(!is_amount_text(sample), "{:?}", sample);
        assert!(!is_numeric(sample), "{:?}", sample);
    }
}

#[test]
fn amounts_are_what_std_reads_as_positive_and_finite() {
    let samples = [
        "", "0", "1", "100", "007", "1.5", "1.", ".5", ".", "+", "-", "+1", "-1", "1e5", "1E5",
        "1e+5", "1e-5", "1e", "inf", "-inf", "+inf", "infinity", "nan", "NaN", "abc", "1x",
        "0.0", "0.001", "1..5", "00", "000.000", "3.14159", "1e0", "0e0", "0e7", "+0", "-0",
        "+.5", "-.5", "١٢٣", "12a", "1.5.5", "+5e2", "-5e2", "0.0001e4",
    ];
    for sample in samples {
        let expected = sample.parse::<f64>().map_or(false, |x| x.is_finite() && x > 0.0);
        assert_eq!(is_amount_text(sample), expected, "{:?}", sample);
    }
}

#[test]
fn currency_args_with_a_number_that_is_positive_and_finite_are_taken() {
    for amount in ["5", "0.5", ".5", "5.", "100.25", "+5", "1e3", "1E-3", "+2.5e+1"] {
        let args = format!("{} USD EUR", amount);
        assert_eq!(
            parse_currency_args(args.clone()),
            Ok(vec![amount.to_string(), "USD".to_string(), "EUR".to_string()])
        );
        let request = CurrencyRequest::parse(&args).unwrap();
        assert_eq!(request.amount, amount);
    }
}

#[test]
fn currency_args_with_a_number_that_is_not_positive_or_not_finite_are_refused() {
    for amount in [
        "inf", "INF", "-inf", "+infinity", "Infinity", "nan", "NaN", "-nan", "0", "0.0", "+0",
        "0e3", "-5", "-0.5", "-1e3",
    ] {
        let args = format!("{} USD EUR", amount);
        assert!(parse_currency_args(args.clone()).is_err(), "{:?}", args);
        assert!(CurrencyRequest::parse(&args).is_none(), "{:?}", args);
    }
}
