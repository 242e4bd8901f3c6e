use spwn_lang::ast::{IDClass, Operator};
use spwn_lang::text::{parse_class, parse_operator, parse_u16, same_text, str_content};

#[test]
fn str_content_strips_delimiting_quotes() {
    assert_eq!(str_content("\"hello\"".to_string()), "hello");
}

#[test]
fn str_content_deletes_embedded_quotes() {
    assert_eq!(str_content("\"say \\\"hi\\\"\"".to_string()), "say \\hi\\");
    assert_eq!(str_content("a\"b\"c".to_string()), "abc");
}

#[test]
fn str_content_keeps_other_text() {
    assert_eq!(str_content(String::new()), "");
    assert_eq!(str_content("\"\"".to_string()), "");
    assert_eq!(str_content("'single' \u{e9}\n".to_string()), "'single' \u{e9}\n");
}

#[test]
fn number_of_a_handle() {
    assert_eq!(parse_u16("0"), Some(0));
    assert_eq!(parse_u16("10"), Some(10));
    assert_eq!(parse_u16("007"), Some(7));
    assert_eq!(parse_u16("+5"), Some(5));
    assert_eq!(parse_u16("65535"), Some(65535));
    assert_eq!(parse_u16("0000065535"), Some(65535));
}

#[test]
fn number_of_a_handle_out_of_range() {
    assert_eq!(parse_u16("65536"), None);
    assert_eq!(parse_u16("70000"), None);
    assert_eq!(parse_u16("99999999999999999999999999"), None);
}

#[test]
fn text_that_is_no_number() {
    assert_eq!(parse_u16(""), None);
    assert_eq!(parse_u16("+"), None);
    assert_eq!(parse_u16("-1"), None);
    assert_eq!(parse_u16("1.5"), None);
    assert_eq!(parse_u16("1 "), None);
    assert_eq!(parse_u16(" 1"), None);
    assert_eq!(parse_u16("1+"), None);
    assert_eq!(parse_u16("++1"), None);
    assert_eq!(parse_u16("1_000"), None);
    assert_eq!(parse_u16("12a"), None);
    assert_eq!(parse_u16("99999x"), None);
}

#[test]
fn number_reader_agrees_with_std() {
    let texts = ["0", "1", "+1", "65535", "65536", "", "+", "x", "1x", "0x10", "٣"];
    for text in texts {
        assert_eq!(parse_u16(text), text.parse::<u16>().ok());
    }
}

#[test]
fn operator_tokens() {
    let tokens = [
        ("||", Operator::Or),
        ("&&", Operator::And),
        ("==", Operator::Equal),
        ("!=", Operator::NotEqual),
        ("..", Operator::Range),
        (">=", Operator::MoreOrEqual),
        ("<=", Operator::LessOrEqual),
        (">", Operator::More),
        ("<", Operator::Less),
        ("/", Operator::Slash),
        ("*", Operator::Star),
        ("^", Operator::Power),
        ("+", Operator::Plus),
        ("-", Operator::Minus),
        ("%", Operator::Modulo),
        ("=", Operator::Assign),
        ("+=", Operator::Add),
        ("-=", Operator::Subtract),
        ("*=", Operator::Multiply),
        ("/=", Operator::Divide),
    ];
    for (token, operator) in tokens {
        assert_eq!(parse_operator(token), Some(operator));
    }
}

#[test]
fn text_that_is_no_operator() {
    for token in ["", "!", "|", "&", ".", "=>", "%=", "^=", "===", "+ ", "and"] {
        assert_eq!(parse_operator(token), None);
    }
}

#[test]
fn class_letters() {
    assert_eq!(parse_class("g"), Some(IDClass::Group));
    assert_eq!(parse_class("c"), Some(IDClass::Color));
    assert_eq!(parse_class("i"), Some(IDClass::Item));
    assert_eq!(parse_class("b"), Some(IDClass::Block));
    assert_eq!(parse_class(""), None);
    assert_eq!(parse_class("G"), None);
    assert_eq!(parse_class("gg"), None);
    assert_eq!(parse_class("x"), None);
}

#[test]
fn same_text_compares_characters() {
    assert!(same_text(&"true".to_string(), "true"));
    assert!(!same_text(&"True".to_string(), "true"));
    assert!(!same_text(&"tru".to_string(), "true"));
    assert!(same_text(&String::new(), ""));
}
