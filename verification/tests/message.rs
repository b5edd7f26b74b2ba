use price_bot::decimal::decimal_text;
use price_bot::message::{escape, is_reserved, render, MessageBody, PraseMode, PriceFigures};

fn figures() -> PriceFigures {
    PriceFigures {
        egp: "49.12".to_string(),
        sar: "3.75".to_string(),
        sar_egp: "13.10".to_string(),
        gold_24k: "4000.50".to_string(),
        gold_22k: "3667.12".to_string(),
        gold_21k: "3500.44".to_string(),
        gold_20k: "3333.75".to_string(),
        gold_18k: "3000.38".to_string(),
    }
}

#[test]
fn as_text_names_each_dialect() {
    assert_eq!(PraseMode::MarkdownV2.as_text(), "MarkdownV2");
    assert_eq!(PraseMode::HTML.as_text(), "HTML");
    assert_eq!(PraseMode::Markdown.as_text(), "Markdown");
}

#[test]
fn a_rate_is_shown_with_two_decimals_and_its_point_escaped() {
    let shown = format!("{:.2}", 49.123456_f64);
    assert_eq!(shown, "49.12");
    assert_eq!(escape(&shown), "49\\.12");
}

#[test]
fn a_cross_rate_is_the_quotient_shown_with_two_decimals() {
    let egp = 49.00_f64;
    let sar = 3.75_f64;
    let shown = format!("{:.2}", egp / sar);
    assert_eq!(shown, "13.07");
    assert_eq!(escape(&shown), "13\\.07");
}

#[test]
fn escape_puts_a_backslash_before_every_reserved_character() {
    assert_eq!(
        escape("_*[]()~`>#+-=|{}.!\\"),
        "\\_\\*\\[\\]\\(\\)\\~\\`\\>\\#\\+\\-\\=\\|\\{\\}\\.\\!\\\\"
    );
}

#[test]
fn escape_leaves_other_characters_alone() {
    assert_eq!(escape(""), "");
    assert_eq!(escape("1234567890"), "1234567890");
    assert_eq!(escape("NaN inf ⏩ abc"), "NaN inf ⏩ abc");
    assert_eq!(escape("-0.50"), "\\-0\\.50");
}

#[test]
fn is_reserved_knows_the_reserved_characters() {
    for c in "_*[]()~`>#+-=|{}.!\\".chars() {
        assert!(is_reserved(c));
    }
    for c in "0123456789 abcXYZ,:;/'\"@$%^&?<\n".chars() {
        assert!(!is_reserved(c));
    }
}

#[test]
fn the_text_of_a_price_update() {
    let expected = "*Price updates 🔥🔥*\
        \n1 USD \\= *49\\.12* EGP\
        \n1 USD \\= *3\\.75* SAR\
        \n1 SAR \\= *13\\.10* EGP\
        \n*📈 Gold prices _\\(1g\\)_* 👇👇\
        \nGold 24k ⏩ 4000\\.50 EGP\
        \nGold 22k ⏩ 3667\\.12 EGP\
        \nGold 21k ⏩ 3500\\.44 EGP\
        \nGold 20k ⏩ 3333\\.75 EGP\
        \nGold 18k ⏩ 3000\\.38 EGP";
    assert_eq!(render(&figures()), expected);
}

#[test]
fn a_message_body_holds_the_chat_the_text_and_the_dialect() {
    let body = MessageBody::new("42", &figures());
    assert_eq!(body.chat_id, "42");
    assert_eq!(body.text, render(&figures()));
    assert_eq!(body.parse_mode, "MarkdownV2");
}

#[test]
fn the_text_does_not_depend_on_the_chat() {
    assert_eq!(MessageBody::new("42", &figures()).text, MessageBody::new("7", &figures()).text);
}

#[test]
fn decimal_text_of_some_integers() {
    assert_eq!(decimal_text(0), "0");
    assert_eq!(decimal_text(7), "7");
    assert_eq!(decimal_text(42), "42");
    assert_eq!(decimal_text(-7), "-7");
    assert_eq!(decimal_text(1000), "1000");
    assert_eq!(decimal_text(-1001234567890), "-1001234567890");
    assert_eq!(decimal_text(i64::MAX), "9223372036854775807");
    assert_eq!(decimal_text(i64::MIN), "-9223372036854775808");
}

#[test]
fn decimal_text_agrees_with_the_standard_library() {
    for i in [-1_i64, 1, 9, 10, 11, 99, 100, 101, -10, -99, -100, 1234567890123] {
        assert_eq!(decimal_text(i), format!("{}", i));
    }
}
