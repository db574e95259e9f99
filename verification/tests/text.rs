use calculator::history::result_of;
use calculator::text::{display_of, drop_last_char, find_last, is_space_char, trim};
use calculator::token::classify;
use calculator::{ErrorKind, HistoryEntry, Number, Operator, Token};

fn number(value: f64) -> Number {
    Number::new(value.to_bits(), value.to_string())
}

#[test]
fn display_of_empty_text_is_zero() {
    assert_eq!(display_of(""), "0");
    assert_eq!(display_of("0"), "0");
    assert_eq!(display_of("12.5"), "12.5");
    assert_eq!(display_of(" "), " ");
}

#[test]
fn white_space_is_what_unicode_says() {
    let mut code: u32 = 0;
    while code <= 0x10FFFF {
        if let Some(c) = char::from_u32(code) {
            assert_eq!(is_space_char(c), c.is_whitespace(), "code point {:#x}", code);
        }
        code += 1;
    }
}

#[test]
fn trim_removes_white_space_around() {
    assert_eq!(trim("  4 "), "4");
    assert_eq!(trim("4"), "4");
    assert_eq!(trim(""), "");
    assert_eq!(trim(" \t\n"), "");
    assert_eq!(trim(" 1 2 "), "1 2");
    assert_eq!(trim("\u{a0}\u{3000}x\u{2003}y\u{2028}"), "x\u{2003}y");
    assert_eq!(trim("\u{200b} z"), "\u{200b} z");
}

#[test]
fn trim_agrees_with_the_standard_one() {
    let samples = [
        "", " ", "a", " a", "a ", "  a  b  ", "\t\r\n-3.5\n", "\u{85}\u{1680}q\u{205f}",
        "\u{e9} \u{1F600} ", " = ", "\u{feff} x",
    ];
    for sample in samples {
        assert_eq!(trim(sample), sample.trim());
    }
}

#[test]
fn drop_last_char_removes_one_character() {
    assert_eq!(drop_last_char(""), "");
    assert_eq!(drop_last_char("7"), "");
    assert_eq!(drop_last_char("12.5"), "12.");
    assert_eq!(drop_last_char("a\u{e9}"), "a");
    assert_eq!(drop_last_char("a\u{1F600}"), "a");
}

#[test]
fn find_last_finds_the_last_occurrence() {
    assert_eq!(find_last("", '='), None);
    assert_eq!(find_last("abc", '='), None);
    assert_eq!(find_last("=", '='), Some(0));
    assert_eq!(find_last("a=b=c", '='), Some(3));
    assert_eq!(find_last("2 + 2 = 4", '='), Some(6));
    assert_eq!(find_last("\u{e9}=\u{1F600}= ", '='), Some(3));
}

#[test]
fn result_of_reads_what_follows_the_last_equals_sign() {
    assert_eq!(result_of("2 + 2 = 4"), "4");
    assert_eq!(result_of("7 + 3 = 10"), "10");
    assert_eq!(result_of("1 / 3 = 0.3333333333333333"), "0.3333333333333333");
    assert_eq!(result_of("1 - 2 = -1"), "-1");
    assert_eq!(result_of("a = b = c "), "c");
    assert_eq!(result_of("="), "");
    assert_eq!(result_of("5 ="), "");
    assert_eq!(result_of("\u{e9} = \u{1F600}"), "\u{1F600}");
}

#[test]
fn result_of_line_without_equals_sign_is_zero() {
    assert_eq!(result_of(""), "0");
    assert_eq!(result_of("42"), "0");
    assert_eq!(result_of("2 + 2"), "0");
}

#[test]
fn result_of_agrees_with_splitting_where_a_result_is_shown() {
    let lines = ["2 + 2 = 4", "x=y", "= =", "a = b = 3.5 ", "0.1 + 0.2 = 0.30000000000000004"];
    for line in lines {
        assert_eq!(result_of(line), line.split("=").last().unwrap().trim());
    }
}

#[test]
fn entry_is_rendered_with_blanks_between_its_parts() {
    let entry = HistoryEntry {
        left: number(7.0),
        operator: Operator::Add,
        right: number(3.0),
        result: number(10.0),
    };
    assert_eq!(entry.render(), "7 + 3 = 10");
    let entry = HistoryEntry {
        left: number(-1.5),
        operator: Operator::Divide,
        right: number(4.0),
        result: number(-0.375),
    };
    assert_eq!(entry.render(), "-1.5 / 4 = -0.375");
    assert_eq!(entry.clone().render(), entry.render());
}

#[test]
fn rendered_entry_shows_its_result() {
    for operator in [Operator::Add, Operator::Subtract, Operator::Multiply, Operator::Divide] {
        let entry = HistoryEntry {
            left: number(1.0),
            operator,
            right: number(8.0),
            result: number(0.125),
        };
        assert_eq!(result_of(&entry.render()), "0.125");
    }
}

#[test]
fn tokens_are_classified() {
    assert_eq!(classify("+"), Token::Operator(Operator::Add));
    assert_eq!(classify("-"), Token::Operator(Operator::Subtract));
    assert_eq!(classify("*"), Token::Operator(Operator::Multiply));
    assert_eq!(classify("/"), Token::Operator(Operator::Divide));
    assert_eq!(classify("="), Token::Equals);
    assert_eq!(classify("ac"), Token::Clear);
    assert_eq!(classify("<"), Token::Backspace);
    for text in ["0", "9", ".", "", "AC", "aC", "a", "c", "ca", "acc", "++", "==", "<<", " +", ">", "\u{f7}"] {
        assert_eq!(classify(text), Token::Text, "token {:?}", text);
    }
}

#[test]
fn operators_have_symbols() {
    assert_eq!(Operator::Add.symbol(), '+');
    assert_eq!(Operator::Subtract.symbol(), '-');
    assert_eq!(Operator::Multiply.symbol(), '*');
    assert_eq!(Operator::Divide.symbol(), '/');
    for operator in [Operator::Add, Operator::Subtract, Operator::Multiply, Operator::Divide] {
        assert_eq!(Operator::from_symbol(operator.symbol()), Ok(operator));
    }
}

#[test]
fn unknown_operator_symbol_is_invalid() {
    for symbol in ['%', '=', '<', 'a', '0', ' ', '\u{f7}', '\u{d7}'] {
        assert_eq!(Operator::from_symbol(symbol), Err(ErrorKind::InvalidOperation));
    }
}

#[test]
fn errors_have_messages() {
    assert_eq!(ErrorKind::DivisionByZero.message(), "Divisi\u{f3}n por cero");
    assert_eq!(ErrorKind::InvalidOperation.message(), "Operaci\u{f3}n inv\u{e1}lida");
}

#[test]
fn zero_is_recognised_by_its_bits() {
    assert!(number(0.0).is_zero());
    assert!(number(-0.0).is_zero());
    assert!(Number::new(0, String::new()).is_zero());
    assert!(Number::new(0x8000_0000_0000_0000, String::new()).is_zero());
    for value in [1.0, -1.0, 5e-324, -5e-324, f64::MIN_POSITIVE, f64::INFINITY, f64::NAN, 1e-300] {
        assert_eq!(number(value).is_zero(), value == 0.0);
    }
    assert!(!Number::new(1, "0".to_string()).is_zero());
}

#[test]
fn number_keeps_bits_and_text() {
    let seven = Number::new(7.0f64.to_bits(), "7".to_string());
    assert_eq!(seven.bits, 0x401C_0000_0000_0000);
    assert_eq!(seven.text, "7");
    let copy = seven.clone();
    assert_eq!(copy.bits, seven.bits);
    assert_eq!(copy.text, seven.text);
}
