use holdcrypt::number::{is_price, is_real};

const TEXTS: [&str; 72] = [
    "", "0", "1", "-1", "+1", "1.", ".5", "-.5", ".", "-", "+", "+.", "1e5", "1E5", "1e", "1e+",
    "1e+5", "1e-5", "1.5e-3", ".5e1", "5.e1", "e5", ".e5", "1e5.5", "1e5e5", "inf", "-inf", "+inf",
    "infinity", "Infinity", "+INFINITY", "-iNf", "nan", "NaN", "-nan", "+NAN", "infinit",
    "infinityy", "in", "na", "nana", "0x10", "1_000", " 1", "1 ", "1,5", "1..2", "1.2.3", "--1",
    "+-1", "1f", "1.0f64", "0.123456789", "0.30000000000000004", "5.551115123125783e-17",
    "92233720369", "1e999", "-0", "-0.0", "-0.000e9", "-.0", "-0.", "-0.0001", "-00100",
    "00012.5000", "100.0", "4500.50", "99999999999999999999999999999999999999999",
    "\u{661}\u{662}", "1\u{661}", "one", "1e\u{661}",
];

fn is_word(text: &str) -> bool {
    let word = text.trim_start_matches(['+', '-']).to_ascii_lowercase();
    word == "inf" || word == "infinity" || word == "nan"
}

#[test]
fn texts_of_real_numbers_are_those_that_parse_but_the_words() {
    for text in TEXTS {
        let expected = text.parse::<f64>().is_ok() && !is_word(text);
        assert_eq!(is_real(text), expected, "text {:?}", text);
    }
}

#[test]
fn texts_of_prices_are_the_reals_that_are_not_below_zero() {
    for text in TEXTS {
        let expected = is_real(text)
            && (!text.starts_with('-')
                || text.chars().take_while(|c| *c != 'e' && *c != 'E').all(|c| "-0.".contains(c)));
        assert_eq!(is_price(text), expected, "text {:?}", text);
    }
    assert!(is_price("0"));
    assert!(is_price("-0"));
    assert!(is_price("-0.00e5"));
    assert!(is_price("+4500.5"));
    assert!(is_price("1e3"));
    assert!(!is_price("-5"));
    assert!(!is_price("-0.0001"));
    assert!(!is_price("inf"));
    assert!(!is_price("NaN"));
    assert!(!is_price("-inf"));
}

#[test]
fn numbers_beyond_eight_digits_and_with_exponents_are_read() {
    assert!(is_real("0.123456789"));
    assert!(is_real("1e3"));
    assert!(is_real("92233720369.5"));
    assert!(is_real("5.551115123125783e-17"));
    assert!(is_real("-5"));
}

#[test]
fn infinity_and_what_is_no_number_are_no_real_numbers() {
    for text in ["inf", "-inf", "+infinity", "Infinity", "nan", "NaN", "-nan"] {
        assert!(!is_real(text), "text {:?}", text);
    }
}

#[test]
fn texts_that_denote_no_number_are_refused() {
    assert!(!is_real(""));
    assert!(!is_real("oops"));
    assert!(!is_real("1.2.3"));
    assert!(!is_real("12a"));
    assert!(!is_real("."));
}
