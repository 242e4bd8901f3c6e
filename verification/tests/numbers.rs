use spwn_lang::text::is_float_text;

#[test]
fn number_literals() {
    for text in ["0", "1", "10", "1.5", "0.25", "007", "1.", ".5", "1e5", "1E5", "1e+5", "1.5e-3"] {
        assert!(is_float_text(text), "{:?}", text);
    }
}

#[test]
fn signed_and_special_numbers() {
    for text in ["+1", "-1", "-.5", "inf", "-inf", "+Infinity", "NaN", "nan", "iNfInItY"] {
        assert!(is_float_text(text), "{:?}", text);
    }
}

#[test]
fn text_that_is_no_float() {
    let texts = [
        "", "+", "-", ".", "+.", "e5", "1e", "1e+", "1e5.", "1.5.2", "1..2", "--1", "1 ", " 1",
        "1_000", "0x10", "infinit", "infinityy", "na", "nanx", "1f", "１",
    ];
    for text in texts {
        assert!(!is_float_text(text), "{:?}", text);
    }
}

/// Every text of at most `length` characters taken from `alphabet`.
fn texts(alphabet: &[char], length: usize) -> Vec<String> {
    let mut all = vec![String::new()];
    let mut last = vec![String::new()];
    for _ in 0..length {
        let mut next = Vec::new();
        for text in &last {
            for c in alphabet {
                let mut longer = text.clone();
                longer.push(*c);
                next.push(longer);
            }
        }
        all.extend(next.iter().cloned());
        last = next;
    }
    all
}

#[test]
fn float_reader_agrees_with_std_on_number_shapes() {
    for text in texts(&['+', '-', '.', 'e', 'E', '0', '7', 'x'], 6) {
        assert_eq!(is_float_text(&text), text.parse::<f64>().is_ok(), "{:?}", text);
    }
}

#[test]
fn float_reader_agrees_with_std_on_words() {
    for text in texts(&['-', 'i', 'n', 'f', 'a', 'N', 'I', '1'], 5) {
        assert_eq!(is_float_text(&text), text.parse::<f64>().is_ok(), "{:?}", text);
    }
    for word in ["infinity", "INFINITY", "Infinity", "infinitY", "infinite", "infinit", "nfinity"] {
        for sign in ["", "+", "-", "++"] {
            let text = format!("{}{}", sign, word);
            assert_eq!(is_float_text(&text), text.parse::<f64>().is_ok(), "{:?}", text);
        }
    }
}
