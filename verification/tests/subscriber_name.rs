use zero2prod::domain::subscriber_name::{blank, contains_forbidden, forbidden, white_space};
use zero2prod::domain::SubscriberName;

#[test]
fn a_256_grapheme_long_name_is_valid() {
    let name = "Ö".repeat(256);
    assert!(SubscriberName::parse(name).is_ok());
}

#[test]
fn a_name_longer_than_256_graphemes_is_rejected() {
    let name = "Ö".repeat(257);
    assert!(SubscriberName::parse(name).is_err());
}

#[test]
fn reject_whitespace_only() {
    let name = " ".to_string();
    assert!(SubscriberName::parse(name).is_err());
}

#[test]
fn reject_invalid_chars() {
    let name = "Xa>ier".to_string();
    assert!(SubscriberName::parse(name).is_err());
}

#[test]
fn sucessfully_pars_name() {
    let name = "James".to_string();
    assert!(SubscriberName::parse(name).is_ok());
}

#[test]
fn an_empty_name_is_rejected() {
    assert!(SubscriberName::parse(String::new()).is_err());
}

#[test]
fn names_of_white_space_alone_are_rejected() {
    for name in ["\t", "\n", " \t\r\n ", "\u{a0}", "\u{2003}\u{3000}", "\u{85}\u{1680}\u{2028}\u{2029}\u{202f}\u{205f}"] {
        assert!(SubscriberName::parse(name.to_string()).is_err(), "{:?}", name);
    }
}

#[test]
fn a_name_is_kept_untrimmed() {
    let name = SubscriberName::parse("  le guin ".to_string()).unwrap();
    assert_eq!(name.as_ref(), "  le guin ");
    assert_eq!(name.as_str(), "  le guin ");
}

#[test]
fn every_forbidden_character_is_rejected_anywhere() {
    for c in ['/', '(', ')', '"', '<', '>', '\\', '{', '}'] {
        assert!(forbidden(c));
        assert!(SubscriberName::parse(format!("{}Ursula", c)).is_err(), "{:?}", c);
        assert!(SubscriberName::parse(format!("Urs{}ula", c)).is_err(), "{:?}", c);
        assert!(SubscriberName::parse(format!("Ursula{}", c)).is_err(), "{:?}", c);
        assert!(SubscriberName::parse(format!("Ursula {}", c)).is_err(), "{:?}", c);
    }
}

#[test]
fn other_punctuation_is_allowed() {
    for name in ["O'Neil", "Jean-Luc", "a.b", "x[1]", "50%", "Ursula K. Le Guin", "名前"] {
        assert!(!contains_forbidden(name));
        assert!(SubscriberName::parse(name.to_string()).is_ok(), "{:?}", name);
    }
}

#[test]
fn the_refusal_names_the_text() {
    let refusal = SubscriberName::parse("Xa>ier".to_string()).unwrap_err();
    assert_eq!(refusal, "Xa>ier is not a valid subscriber name.");
    let refusal = SubscriberName::parse(String::new()).unwrap_err();
    assert_eq!(refusal, " is not a valid subscriber name.");
}

#[test]
fn length_is_counted_in_grapheme_clusters() {
    // Two characters each, one cluster each: 512 characters pass.
    let accented = "e\u{301}".repeat(256);
    assert_eq!(accented.chars().count(), 512);
    assert!(SubscriberName::parse(accented).is_ok());
    assert!(SubscriberName::parse("e\u{301}".repeat(257)).is_err());
    // A flag is two characters and one cluster.
    assert!(SubscriberName::parse("🇷🇺".repeat(256)).is_ok());
    assert!(SubscriberName::parse("🇷🇺".repeat(257)).is_err());
    // A line break of two characters is one cluster.
    assert!(SubscriberName::parse(format!("a{}", "\r\n".repeat(255))).is_ok());
    assert!(SubscriberName::parse(format!("a{}", "\r\n".repeat(256))).is_err());
}

#[test]
fn plain_names_at_the_boundary() {
    assert!(SubscriberName::parse("a".repeat(255)).is_ok());
    assert!(SubscriberName::parse("a".repeat(256)).is_ok());
    assert!(SubscriberName::parse("a".repeat(257)).is_err());
    assert!(SubscriberName::parse("a".repeat(1000)).is_err());
}

#[test]
fn a_text_of_256_spaces_is_rejected_though_short_enough() {
    assert!(SubscriberName::parse(" ".repeat(256)).is_err());
    assert!(SubscriberName::parse(format!("{}<", "a".repeat(255))).is_err());
}

#[test]
fn check_decides_on_the_count_it_is_given() {
    assert!(SubscriberName::check("James", 5));
    assert!(SubscriberName::check("James", 256));
    assert!(!SubscriberName::check("James", 257));
    assert!(!SubscriberName::check("James", usize::MAX));
    assert!(!SubscriberName::check("Xa>ier", 6));
    assert!(!SubscriberName::check(" ", 1));
    assert!(!SubscriberName::check("", 0));
}

#[test]
fn white_space_is_what_trimming_removes() {
    for code in 0..=0x10ffff_u32 {
        if let Some(c) = char::from_u32(code) {
            assert_eq!(white_space(c), c.is_whitespace(), "U+{:04X}", code);
            assert_eq!(blank(c.to_string().as_str()), c.to_string().trim().is_empty());
        }
    }
}

#[test]
fn blank_agrees_with_trimming() {
    for text in ["", " ", "  a  ", "a", "\t\n\u{3000}", " \u{200b} ", "\u{feff}", "\u{180e}", " x"] {
        assert_eq!(blank(text), text.trim().is_empty(), "{:?}", text);
    }
}

#[test]
fn parsing_a_name_twice_gives_the_same_verdict() {
    for text in ["James", "", " ", "Xa>ier", "le guin", "a/b"] {
        let first = SubscriberName::parse(text.to_string());
        let second = SubscriberName::parse(text.to_string());
        assert_eq!(first.is_ok(), second.is_ok());
        match (first, second) {
            (Ok(a), Ok(b)) => {
                assert_eq!(a.as_ref(), b.as_ref());
                assert!(SubscriberName::parse(a.as_ref().to_string()).is_ok());
            }
            (Err(a), Err(b)) => assert_eq!(a, b),
            _ => unreachable!(),
        }
    }
}
