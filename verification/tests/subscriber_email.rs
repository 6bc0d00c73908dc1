use fake::faker::internet::en::SafeEmail;
use fake::Fake;
use zero2prod::domain::subscriber_email::address_shaped;
use zero2prod::domain::SubscriberEmail;

#[test]
fn empty_string_is_rejected() {
    let email = "".to_string();
    assert!(SubscriberEmail::parse(email).is_err());
}

#[test]
fn missing_at_symbol_is_rejected() {
    let email = "jaydomain.com".to_string();
    assert!(SubscriberEmail::parse(email).is_err());
}

#[test]
fn missing_subject_is_rejected() {
    let email = "@google.com".to_string();
    assert!(SubscriberEmail::parse(email).is_err());
}

#[test]
fn valid_emails_are_parsed_succesfully() {
    let email = SafeEmail().fake();
    assert!(SubscriberEmail::parse(email).is_ok());
}

#[test]
fn a_plain_address_is_accepted_and_kept() {
    let email = SubscriberEmail::parse("user@example.com".to_string()).unwrap();
    assert_eq!(email.as_ref(), "user@example.com");
    assert_eq!(email.as_str(), "user@example.com");
    let email = SubscriberEmail::parse("ursula_le_guin@gmail.com".to_string()).unwrap();
    assert_eq!(email.as_ref(), "ursula_le_guin@gmail.com");
}

#[test]
fn an_address_without_an_at_is_rejected() {
    for text in ["abc", "user.example.com", "user example.com", "."] {
        assert!(SubscriberEmail::parse(text.to_string()).is_err(), "{:?}", text);
    }
}

#[test]
fn a_domain_without_a_dot_is_rejected() {
    for text in ["abc@bar", "user@localhost", "a.b@c", "user@", "email@[2001:dB8::1]"] {
        assert!(SubscriberEmail::parse(text.to_string()).is_err(), "{:?}", text);
    }
}

#[test]
fn an_address_that_the_syntax_check_refuses_is_rejected() {
    for text in [
        "yes@%",
        "a @x.cz",
        "abc@.com",
        "something@@somewhere.com",
        "example@invalid-.com",
        "John.Doe@exam_ple.com",
        "trailingdot@shouldfail.com.",
        "a@b.com\n",
        "\"test@test\"@example.com",
    ] {
        assert!(SubscriberEmail::parse(text.to_string()).is_err(), "{:?}", text);
    }
}

#[test]
fn addresses_that_the_syntax_check_accepts() {
    for text in [
        "email@here.com",
        "weirder-email@here.and.there.com",
        "!def!xyz%abc@example.com",
        "email@[127.0.0.1]",
        "email@127.0.0.1",
        "example@valid-with-hyphens.com",
    ] {
        assert!(SubscriberEmail::parse(text.to_string()).is_ok(), "{:?}", text);
    }
}

#[test]
fn parts_that_are_too_long_are_rejected() {
    let local = "a".repeat(65);
    assert!(SubscriberEmail::parse(format!("{}@mail.com", local)).is_err());
    let local = "a".repeat(64);
    assert!(SubscriberEmail::parse(format!("{}@mail.com", local)).is_ok());
}

#[test]
fn the_refusal_names_the_address() {
    let refusal = SubscriberEmail::parse("jaydomain.com".to_string()).unwrap_err();
    assert_eq!(refusal, "jaydomain.com is not a valid subscriber email.");
    let refusal = SubscriberEmail::parse(String::new()).unwrap_err();
    assert_eq!(refusal, " is not a valid subscriber email.");
}

#[test]
fn the_shape_of_an_address() {
    assert!(address_shaped("user@example.com"));
    assert!(address_shaped("a@b.c"));
    assert!(address_shaped("a@b@c.d"));
    assert!(address_shaped("a@."));
    assert!(!address_shaped(""));
    assert!(!address_shaped("@"));
    assert!(!address_shaped("user"));
    assert!(!address_shaped("user@"));
    assert!(!address_shaped("user@example"));
    assert!(!address_shaped("@example.com"));
    assert!(!address_shaped("us.er@example"));
    assert!(!address_shaped("a.b@c.d@e"));
}

#[test]
fn check_decides_on_the_verdict_it_is_given() {
    assert!(SubscriberEmail::check("user@example.com", true));
    assert!(!SubscriberEmail::check("user@example.com", false));
    assert!(!SubscriberEmail::check("user@example", true));
    assert!(!SubscriberEmail::check("@example.com", true));
    assert!(!SubscriberEmail::check("example.com", true));
    assert!(!SubscriberEmail::check("", false));
}

#[test]
fn parsing_an_address_twice_gives_the_same_verdict() {
    for text in ["user@example.com", "", "yes@%", "abc@bar", "@google.com", "jaydomain.com"] {
        let first = SubscriberEmail::parse(text.to_string());
        let second = SubscriberEmail::parse(text.to_string());
        assert_eq!(first.is_ok(), second.is_ok());
        match (first, second) {
            (Ok(a), Ok(b)) => {
                assert_eq!(a.as_ref(), b.as_ref());
                assert!(SubscriberEmail::parse(a.as_ref().to_string()).is_ok());
            }
            (Err(a), Err(b)) => assert_eq!(a, b),
            _ => unreachable!(),
        }
    }
}
