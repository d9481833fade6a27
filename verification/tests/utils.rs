use ivoirechain::ticket_numbers::TicketNumbers;
use ivoirechain::utils::{mask_phone_number, validate_lottery_numbers};

#[test]
fn test_validate_lottery_numbers() {
    // Valid numbers
    assert!(validate_lottery_numbers(&[1, 15, 23, 34, 42, 49], 1, 49, 6).is_ok());

    // Wrong count
    assert!(validate_lottery_numbers(&[1, 15, 23], 1, 49, 6).is_err());

    // Out of range
    assert!(validate_lottery_numbers(&[0, 15, 23, 34, 42, 49], 1, 49, 6).is_err());
    assert!(validate_lottery_numbers(&[1, 15, 23, 34, 42, 50], 1, 49, 6).is_err());

    // Duplicates
    assert!(validate_lottery_numbers(&[1, 1, 23, 34, 42, 49], 1, 49, 6).is_err());
}

#[test]
fn test_mask_phone_number() {
    assert_eq!(mask_phone_number("+2250701234567"), "+225******4567");
}

#[test]
fn validation_messages() {
    assert_eq!(
        validate_lottery_numbers(&[1, 15, 23], 1, 49, 6),
        Err("Vous devez sélectionner exactement 6 numéros".to_string())
    );
    assert_eq!(
        validate_lottery_numbers(&[1, 15, 23, 34, 42, 50], 1, 49, 6),
        Err("Les numéros doivent être entre 1 et 49".to_string())
    );
    assert_eq!(
        validate_lottery_numbers(&[1, 1, 23, 34, 42, 49], 1, 49, 6),
        Err("Les numéros doivent être uniques".to_string())
    );
    // The first bad number decides: a repeat before a number out of range.
    assert_eq!(
        validate_lottery_numbers(&[2, 2, 99], 1, 49, 3),
        Err("Les numéros doivent être uniques".to_string())
    );
    // A repeated number that is out of range is reported as out of range.
    assert_eq!(
        validate_lottery_numbers(&[3, -4, -4], -3, 3, 3),
        Err("Les numéros doivent être entre -3 et 3".to_string())
    );
}

#[test]
fn short_phone_numbers_are_shown_unchanged() {
    assert_eq!(mask_phone_number("1234567"), "1234567");
    assert_eq!(mask_phone_number(""), "");
}

#[test]
fn masking_keeps_a_third_at_each_end() {
    assert_eq!(mask_phone_number("12345678"), "12****78");
    assert_eq!(mask_phone_number("123456789012"), "1234****9012");
    assert_eq!(mask_phone_number("+33612345678"), "+336****5678");
}

#[test]
fn masking_counts_bytes() {
    // "é" takes two bytes: 10 bytes, 3 visible at each end.
    assert_eq!(mask_phone_number("abcdefgh\u{e9}"), "abc****h\u{e9}");
}

#[test]
fn validation_agrees_with_ticket_numbers() {
    let selections: [&[i32]; 8] = [
        &[1, 15, 23, 34, 42, 49],
        &[49, 1, 23, 15, 42, 34],
        &[1, 15, 23],
        &[0, 15, 23, 34, 42, 49],
        &[1, 15, 23, 34, 42, 50],
        &[1, 1, 23, 34, 42, 49],
        &[2, 2, 99, 4, 5, 6],
        &[],
    ];
    for s in selections {
        assert_eq!(
            validate_lottery_numbers(s, 1, 49, 6).is_ok(),
            TicketNumbers::with_config(s.to_vec(), 1, 49, 6).is_ok(),
            "selection {:?}",
            s
        );
    }
}
