use ivoirechain::errors::DomainError;
use ivoirechain::ticket_numbers::TicketNumbers;

fn message(r: Result<TicketNumbers, DomainError>) -> String {
    match r {
        Err(DomainError::InvalidTicketNumbers(m)) => m,
        other => panic!("unexpected: {:?}", other),
    }
}

#[test]
fn test_valid_numbers() {
    let nums = TicketNumbers::new(vec![1, 15, 23, 34, 42, 49]);
    assert!(nums.is_ok());

    let nums = nums.unwrap();
    assert_eq!(nums.as_slice(), &[1, 15, 23, 34, 42, 49]);
}

#[test]
fn test_numbers_are_sorted() {
    let nums = TicketNumbers::new(vec![49, 1, 23, 15, 42, 34]).unwrap();
    assert_eq!(nums.as_slice(), &[1, 15, 23, 34, 42, 49]);
}

#[test]
fn test_invalid_count() {
    let nums = TicketNumbers::new(vec![1, 2, 3]);
    assert!(nums.is_err());
}

#[test]
fn test_duplicates() {
    let nums = TicketNumbers::new(vec![1, 1, 23, 34, 42, 49]);
    assert!(nums.is_err());
}

#[test]
fn test_out_of_range() {
    let nums = TicketNumbers::new(vec![0, 15, 23, 34, 42, 49]);
    assert!(nums.is_err());

    let nums = TicketNumbers::new(vec![1, 15, 23, 34, 42, 50]);
    assert!(nums.is_err());
}

#[test]
fn test_count_matches() {
    let nums = TicketNumbers::new(vec![1, 15, 23, 34, 42, 49]).unwrap();
    let winning = vec![1, 23, 42, 7, 8, 9];

    assert_eq!(nums.count_matches(&winning), 3);
    assert_eq!(nums.get_matches(&winning), vec![1, 23, 42]);
}

#[test]
fn count_message_names_both_sizes() {
    let m = message(TicketNumbers::new(vec![1, 2, 3]));
    assert_eq!(m, "Vous devez sélectionner exactement 6 numéros, 3 fournis");
}

#[test]
fn repeat_message_names_first_repeated_number() {
    let m = message(TicketNumbers::new(vec![5, 9, 9, 5, 60, 1]));
    assert_eq!(m, "Numéro en double: 9");
}

#[test]
fn repeat_is_reported_before_range() {
    let m = message(TicketNumbers::new(vec![0, 0, 3, 4, 5, 6]));
    assert_eq!(m, "Numéro en double: 0");
}

#[test]
fn range_message_names_first_number_out_of_range() {
    let m = message(TicketNumbers::new(vec![1, 15, -3, 34, 50, 49]));
    assert_eq!(m, "Le numéro -3 est hors de la plage 1-49");
}

#[test]
fn custom_configuration() {
    let t = TicketNumbers::with_config(vec![10, -5, 0], -10, 10, 3).unwrap();
    assert_eq!(t.to_vec(), vec![-5, 0, 10]);
    let m = message(TicketNumbers::with_config(vec![11, 0], -10, 10, 2));
    assert_eq!(m, "Le numéro 11 est hors de la plage -10-10");
    let m = message(TicketNumbers::with_config(vec![], 1, 49, 1));
    assert_eq!(m, "Vous devez sélectionner exactement 1 numéros, 0 fournis");
}

#[test]
fn contains_and_display() {
    let t = TicketNumbers::new(vec![49, 1, 23, 15, 42, 34]).unwrap();
    assert!(t.contains(23));
    assert!(!t.contains(24));
    assert_eq!(t.to_string(), "[1, 15, 23, 34, 42, 49]");
    let single = TicketNumbers::with_config(vec![-7], -10, 10, 1).unwrap();
    assert_eq!(single.to_string(), "[-7]");
    let empty = TicketNumbers::with_config(vec![], 1, 49, 0).unwrap();
    assert_eq!(empty.to_string(), "[]");
}

#[test]
fn matches_count_equals_listed_matches() {
    let t = TicketNumbers::new(vec![3, 6, 9, 12, 15, 18]).unwrap();
    let other = [18, 3, 3, 7];
    assert_eq!(t.get_matches(&other), vec![3, 18]);
    assert_eq!(t.count_matches(&other), t.get_matches(&other).len());
    assert_eq!(t.count_matches(&[]), 0);
}

#[test]
fn clone_keeps_numbers() {
    let t = TicketNumbers::new(vec![6, 5, 4, 3, 2, 1]).unwrap();
    let c = t.clone();
    assert_eq!(c, t);
    assert_eq!(c.as_slice(), &[1, 2, 3, 4, 5, 6]);
}
