use ivoirechain::lottery_draw::{DrawStatus, LotteryDraw};
use ivoirechain::money::Money;
use ivoirechain::ticket::TicketStatus;
use ivoirechain::user::{User, UserStatus};

fn nanos_of(t: chrono::DateTime<chrono::Utc>) -> i128 {
    t.timestamp() as i128 * 1_000_000_000 + t.timestamp_subsec_nanos() as i128
}

fn now_nanos() -> i128 {
    nanos_of(chrono::Utc::now())
}

fn fcfa(amount: f64) -> Money {
    Money::from_centimes((amount * 100.0).round() as i64)
}

fn in_fcfa(m: &Money) -> f64 {
    m.centimes() as f64 / 100.0
}

#[test]
fn test_new_draw() {
    let draw_date = nanos_of(chrono::Utc::now() + chrono::Duration::days(1));
    let draw = LotteryDraw::new("Test Draw".to_string(), draw_date);

    assert_eq!(draw.status, DrawStatus::Scheduled);
    assert!(draw.is_open());
    assert!(draw.winning_numbers.is_none());
}

#[test]
fn test_complete_draw() {
    let mut draw = LotteryDraw::new("Test Draw".to_string(), now_nanos());
    draw.open();
    draw.complete(vec![1, 15, 23, 34, 42, 49], "tx_hash_123".to_string());

    assert!(draw.is_completed());
    assert_eq!(draw.winning_numbers, Some(vec![1, 15, 23, 34, 42, 49]));
}

#[test]
fn test_new_user() {
    let user = User::new("+2250701234567".to_string(), "hashed".to_string());
    assert_eq!(user.balance.centimes(), 0);
    assert_eq!(user.status, UserStatus::PendingVerification);
}

#[test]
fn test_debit_credit() {
    let mut user = User::new("+2250701234567".to_string(), "hashed".to_string());

    // Credit 1000 FCFA
    user.credit(&fcfa(1000.0));
    assert_eq!(in_fcfa(&user.balance), 1000.0);

    // Debit 500 FCFA
    assert!(user.debit(&fcfa(500.0)).is_ok());
    assert_eq!(in_fcfa(&user.balance), 500.0);

    // Try to debit more than available
    assert!(user.debit(&fcfa(600.0)).is_err());
}

#[test]
fn refused_debit_tells_amounts_and_changes_nothing() {
    let mut user = User::new_at(7, 100, "+2250701234567".to_string(), "h".to_string());
    user.credit_at(&Money::from_centimes(50000), 200);
    let r = user.debit_at(&Money::from_centimes(60050), 300);
    assert_eq!(
        r,
        Err("Solde insuffisant: requis 600.5 FCFA, disponible 500 FCFA".to_string())
    );
    assert_eq!(user.balance.centimes(), 50000);
    assert_eq!(user.updated_at, 200);
    let r = user.debit_at(&Money::from_centimes(123456), 400);
    assert_eq!(
        r,
        Err("Solde insuffisant: requis 1234.56 FCFA, disponible 500 FCFA".to_string())
    );
}

#[test]
fn debit_then_credit_restores_balance() {
    let mut user = User::new_at(1, 0, "p".to_string(), "h".to_string());
    user.credit_at(&Money::from_centimes(2500), 1);
    user.debit_at(&Money::from_centimes(2500), 2).unwrap();
    assert_eq!(user.balance.centimes(), 0);
    assert_eq!(user.updated_at, 2);
    assert!(user.can_afford(&Money::zero()));
    assert!(!user.can_afford(&Money::from_centimes(1)));
}

#[test]
fn user_status_changes() {
    let mut user = User::new_at(1, 0, "p".to_string(), "h".to_string());
    assert!(!user.is_active());
    user.activate_at(5);
    assert!(user.is_active());
    assert_eq!(user.updated_at, 5);
    user.suspend();
    assert_eq!(user.status, UserStatus::Suspended);
    assert_eq!(user.status.to_string(), "suspended");
    assert_eq!(UserStatus::PendingVerification.to_string(), "pending_verification");
}

#[test]
fn new_ids_are_version_4() {
    let user = User::new("p".to_string(), "h".to_string());
    assert_eq!((user.id >> 76) & 0xf, 4);
    let draw = LotteryDraw::new("d".to_string(), 0);
    assert_eq!((draw.id >> 76) & 0xf, 4);
    assert_ne!(user.id, draw.id);
}

#[test]
fn draw_lifecycle() {
    let mut draw = LotteryDraw::new_at(9, 10, "Tirage du Samedi".to_string(), 1_000);
    assert_eq!(draw.prize_pool.centimes(), 0);
    draw.add_to_prize_pool_at(&Money::from_centimes(50000), 20);
    draw.add_to_prize_pool_at(&Money::from_centimes(50000), 30);
    assert_eq!(draw.prize_pool.centimes(), 100000);
    draw.open_at(40);
    assert_eq!(draw.status, DrawStatus::InProgress);
    assert_eq!(draw.updated_at, 40);
    draw.open_at(50);
    assert_eq!(draw.updated_at, 40);
    assert!(draw.is_open());
    assert!(draw.is_past_draw_date_at(1_001));
    assert!(!draw.is_past_draw_date_at(1_000));
    draw.cancel_at(60);
    assert!(!draw.is_open());
    assert_eq!(draw.status.to_string(), "cancelled");
    draw.open_at(70);
    assert_eq!(draw.status, DrawStatus::Cancelled);
    assert_eq!(draw.updated_at, 60);
}

#[test]
fn completed_draw_keeps_hash() {
    let mut draw = LotteryDraw::new_at(9, 10, "d".to_string(), 0);
    draw.complete_at(vec![7], "0xabc".to_string(), 11);
    assert_eq!(draw.blockchain_tx_hash, Some("0xabc".to_string()));
    assert!(!draw.is_open());
    assert_eq!(draw.status.to_string(), "completed");
    assert_eq!(DrawStatus::InProgress.to_string(), "in_progress");
    assert_eq!(TicketStatus::Won.to_string(), "won");
}

#[test]
fn money_arithmetic() {
    let a = Money::from_centimes(700);
    let b = Money::from_centimes(300);
    assert_eq!(a.add(&b).centimes(), 1000);
    assert_eq!(a.subtract(&b), Some(Money::from_centimes(400)));
    assert_eq!(b.subtract(&a), None);
    assert_eq!(Money::from_centimes(i64::MIN).subtract(&Money::from_centimes(i64::MAX)), None);
    assert!(Money::default().is_zero());
    assert!(a.is_positive());
    assert!(!Money::from_centimes(-1).is_positive());
}

#[test]
fn past_draw_dates_by_the_clock() {
    let long_ago = LotteryDraw::new_at(1, 0, "Ancien".to_string(), i128::MIN);
    assert!(long_ago.is_past_draw_date());
    let far_ahead = LotteryDraw::new_at(2, 0, "Lointain".to_string(), i128::MAX);
    assert!(!far_ahead.is_past_draw_date());
    let yesterday = LotteryDraw::new_at(3, 0, "Hier".to_string(), now_nanos() - 86_400_000_000_000);
    assert!(yesterday.is_past_draw_date());
}

#[test]
fn draw_dates_compare_to_the_nanosecond() {
    let draw = LotteryDraw::new_at(4, 0, "Midi".to_string(), 1_700_000_000_000_000_500);
    assert!(!draw.is_past_draw_date_at(1_700_000_000_000_000_500));
    assert!(draw.is_past_draw_date_at(1_700_000_000_000_000_501));
    let just_passed = LotteryDraw::new_at(5, 0, "Maintenant".to_string(), now_nanos() - 1);
    assert!(just_passed.is_past_draw_date());
}
