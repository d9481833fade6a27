use ivoirechain::money::Money;
use ivoirechain::payments::{
    MtnMobileMoneyProvider, OrangeMoneyProvider, PaymentRequest, PaymentStatus, WaveProvider,
};

fn request() -> PaymentRequest {
    PaymentRequest {
        transaction_id: 0x0123456789abcdef0123456789abcdefu128,
        phone_number: "+2250701234567".to_string(),
        amount: Money::from_centimes(100000),
        description: "Dépôt".to_string(),
    }
}

#[test]
fn mtn_stubs() {
    let p = MtnMobileMoneyProvider::new("https://api", "sub", "user", "key", "sandbox");
    assert_eq!(p.name(), "MTN Mobile Money CI");
    assert!(p.is_available());
    let r = p.initiate_deposit(request()).unwrap();
    assert_eq!(r.provider_ref, "MTN-STUB-01234567-89ab-cdef-0123-456789abcdef");
    assert_eq!(r.status, PaymentStatus::Pending);
    let r = p.initiate_withdrawal(request()).unwrap();
    assert_eq!(r.provider_ref, "MTN-STUB-W-01234567-89ab-cdef-0123-456789abcdef");
    let r = p.check_status("REF").unwrap();
    assert_eq!(r.provider_ref, "REF");
    assert_eq!(r.message.unwrap(), "Stub: Vérification de statut non implémentée");
    assert!(!p.verify_webhook_signature(b"payload", "sig"));
}

#[test]
fn orange_stubs() {
    let p = OrangeMoneyProvider::new("https://api", "merchant", "", "secret");
    assert_eq!(p.name(), "Orange Money CI");
    assert!(!p.is_available());
    let r = p.initiate_deposit(request()).unwrap();
    assert_eq!(r.provider_ref, "OM-STUB-01234567-89ab-cdef-0123-456789abcdef");
    assert_eq!(
        r.message.unwrap(),
        "Stub: En attente de l'implémentation API Orange Money"
    );
    assert_eq!(
        p.initiate_withdrawal(request()).unwrap().provider_ref,
        "OM-STUB-W-01234567-89ab-cdef-0123-456789abcdef"
    );
}

#[test]
fn wave_stubs() {
    let p = WaveProvider::new("https://api", "key", "secret");
    assert_eq!(p.name(), "Wave");
    assert!(p.is_available());
    assert_eq!(
        p.initiate_deposit(request()).unwrap().provider_ref,
        "WAVE-STUB-01234567-89ab-cdef-0123-456789abcdef"
    );
    assert_eq!(
        p.initiate_withdrawal(request()).unwrap().provider_ref,
        "WAVE-STUB-W-01234567-89ab-cdef-0123-456789abcdef"
    );
    assert_eq!(p.check_status("W").unwrap().status, PaymentStatus::Pending);
}
