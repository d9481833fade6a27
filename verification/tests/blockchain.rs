use ivoirechain::blockchain::{
    container_listed, current_round_from_query, draw_results_args, end_round_args,
    health_answer, health_response_ok, invoke_result, numbers_json_text, query_result,
    round_from_query, route, started_round_id, ticket_from_query, ticket_purchase_args,
    tx_hash_from_invoke_output, wallet_args, wallet_from_query, ChaincodeResponse,
    HyperledgerAdapter, LedgerOp, MockLedger, Route,
};
use ivoirechain::config::Config;
use ivoirechain::errors::InfrastructureError;
use ivoirechain::services::{RoundOnChain, WalletOnChain};

fn create_test_config() -> Config {
    Config {
        hyperledger_peer_url: "mock".to_string(),
        hyperledger_channel_name: "lotterychannel".to_string(),
        hyperledger_chaincode_name: "lottery".to_string(),
        ..Default::default()
    }
}

fn new_id() -> u128 {
    uuid::Uuid::new_v4().as_u128()
}

#[test]
fn test_mock_record_ticket() {
    let config = create_test_config();
    let mut adapter = HyperledgerAdapter::new(&config);
    assert!(adapter.mock_mode);

    let ticket_id = new_id();
    let user_id = new_id();
    let draw_id = "ROUND_TEST_123".to_string();
    let numbers = vec![5, 12, 23, 34, 45];

    let tx_hash = adapter
        .ledger
        .record_ticket_purchase(ticket_id, user_id, &numbers, draw_id);

    assert!(tx_hash.starts_with("0x"));
    assert_eq!(tx_hash.len(), 34);
}

#[test]
fn test_mock_verify_ticket() {
    let config = create_test_config();
    let mut adapter = HyperledgerAdapter::new(&config);

    let ticket_id = new_id();
    let user_id = new_id();
    let draw_id = "ROUND_TEST_123".to_string();
    let numbers = vec![1, 2, 3, 4, 5];

    // Record a ticket first
    let _ = adapter
        .ledger
        .record_ticket_purchase(ticket_id, user_id, &numbers, draw_id);

    // Now verify it
    let ticket = adapter.ledger.verify_ticket(ticket_id);
    assert!(ticket.is_some());
    assert_eq!(ticket.unwrap().numbers, numbers);
    assert_eq!(ticket.unwrap().user_id, user_id);
    assert!(adapter.ledger.verify_ticket(new_id()).is_none());
}

#[test]
fn test_mock_record_draw_results() {
    let config = create_test_config();
    let mut adapter = HyperledgerAdapter::new(&config);

    let draw_id = new_id();
    let winning_numbers = vec![7, 14, 21, 28, 35];

    let tx_hash = adapter.ledger.record_draw_results(draw_id, &winning_numbers);
    assert!(tx_hash.starts_with("0x"));

    // Verify transaction
    assert!(adapter.ledger.verify_transaction(&tx_hash));
}

#[test]
fn unknown_or_malformed_hashes_are_not_verified() {
    let mut ledger = MockLedger::new();
    let tx = ledger.record_ticket_purchase(1, 2, &[1], "d".to_string());
    assert!(ledger.verify_transaction(&tx));
    assert!(!ledger.verify_transaction("0x1234567890abcdef"));
    assert!(!ledger.verify_transaction("0x12"));
    assert!(!ledger.verify_transaction(&tx[2..]));
}

#[test]
fn mock_mode_follows_peer_url() {
    let mut config = create_test_config();
    for url in ["", "mock", "localhost:7051"] {
        config.hyperledger_peer_url = url.to_string();
        assert!(HyperledgerAdapter::new(&config).mock_mode);
    }
    config.hyperledger_peer_url = "grpc://localhost:7051".to_string();
    let adapter = HyperledgerAdapter::new(&config);
    assert!(!adapter.mock_mode);
    assert_eq!(adapter.cli_container, "ivoirechain-cli");
    assert_eq!(adapter.channel_name, "lotterychannel");
}

#[test]
fn wallet_deposit_withdraw() {
    let mut ledger = MockLedger::new();
    let user = 0x0123456789abcdef0123456789abcdefu128;
    let w = ledger.get_wallet_balance(user);
    assert_eq!(w.user_id, "01234567-89ab-cdef-0123-456789abcdef");
    assert_eq!(w.balance_centimes, 0);
    assert!(!w.exists);

    assert_eq!(
        ledger.create_wallet(user),
        "{\"userId\":\"01234567-89ab-cdef-0123-456789abcdef\",\"balanceCentimes\":0}"
    );
    assert_eq!(
        ledger.deposit(user, 5000),
        "{\"userId\":\"01234567-89ab-cdef-0123-456789abcdef\",\"balanceCentimes\":5000}"
    );
    match ledger.withdraw(user, 6000) {
        Err(InfrastructureError::Blockchain(m)) => {
            assert_eq!(m, "Insufficient balance: have 5000, need 6000")
        }
        other => panic!("unexpected: {:?}", other),
    }
    assert_eq!(
        ledger.withdraw(user, 5000).unwrap(),
        "{\"userId\":\"01234567-89ab-cdef-0123-456789abcdef\",\"balanceCentimes\":0}"
    );
    let w = ledger.get_wallet_balance(user);
    assert!(w.exists);
    assert_eq!(w.balance_centimes, 0);
}

#[test]
fn refused_withdrawal_creates_missing_wallet() {
    let mut ledger = MockLedger::new();
    assert!(ledger.withdraw(42, 1).is_err());
    assert!(ledger.get_wallet_balance(42).exists);
    ledger.deposit(42, 300);
    ledger.create_wallet(42);
    assert_eq!(ledger.get_wallet_balance(42).balance_centimes, 0);
}

#[test]
fn rounds_open_close_end() {
    let mut ledger = MockLedger::new();
    assert!(ledger.get_current_round().is_none());
    ledger.open_round_at("R1".to_string(), 3600, 1_700_000_000);
    let r = ledger.get_round("R1").unwrap();
    assert_eq!(r.status, "OPEN");
    assert_eq!(r.start_time, "1700000000");
    assert_eq!(r.end_time, "1700003600");
    assert_eq!(ledger.get_current_round().unwrap().round_id, "R1");

    let tx = ledger.close_round("R1");
    assert!(tx.starts_with("0x"));
    assert_eq!(ledger.get_round("R1").unwrap().status, "CLOSED");
    assert!(ledger.get_current_round().is_none());

    ledger.end_round("R1", &[3, 9]);
    let r = ledger.get_round("R1").unwrap();
    assert_eq!(r.status, "FINISHED");
    assert_eq!(r.winning_numbers, Some(vec![3, 9]));
    assert_eq!(r.start_time, "1700000000");

    ledger.close_round("missing");
    assert!(ledger.get_round("missing").is_none());
}

#[test]
fn started_round_is_current() {
    let mut ledger = MockLedger::new();
    let (tx, round_id) = ledger.start_round(60).unwrap();
    assert!(tx.starts_with("0x"));
    assert_eq!(round_id.len(), 36);
    assert_eq!(ledger.get_current_round().unwrap().round_id, round_id);
    assert!(ledger.start_round(i64::MAX).is_err());
}

#[test]
fn tx_hash_from_peer_output() {
    let out = b"2024 INFO [chaincodeCmd] ClientWait -> txid [abc123] committed with status (VALID)";
    assert_eq!(tx_hash_from_invoke_output(out), "0xabc123");
    assert_eq!(tx_hash_from_invoke_output(b"no id"), "0x6e6f206964");
    assert_eq!(
        tx_hash_from_invoke_output(b"0123456789abcdefXYZ"),
        "0x30313233343536373839616263646566"
    );
    assert_eq!(
        tx_hash_from_invoke_output(b"txid [x] pending"),
        "0x74786964205b785d2070656e64696e67"
    );
}

fn response(user: Option<&str>, ts: Option<&str>) -> ChaincodeResponse {
    ChaincodeResponse {
        tx_hash: Some("0xfeed".to_string()),
        ticket_id: None,
        user_id: user.map(|s| s.to_string()),
        numbers: Some(vec![4, 8]),
        draw_id: Some("D1".to_string()),
        timestamp: ts.map(|s| s.to_string()),
        status: None,
    }
}

#[test]
fn ticket_query_answers() {
    let t = ticket_from_query(
        5,
        "{...}",
        Some(response(Some("01234567-89ab-cdef-0123-456789abcdef"), Some("-17"))),
    )
    .unwrap();
    assert_eq!(t.ticket_id, 5);
    assert_eq!(t.user_id, 0x0123456789abcdef0123456789abcdefu128);
    assert_eq!(t.timestamp, -17);
    assert_eq!(t.numbers, vec![4, 8]);

    let t = ticket_from_query(5, "{...}", Some(response(Some("bad"), Some("12x")))).unwrap();
    assert_eq!(t.user_id, 0);
    assert_eq!(t.timestamp, 0);

    assert!(ticket_from_query(5, " \n\t", Some(response(None, None))).is_none());
    assert!(ticket_from_query(5, "ticket does not exist", Some(response(Some("x"), None))).is_none());
    assert!(ticket_from_query(5, "{...}", Some(response(None, None))).is_none());
    assert!(ticket_from_query(5, "{...}", None).is_none());
}

#[test]
fn round_query_answers() {
    let round = RoundOnChain {
        round_id: "R".to_string(),
        status: "OPEN".to_string(),
        start_time: "1".to_string(),
        end_time: "2".to_string(),
        winning_numbers: None,
    };
    assert!(round_from_query("  ", Some(round.clone())).is_none());
    assert!(round_from_query("round R does not exist", Some(round.clone())).is_none());
    assert_eq!(round_from_query("{}", Some(round.clone())).unwrap().round_id, "R");
    assert!(current_round_from_query("", Some(round.clone())).is_none());
    assert!(current_round_from_query("{}", Some(round)).is_some());
}

#[test]
fn health_answers() {
    assert!(health_response_ok("status: OK"));
    assert!(health_response_ok("{\"status\":\"healthy\"}"));
    assert!(!health_response_ok("ok"));
    assert!(!health_response_ok(""));
}

#[test]
fn recording_a_purchase_keeps_other_tickets() {
    let mut ledger = MockLedger::new();
    let first = ledger.record_ticket_purchase(1, 10, &[3, 5, 8], "R1".to_string());
    let second = ledger.record_ticket_purchase(2, 20, &[13, 21], "R2".to_string());
    let t1 = ledger.verify_ticket(1).unwrap();
    assert_eq!((t1.user_id, t1.draw_id.as_str(), t1.numbers.clone()), (10, "R1", vec![3, 5, 8]));
    assert_eq!(t1.tx_hash, first);
    let t2 = ledger.verify_ticket(2).unwrap();
    assert_eq!((t2.user_id, t2.draw_id.as_str(), t2.numbers.clone()), (20, "R2", vec![13, 21]));
    assert!(ledger.verify_transaction(&first));
    assert!(ledger.verify_transaction(&second));
}

#[test]
fn test_mock_health_check() {
    let config = create_test_config();
    let adapter = HyperledgerAdapter::new(&config);
    assert!(health_answer(adapter.mock_mode, false, None));
}

#[test]
fn health_on_a_real_network() {
    assert!(!health_answer(false, false, None));
    assert!(!health_answer(false, false, Some("OK")));
    assert!(!health_answer(false, true, None));
    assert!(!health_answer(false, true, Some("down")));
    assert!(health_answer(false, true, Some("status: healthy")));
}

#[test]
fn routes_of_the_operations() {
    assert_eq!(
        route(LedgerOp::VerifyTicket, false),
        Route { try_network: true, needs_container: true, falls_back: true }
    );
    assert_eq!(
        route(LedgerOp::RecordTicketPurchase, false),
        Route { try_network: true, needs_container: true, falls_back: false }
    );
    assert_eq!(
        route(LedgerOp::StartRound, false),
        Route { try_network: true, needs_container: false, falls_back: false }
    );
    assert_eq!(
        route(LedgerOp::Deposit, false),
        Route { try_network: true, needs_container: false, falls_back: true }
    );
    assert!(!route(LedgerOp::GetWalletBalance, true).try_network);
}

#[test]
fn round_id_after_a_start() {
    let read_back = RoundOnChain {
        round_id: "R-7".to_string(),
        status: "OPEN".to_string(),
        start_time: "0".to_string(),
        end_time: "60".to_string(),
        winning_numbers: None,
    };
    assert_eq!(started_round_id(Some(read_back)), "R-7");
    let fresh = started_round_id(None);
    let parsed = uuid::Uuid::parse_str(&fresh).unwrap();
    assert_eq!(parsed.get_version_num(), 4);
    assert_eq!(parsed.to_string(), fresh);
}

#[test]
fn started_round_lasts_its_duration() {
    let mut ledger = MockLedger::new();
    let (_, id) = ledger.start_round(3600).unwrap();
    let round = ledger.get_round(&id).unwrap();
    let start: i64 = round.start_time.parse().unwrap();
    let end: i64 = round.end_time.parse().unwrap();
    assert_eq!(end - start, 3600);
    match ledger.start_round(i64::MAX) {
        Err(InfrastructureError::Blockchain(m)) => assert_eq!(m, "round end time out of range"),
        other => panic!("unexpected: {:?}", other),
    }
}

#[test]
fn started_round_times_parse_back() {
    let mut ledger = MockLedger::new();
    let (_, id) = ledger.start_round(-120).unwrap();
    let round = ledger.get_round(&id).unwrap();
    assert_eq!(round.round_id, id);
    assert_eq!(round.status, "OPEN");
    assert!(round.winning_numbers.is_none());
    let start: i64 = round.start_time.parse().unwrap();
    let end: i64 = round.end_time.parse().unwrap();
    assert_eq!(end, start - 120);
    assert!(ledger.get_round("never started").is_none());
}

#[test]
fn peer_command_results() {
    let ok = invoke_result(true, b"txid [abc123] committed with status (VALID)", b"");
    assert_eq!(ok.unwrap(), "0xabc123");
    match invoke_result(false, b"", b"Error: endorsement failure") {
        Err(InfrastructureError::Blockchain(m)) => {
            assert_eq!(m, "Chaincode invoke failed: Error: endorsement failure")
        }
        other => panic!("unexpected: {:?}", other),
    }
    assert_eq!(query_result(true, b"{\"status\":\"OK\"}", b"").unwrap(), "{\"status\":\"OK\"}");
    match query_result(false, b"", b"no peer") {
        Err(InfrastructureError::Blockchain(m)) => assert_eq!(m, "Chaincode query failed: no peer"),
        other => panic!("unexpected: {:?}", other),
    }
}

#[test]
fn chaincode_arguments() {
    let numbers = [5, -12, 23];
    assert_eq!(numbers_json_text(&numbers), serde_json::to_string(&numbers).unwrap());
    assert_eq!(numbers_json_text(&[]), "[]");
    let ticket = 0x0123456789abcdef0123456789abcdefu128;
    let args = ticket_purchase_args(ticket, 1, &numbers, "ROUND_1", 2);
    assert_eq!(
        args,
        vec![
            uuid::Uuid::from_u128(ticket).to_string(),
            uuid::Uuid::from_u128(1).to_string(),
            "[5,-12,23]".to_string(),
            "ROUND_1".to_string(),
            "500".to_string(),
            uuid::Uuid::from_u128(2).to_string(),
        ]
    );
    let before = chrono::Utc::now().timestamp();
    let args = draw_results_args(3, &[7, 14]);
    let after = chrono::Utc::now().timestamp();
    assert_eq!(args[0], uuid::Uuid::from_u128(3).to_string());
    assert_eq!(args[1], "[7,14]");
    let time = chrono::NaiveDateTime::parse_from_str(&args[2], "%Y-%m-%dT%H:%M:%SZ")
        .unwrap()
        .and_utc()
        .timestamp();
    assert!(before <= time && time <= after);
    assert!(args[2].ends_with('Z') && args[2].len() == 20);
    assert_eq!(end_round_args("R-1", &[1]), vec!["R-1".to_string(), "[1]".to_string()]);
    assert_eq!(
        wallet_args(4, -250, "ref"),
        vec![uuid::Uuid::from_u128(4).to_string(), "-250".to_string(), "ref".to_string()]
    );
}

#[test]
fn container_listing() {
    assert!(container_listed(b"ivoirechain-cli\n", "ivoirechain-cli"));
    assert!(container_listed(b"peer0\nivoirechain-cli\n", "ivoirechain-cli"));
    assert!(!container_listed(b"", "ivoirechain-cli"));
    assert!(!container_listed(b"ivoirechain-peer\n", "ivoirechain-cli"));
}

#[test]
fn only_recorded_hashes_verify() {
    let mut ledger = MockLedger::new();
    let stray = "0x0123456789abcdef0123456789abcdef";
    assert!(!ledger.verify_transaction(stray));
    let first = ledger.record_ticket_purchase(1, 2, &[1, 2], "R".to_string());
    let draw = ledger.record_draw_results(9, &[4]);
    assert!(ledger.verify_transaction(&first));
    assert!(ledger.verify_transaction(&draw));
    assert!(!ledger.verify_transaction(stray));
    // Recording the same ticket again replaces its entry: the old hash no
    // longer verifies.
    let second = ledger.record_ticket_purchase(1, 2, &[1, 2], "R".to_string());
    assert!(!ledger.verify_transaction(&first));
    assert!(ledger.verify_transaction(&second));
}

#[test]
fn wallet_answer_falls_back_to_the_ledger() {
    let mut ledger = MockLedger::new();
    ledger.deposit(7, 900);
    let local = wallet_from_query(None, &ledger, 7);
    assert_eq!((local.balance_centimes, local.exists), (900, true));
    assert_eq!(local.user_id, uuid::Uuid::from_u128(7).to_string());
    let remote = WalletOnChain { user_id: "u".to_string(), balance_centimes: 5, exists: true };
    let got = wallet_from_query(Some(remote), &ledger, 7);
    assert_eq!((got.user_id.as_str(), got.balance_centimes), ("u", 5));
}

#[test]
fn new_ids_and_hashes_are_version_4() {
    let mut ledger = MockLedger::new();
    let h = ledger.record_draw_results(1, &[2]);
    let u = uuid::Uuid::parse_str(&h[2..]).unwrap();
    assert_eq!(u.get_version_num(), 4);
    assert_eq!(u.get_variant(), uuid::Variant::RFC4122);
    let (_, id) = ledger.start_round(60).unwrap();
    let r = uuid::Uuid::parse_str(&id).unwrap();
    assert_eq!(r.get_version_num(), 4);
    assert_eq!(r.get_variant(), uuid::Variant::RFC4122);
}
