use ivoirechain::config::{Config, ConfigVars};
use ivoirechain::dto::{BuyTicketResquest, LoginRequest, RegisterRequest, UpdateProfileRequest};

#[test]
fn server_address_and_price() {
    let config = Config {
        server_host: "127.0.0.1".to_string(),
        server_port: 3000,
        ticket_price_fcfa: 500,
        ..Default::default()
    };
    assert_eq!(config.server_address(), "127.0.0.1:3000");
    assert_eq!(config.ticket_price_centimes(), 50000);
}

#[test]
fn login_validation() {
    let ok = LoginRequest { phone_number: "+2250701".to_string(), password: "secret".to_string() };
    assert_eq!(ok.validate(), Ok(()));
    let bad = LoginRequest { phone_number: "+225".to_string(), password: "12345".to_string() };
    assert_eq!(
        bad.validate(),
        Err(vec!["phone_number".to_string(), "password".to_string()])
    );
    let long = RegisterRequest {
        phone_number: "123456789012345678901".to_string(),
        password: "longenough".to_string(),
    };
    assert_eq!(long.validate(), Err(vec!["phone_number".to_string()]));
    // Characters are counted, not bytes.
    let accents = RegisterRequest { phone_number: "éééééééé".to_string(), password: "éééééé".to_string() };
    assert_eq!(accents.validate(), Ok(()));
}

#[test]
fn ticket_and_profile_validation() {
    let t = BuyTicketResquest { lottery_draw_id: 1, numbers: vec![] };
    assert_eq!(t.validate(), Err(vec!["numbers".to_string()]));
    let t = BuyTicketResquest { lottery_draw_id: 1, numbers: vec![1, 2, 3, 4, 5, 6] };
    assert_eq!(t.validate(), Ok(()));
    let t = BuyTicketResquest { lottery_draw_id: 1, numbers: vec![1, 2, 3, 4, 5, 6, 7] };
    assert!(t.validate().is_err());
    assert_eq!(UpdateProfileRequest { phone_number: None }.validate(), Ok(()));
    assert_eq!(
        UpdateProfileRequest { phone_number: Some("1".to_string()) }.validate(),
        Err(vec!["phone_number".to_string()])
    );
}

fn required() -> ConfigVars {
    ConfigVars {
        database_url: Some("postgres://localhost/lottery".to_string()),
        jwt_secret: Some("secret".to_string()),
        ..Default::default()
    }
}

#[test]
fn configuration_defaults() {
    let c = Config::from_vars(&required()).unwrap();
    assert_eq!(c.server_host, "127.0.0.1");
    assert_eq!(c.server_port, 3000);
    assert_eq!(c.database_url, "postgres://localhost/lottery");
    assert_eq!(c.database_max_connections, 10);
    assert_eq!(c.redis_url, "redis://localhost:6379");
    assert_eq!(c.jwt_secret, "secret");
    assert_eq!(c.jwt_expiration_hours, 24);
    assert_eq!((c.argon2_memory_cost, c.argon2_time_cost, c.argon2_parallelism), (65536, 3, 4));
    assert_eq!(c.hyperledger_peer_url, "grpc://localhost:7051");
    assert_eq!(c.hyperledger_channel_name, "lottery-channel");
    assert_eq!(c.hyperledger_chaincode_name, "lottery-contract");
    assert_eq!(c.ticket_price_fcfa, 500);
    assert_eq!(c.max_numbers_per_ticket, 6);
    assert_eq!((c.number_range_min, c.number_range_max), (1, 49));
    assert_eq!(c.server_address(), "127.0.0.1:3000");
}

#[test]
fn configuration_values() {
    let vars = ConfigVars {
        server_host: Some("0.0.0.0".to_string()),
        server_port: Some("+8080".to_string()),
        jwt_expiration_hours: Some("-1".to_string()),
        number_range_min: Some("-5".to_string()),
        hyperledger_peer_url: Some("mock".to_string()),
        ..required()
    };
    let c = Config::from_vars(&vars).unwrap();
    assert_eq!(c.server_address(), "0.0.0.0:8080");
    assert_eq!(c.jwt_expiration_hours, -1);
    assert_eq!(c.number_range_min, -5);
    assert_eq!(c.hyperledger_peer_url, "mock");
}

#[test]
fn configuration_errors() {
    let no_url = ConfigVars { database_url: None, ..required() };
    assert_eq!(Config::from_vars(&no_url).unwrap_err(), "DATABASE_URL must be set");
    let no_secret = ConfigVars { jwt_secret: None, ..required() };
    assert_eq!(Config::from_vars(&no_secret).unwrap_err(), "JWT_SECRET must be set");
    let port = ConfigVars { server_port: Some("65536".to_string()), ..required() };
    assert_eq!(Config::from_vars(&port).unwrap_err(), "SERVER_PORT must be a valid port number");
    let negative = ConfigVars { database_max_connections: Some("-1".to_string()), ..required() };
    assert_eq!(
        Config::from_vars(&negative).unwrap_err(),
        "DATABASE_MAX_CONNECTIONS must be a number"
    );
    let count = ConfigVars { max_numbers_per_ticket: Some("six".to_string()), ..required() };
    assert_eq!(
        Config::from_vars(&count).unwrap_err(),
        "MAX_NUMBERS_PER_TICKET must be a number"
    );
    // The first failing field, in field order, is reported.
    let both = ConfigVars {
        server_port: Some("x".to_string()),
        database_url: None,
        ..required()
    };
    assert_eq!(Config::from_vars(&both).unwrap_err(), "SERVER_PORT must be a valid port number");
    let range = ConfigVars { number_range_max: Some("2147483648".to_string()), ..required() };
    assert_eq!(Config::from_vars(&range).unwrap_err(), "NUMBER_RANGE_MAX must be a number");
}
