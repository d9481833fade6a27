//! Application configuration: the values, how they are read from the
//! environment variables (with their defaults), and what is derived from
//! them. Looking the variables up is left to the application.

use vstd::prelude::*;
use crate::errors::string_of;
use crate::scan::{parse_int, parsed_int};
use crate::text::{nat_text, push_u64_text};

verus! {

/// Application configuration.
#[derive(Debug, Clone, Default)]
pub struct Config {
    pub server_host: String,
    pub server_port: u16,
    pub database_url: String,
    pub database_max_connections: u32,
    pub redis_url: String,
    pub jwt_secret: String,
    pub jwt_expiration_hours: i64,
    pub argon2_memory_cost: u32,
    pub argon2_time_cost: u32,
    pub argon2_parallelism: u32,
    pub hyperledger_peer_url: String,
    pub hyperledger_channel_name: String,
    pub hyperledger_chaincode_name: String,
    pub ticket_price_fcfa: i64,
    pub max_numbers_per_ticket: usize,
    pub number_range_min: i32,
    pub number_range_max: i32,
}

/// The values of the environment variables that configure the application,
/// each named after its field in upper case (`SERVER_HOST` for
/// `server_host`); `None` where a variable is unset or not valid Unicode.
#[derive(Debug, Clone, Default)]
pub struct ConfigVars {
    pub server_host: Option<String>,
    pub server_port: Option<String>,
    pub database_url: Option<String>,
    pub database_max_connections: Option<String>,
    pub redis_url: Option<String>,
    pub jwt_secret: Option<String>,
    pub jwt_expiration_hours: Option<String>,
    pub argon2_memory_cost: Option<String>,
    pub argon2_time_cost: Option<String>,
    pub argon2_parallelism: Option<String>,
    pub hyperledger_peer_url: Option<String>,
    pub hyperledger_channel_name: Option<String>,
    pub hyperledger_chaincode_name: Option<String>,
    pub ticket_price_fcfa: Option<String>,
    pub max_numbers_per_ticket: Option<String>,
    pub number_range_min: Option<String>,
    pub number_range_max: Option<String>,
}

/// The value of a variable, or `default` where it is unset.
pub open spec fn var_or(value: Option<String>, default: Seq<char>) -> Seq<char> {
    match value {
        Some(v) => v@,
        None => default,
    }
}

/// Why the variables give no configuration, checked field by field in the
/// order of `Config`: a required variable that is unset, or a numeric one
/// that does not parse into its field's type; `None` when they give one.
pub open spec fn config_error(v: ConfigVars) -> Option<Seq<char>> {
    if parsed_int(var_or(v.server_port, "3000"@), 0, u16::MAX as int) is None {
        Some("SERVER_PORT must be a valid port number"@)
    } else if v.database_url is None {
        Some("DATABASE_URL must be set"@)
    } else if parsed_int(var_or(v.database_max_connections, "10"@), 0, u32::MAX as int) is None {
        Some("DATABASE_MAX_CONNECTIONS must be a number"@)
    } else if v.jwt_secret is None {
        Some("JWT_SECRET must be set"@)
    } else if parsed_int(var_or(v.jwt_expiration_hours, "24"@), i64::MIN as int, i64::MAX as int)
        is None {
        Some("JWT_EXPIRATION_HOURS must be a number"@)
    } else if parsed_int(var_or(v.argon2_memory_cost, "65536"@), 0, u32::MAX as int) is None {
        Some("ARGON2_MEMORY_COST must be a number"@)
    } else if parsed_int(var_or(v.argon2_time_cost, "3"@), 0, u32::MAX as int) is None {
        Some("ARGON2_TIME_COST must be a number"@)
    } else if parsed_int(var_or(v.argon2_parallelism, "4"@), 0, u32::MAX as int) is None {
        Some("ARGON2_PARALLELISM must be a number"@)
    } else if parsed_int(var_or(v.ticket_price_fcfa, "500"@), i64::MIN as int, i64::MAX as int)
        is None {
        Some("TICKET_PRICE_FCFA must be a number"@)
    } else if parsed_int(var_or(v.max_numbers_per_ticket, "6"@), 0, usize::MAX as int) is None {
        Some("MAX_NUMBERS_PER_TICKET must be a number"@)
    } else if parsed_int(var_or(v.number_range_min, "1"@), i32::MIN as int, i32::MAX as int)
        is None {
        Some("NUMBER_RANGE_MIN must be a number"@)
    } else if parsed_int(var_or(v.number_range_max, "49"@), i32::MIN as int, i32::MAX as int)
        is None {
        Some("NUMBER_RANGE_MAX must be a number"@)
    } else {
        None
    }
}

/// `c` is the configuration that the variables give: each text field holds
/// its variable or its default, each numeric field the value its variable
/// (or default) parses to.
pub open spec fn config_of(c: Config, v: ConfigVars) -> bool {
    &&& c.server_host@ == var_or(v.server_host, "127.0.0.1"@)
    &&& parsed_int(var_or(v.server_port, "3000"@), 0, u16::MAX as int) == Some(
        c.server_port as i128,
    )
    &&& v.database_url matches Some(u) && c.database_url@ == u@
    &&& parsed_int(var_or(v.database_max_connections, "10"@), 0, u32::MAX as int) == Some(
        c.database_max_connections as i128,
    )
    &&& c.redis_url@ == var_or(v.redis_url, "redis://localhost:6379"@)
    &&& v.jwt_secret matches Some(j) && c.jwt_secret@ == j@
    &&& parsed_int(var_or(v.jwt_expiration_hours, "24"@), i64::MIN as int, i64::MAX as int)
        == Some(c.jwt_expiration_hours as i128)
    &&& parsed_int(var_or(v.argon2_memory_cost, "65536"@), 0, u32::MAX as int) == Some(
        c.argon2_memory_cost as i128,
    )
    &&& parsed_int(var_or(v.argon2_time_cost, "3"@), 0, u32::MAX as int) == Some(
        c.argon2_time_cost as i128,
    )
    &&& parsed_int(var_or(v.argon2_parallelism, "4"@), 0, u32::MAX as int) == Some(
        c.argon2_parallelism as i128,
    )
    &&& c.hyperledger_peer_url@ == var_or(v.hyperledger_peer_url, "grpc://localhost:7051"@)
    &&& c.hyperledger_channel_name@ == var_or(v.hyperledger_channel_name, "lottery-channel"@)
    &&& c.hyperledger_chaincode_name@ == var_or(
        v.hyperledger_chaincode_name,
        "lottery-contract"@,
    )
    &&& parsed_int(var_or(v.ticket_price_fcfa, "500"@), i64::MIN as int, i64::MAX as int)
        == Some(c.ticket_price_fcfa as i128)
    &&& parsed_int(var_or(v.max_numbers_per_ticket, "6"@), 0, usize::MAX as int) == Some(
        c.max_numbers_per_ticket as i128,
    )
    &&& parsed_int(var_or(v.number_range_min, "1"@), i32::MIN as int, i32::MAX as int) == Some(
        c.number_range_min as i128,
    )
    &&& parsed_int(var_or(v.number_range_max, "49"@), i32::MIN as int, i32::MAX as int) == Some(
        c.number_range_max as i128,
    )
}

/// The value of a variable, or `default` where it is unset.
fn text_or(value: &Option<String>, default: &str) -> (s: String)
    ensures
        s@ == var_or(*value, default@),
{
    match value {
        Some(v) => v.clone(),
        None => String::from_str(default),
    }
}

/// What a variable (or `default`, where it is unset) parses to in an integer
/// type whose values are `min..=max`.
fn number_or(value: &Option<String>, default: &str, min: i128, max: i128) -> (r: Option<i128>)
    requires
        -0x1_0000_0000_0000_0000 <= min <= 0 <= max <= 0x1_0000_0000_0000_0000,
    ensures
        r == parsed_int(var_or(*value, default@), min as int, max as int),
{
    match value {
        Some(v) => parse_int(v.as_str(), min, max),
        None => parse_int(default, min, max),
    }
}

impl Config {
    /// The configuration that the environment variables give, or the message
    /// of the first variable that is missing or does not parse.
    pub fn from_vars(vars: &ConfigVars) -> (r: Result<Config, String>)
        ensures
            r is Ok <==> config_error(*vars) is None,
            r matches Ok(c) ==> config_of(c, *vars),
            r matches Err(m) ==> config_error(*vars) == Some(m@),
    {
        let server_host = text_or(&vars.server_host, "127.0.0.1");
        let server_port = match number_or(&vars.server_port, "3000", 0, 65535) {
            Some(n) => n as u16,
            None => return Err(string_of("SERVER_PORT must be a valid port number")),
        };
        let database_url = match &vars.database_url {
            Some(u) => u.clone(),
            None => return Err(string_of("DATABASE_URL must be set")),
        };
        let database_max_connections = match number_or(
            &vars.database_max_connections,
            "10",
            0,
            0xffff_ffff,
        ) {
            Some(n) => n as u32,
            None => return Err(string_of("DATABASE_MAX_CONNECTIONS must be a number")),
        };
        let redis_url = text_or(&vars.redis_url, "redis://localhost:6379");
        let jwt_secret = match &vars.jwt_secret {
            Some(j) => j.clone(),
            None => return Err(string_of("JWT_SECRET must be set")),
        };
        let jwt_expiration_hours = match number_or(
            &vars.jwt_expiration_hours,
            "24",
            i64::MIN as i128,
            i64::MAX as i128,
        ) {
            Some(n) => n as i64,
            None => return Err(string_of("JWT_EXPIRATION_HOURS must be a number")),
        };
        let argon2_memory_cost = match number_or(
            &vars.argon2_memory_cost,
            "65536",
            0,
            0xffff_ffff,
        ) {
            Some(n) => n as u32,
            None => return Err(string_of("ARGON2_MEMORY_COST must be a number")),
        };
        let argon2_time_cost = match number_or(&vars.argon2_time_cost, "3", 0, 0xffff_ffff) {
            Some(n) => n as u32,
            None => return Err(string_of("ARGON2_TIME_COST must be a number")),
        };
        let argon2_parallelism = match number_or(&vars.argon2_parallelism, "4", 0, 0xffff_ffff) {
            Some(n) => n as u32,
            None => return Err(string_of("ARGON2_PARALLELISM must be a number")),
        };
        let hyperledger_peer_url = text_or(&vars.hyperledger_peer_url, "grpc://localhost:7051");
        let hyperledger_channel_name = text_or(&vars.hyperledger_channel_name, "lottery-channel");
        let hyperledger_chaincode_name = text_or(
            &vars.hyperledger_chaincode_name,
            "lottery-contract",
        );
        let ticket_price_fcfa = match number_or(
            &vars.ticket_price_fcfa,
            "500",
            i64::MIN as i128,
            i64::MAX as i128,
        ) {
            Some(n) => n as i64,
            None => return Err(string_of("TICKET_PRICE_FCFA must be a number")),
        };
        let max_numbers_per_ticket = match number_or(
            &vars.max_numbers_per_ticket,
            "6",
            0,
            usize::MAX as i128,
        ) {
            Some(n) => n as usize,
            None => return Err(string_of("MAX_NUMBERS_PER_TICKET must be a number")),
        };
        let number_range_min = match number_or(
            &vars.number_range_min,
            "1",
            i32::MIN as i128,
            i32::MAX as i128,
        ) {
            Some(n) => n as i32,
            None => return Err(string_of("NUMBER_RANGE_MIN must be a number")),
        };
        let number_range_max = match number_or(
            &vars.number_range_max,
            "49",
            i32::MIN as i128,
            i32::MAX as i128,
        ) {
            Some(n) => n as i32,
            None => return Err(string_of("NUMBER_RANGE_MAX must be a number")),
        };
        Ok(
            Config {
                server_host,
                server_port,
                database_url,
                database_max_connections,
                redis_url,
                jwt_secret,
                jwt_expiration_hours,
                argon2_memory_cost,
                argon2_time_cost,
                argon2_parallelism,
                hyperledger_peer_url,
                hyperledger_channel_name,
                hyperledger_chaincode_name,
                ticket_price_fcfa,
                max_numbers_per_ticket,
                number_range_min,
                number_range_max,
            },
        )
    }

    /// The address the server binds: `host:port`.
    pub fn server_address(&self) -> (r: String)
        ensures
            r@ == self.server_host@ + ":"@ + nat_text(self.server_port as nat),
    {
        let mut r = self.server_host.clone();
        r.append(":");
        push_u64_text(&mut r, self.server_port as u64);
        r
    }

    /// The ticket price in centimes (100 centimes per FCFA).
    pub fn ticket_price_centimes(&self) -> (c: i64)
        requires
            i64::MIN <= self.ticket_price_fcfa * 100 <= i64::MAX,
        ensures
            c == self.ticket_price_fcfa * 100,
    {
        self.ticket_price_fcfa * 100
    }
}

} // verus!
