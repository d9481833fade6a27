//! Domain logic of the IvoireChain lottery platform: validated ticket numbers,
//! money amounts, the lifecycle of users, draws and tickets, the error model,
//! the configuration, the in-memory ledger that stands in for the blockchain
//! and the reading of what the real one answers, the request rules of the
//! API, and the stubs of the mobile-money providers.

pub mod text;
pub mod outside;
pub mod clock;
pub mod money;
pub mod errors;
pub mod ticket_numbers;
pub mod utils;
pub mod config;
pub mod lottery_draw;
pub mod ticket;
pub mod user;
pub mod store;
pub mod scan;
pub mod services;
pub mod blockchain;
pub mod payments;
pub mod dto;
