//! Money: the player's wallet, shops, ATM, casino, enterprises and stocks.

pub mod input;
pub mod wallet;
pub mod casino;
pub mod enterprise;
pub mod shop;
pub mod events;
pub mod atm;
pub mod pickup;
pub mod property;
pub mod stock_market;
