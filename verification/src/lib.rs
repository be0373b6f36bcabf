//! Island Rampage game rules: the economy (wallet, shops, casino, enterprises,
//! properties, stock market), the mission bookkeeping and dialogue, and
//! destructible objects, with their contracts.

pub mod economy;
pub mod random;
pub mod mission;
pub mod text;
pub mod environment;
