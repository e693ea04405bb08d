//! What the parts of the client promise together: relations between inputs and results that hold whatever
//! form the functions behind them take.
pub mod analysis;
pub mod browsing;
pub mod connecting;
pub mod display;
pub mod editing;
pub mod profiles;
pub mod results;
pub mod saving;
pub mod sessions;
pub mod statements;
