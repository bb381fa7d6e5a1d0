pub mod bytes;
pub mod config;
pub mod message;
pub mod roundtrip;
pub mod score;
pub mod session;
pub mod timelock;
