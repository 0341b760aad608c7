pub mod biscuit;
pub mod bytes;
pub mod chain;
pub mod error;
pub mod handshake;
pub mod laws;
pub mod msgs;
pub mod primitives;
pub mod sessions;
pub mod test_vector;

pub use error::{LenseError, RosenpassError};
