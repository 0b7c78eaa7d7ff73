//! Lighting-show project core: sequence timing, section and channel-data
//! addressing, permission-scope resolution and the project's sequence
//! store, each with a verified contract.

pub mod error;
pub mod init;
pub mod layout;
pub mod permission;
pub mod sequence;
pub mod store;
pub mod users;

pub use error::{Cause, Error};
pub use layout::Layout;
pub use sequence::Sequence;
