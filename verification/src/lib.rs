//! Client-side protocol logic for a heating hub that is driven over a
//! websocket: the two-layer JSON envelope, the validation of replies and the
//! life cycle of a session.

pub mod codec;
pub mod duration;
pub mod error;
pub mod identity;
pub mod json;
pub mod session;

pub use codec::{serialise_str, serialise_void, CommandResponse};
pub use error::{ClientError, Fault, Setting};
pub use identity::Identity;
pub use session::{Builder, Client, Event, Phase, Shutdown, Trust};
