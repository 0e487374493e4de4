//! A broker that serializes access to a shared casbin policy engine behind a
//! closed command/response vocabulary: callers submit commands, a single
//! dispatcher owns the engine, applies each command whole, and answers with a
//! typed result or a typed error.  The dispatcher's contract pins down, for
//! every command, the answer and the change to the engine's policy store.
pub mod actor;
pub mod command;
pub mod engine;
pub mod laws;
pub mod rules;

pub use actor::BrokerError;
pub use actor::CasbinActor;
pub use command::CasbinCmd;
pub use command::CasbinResult;
