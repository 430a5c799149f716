//! Verified decision core of a safe access layer over an RTI Connector
//! publish/subscribe session.
//!
//! The engine itself is reached through foreign calls that this crate never
//! makes. Every operation is decided here in two steps. The method that names
//! the operation checks the session and the arguments and yields the
//! [`EngineCall`] to perform; the caller performs it and hands the engine's
//! answer to the matching function of [`reply`], or to the method that records
//! it in a handle, which turns the answer into the operation's result. Where
//! the engine refuses a read, the result is a [`Diagnosis`]: it yields the
//! calls that find the cause.
//!
//! What is proved of the two steps:
//!
//! - every call that an operation yields is one that the engine can be handed
//!   ([`EngineCall::performable`]);
//! - a session that is destroyed yields no call at all, and is destroyed once
//!   ([`Connector::delete`]);
//! - a reader reads the samples of its last fetch and nothing beyond them
//!   ([`DynamicDataReader::in_batch`]);
//! - a read that the engine refuses says why: no sample at the index, no
//!   such field, or a field of another type ([`diagnosis::cause_of`]);
//! - a wait that elapses is no failure ([`reply::wait_failed`]);
//! - a topic type whose codec loses nothing gets its values back from their
//!   own text ([`topic::lossless`]).
//!
//! The engine's addresses cross as `usize`, zero for none; its doubles as the
//! `u64` of their bits; a timeout as a count of milliseconds.

pub mod connector;
pub mod diagnosis;
pub mod engine;
pub mod error;
pub mod options;
pub mod publisher;
pub mod reply;
pub mod subscriber;
pub mod text;
pub mod topic;

pub use connector::Connector;
pub use engine::EngineCall;
pub use error::{ConnectorError, DDSError};
pub use options::RTIOptions;
pub use publisher::{DataWriter, DynamicDataWriter};
pub use subscriber::{DataReader, DynamicDataReader, Fetch};
pub use diagnosis::Diagnosis;
pub use reply::EngineText;
pub use topic::{TopicError, TopicType};
