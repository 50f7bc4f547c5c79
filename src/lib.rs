//! Method-dispatch worker for byte codecs and passphrase encryption, with an
//! activity-driven shutdown supervisor.
pub mod args;
pub mod codec;
pub mod dispatch;
pub mod envelope;
pub mod result;
pub mod supervisor;

