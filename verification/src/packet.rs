//! Packet kinds that have a type of their own.
pub mod push_data_sig;
