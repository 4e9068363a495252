//! An in-process registry for chatbot identities and conversation records.
//!
//! Two independently owned registries — a [`tracker::ChatbotTracker`] and a
//! [`store::ConversationStore`] — each consume typed commands one at a time
//! and mutate only their own collection. The [`ident`] module supplies the
//! fresh identifiers and timestamps that commands carry.

pub mod errors;
pub mod ident;
pub mod models;
pub mod store;
pub mod tracker;
