//! The named error kinds that the strict registry operations return. The
//! lenient operations never fail; a caller that wants stricter semantics uses
//! the strict variants and receives one of these instead of a silent accept.

use vstd::prelude::*;

verus! {

/// Why a strict registry operation refused a command.
#[derive(Clone, Copy, Debug, PartialEq, Eq, Structural)]
pub enum RegistryError {
    /// A record with the same identifier is already registered.
    DuplicateIdentifier,
    /// The addressed chatbot is not registered.
    UnknownRecipient,
}

} // verus!
