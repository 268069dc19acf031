//! Verified core of the StarEscrow protocol: the escrow and governance
//! contract state machines, the base64 helpers used for XDR payloads, and
//! the pure parts of the command-line client.

pub mod address;
pub mod cli;
pub mod escrow;
pub mod governance;
pub mod xdr;
