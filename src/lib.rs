//! A program that keeps one message record on the ledger: its author, the
//! time of the last write and its text. `create_message` allocates the account
//! and writes the first record; `update_message` replaces the record whole.
//! Each instruction first checks its accounts and, when a check fails, changes
//! nothing.
pub mod instructions;
pub mod laws;
pub mod message;

pub use instructions::{create_message, update_message, CreateMessage, UpdateMessage};
pub use message::{Message, MessageAccount, MessageError, Pubkey, Signer};
