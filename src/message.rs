use vstd::prelude::*;
use vstd::string::StringSliceAdditionalSpecFns;
use vstd::utf8::encode_utf8;

verus! {

/// Bytes of the discriminator that prefixes every account of this program.
pub const DISCRIMINATOR_LEN: u64 = 8;

/// Bytes that an account spends before the content's own bytes: the
/// discriminator, the 32-byte author key, the 8-byte timestamp and the 4-byte
/// length prefix of the content.
pub const MESSAGE_HEADER_LEN: u64 = DISCRIMINATOR_LEN + 32 + 8 + 4;

/// Bytes allocated to a message account when it is created.
pub const MESSAGE_SPACE: u64 = 1000;

/// A 32-byte account address.
#[derive(Clone, Copy, Debug, PartialEq, Eq)]
pub struct Pubkey {
    pub bytes: [u8; 32],
}

/// The record that a message account holds.
#[derive(Clone, Debug, PartialEq, Eq)]
pub struct Message {
    /// The key of the signer that last wrote the record.
    pub author: Pubkey,
    /// Seconds since the Unix epoch at the last write.
    pub timestamp: i64,
    pub content: String,
}

/// An allocated message account: its fixed size in bytes, and its record.
#[derive(Clone, Debug, PartialEq, Eq)]
pub struct MessageAccount {
    pub space: u64,
    pub message: Message,
}

/// The signer of an instruction: its key, whether it signed the transaction,
/// and its balance in lamports.
#[derive(Clone, Copy, Debug, PartialEq, Eq)]
pub struct Signer {
    pub key: Pubkey,
    pub is_signer: bool,
    pub lamports: u64,
}

/// Why an instruction was rejected. A rejected instruction changes nothing.
#[derive(Clone, Copy, Debug, PartialEq, Eq)]
pub enum MessageError {
    AuthorizationError,
    AccountAlreadyExists,
    AccountNotFound,
    InsufficientFunds,
    CapacityExceeded,
    ClockUnavailable,
}

/// Bytes that `content` takes once encoded as UTF-8.
pub open spec fn content_len(content: Seq<char>) -> nat {
    encode_utf8(content).len()
}

/// Bytes left for the content in an account of `space` bytes.
pub open spec fn content_capacity(space: nat) -> int {
    space - MESSAGE_HEADER_LEN
}

/// Whether a record with `content` fits in an account of `space` bytes.
pub open spec fn fits(space: nat, content: Seq<char>) -> bool {
    content_len(content) <= content_capacity(space)
}

/// The record that a write by `author` at `timestamp` leaves.
pub open spec fn written(author: Pubkey, timestamp: i64, content: String) -> Message {
    Message { author, timestamp, content }
}

impl MessageAccount {
    /// Bytes left for the content in this account.
    pub fn content_capacity(&self) -> (r: u64)
        ensures
            r == if self.space >= MESSAGE_HEADER_LEN {
                content_capacity(self.space as nat)
            } else {
                0
            },
    {
        if self.space >= MESSAGE_HEADER_LEN {
            self.space - MESSAGE_HEADER_LEN
        } else {
            0
        }
    }
}

/// Whether a record with `content` fits in an account of `space` bytes.
pub fn content_fits(space: u64, content: &String) -> (r: bool)
    ensures
        r == fits(space as nat, content@),
{
    let text: &str = content.as_str();
    let n: usize = text.as_bytes().len();
    assert(text.spec_bytes() == encode_utf8(content@));
    space >= MESSAGE_HEADER_LEN && (n as u64) <= space - MESSAGE_HEADER_LEN
}

} // verus!
