use vstd::prelude::*;
use crate::message::{
    content_fits, fits, written, Message, MessageAccount, MessageError, Signer, MESSAGE_SPACE,
};

verus! {

/// The accounts of the instruction that creates a message: the slot that
/// receives the new account, and its author, who signs and pays for it.
#[derive(Clone, Debug, PartialEq, Eq)]
pub struct CreateMessage {
    /// The account at the target address, if one exists there already.
    pub message: Option<MessageAccount>,
    pub author: Signer,
    /// Lamports that an account of `MESSAGE_SPACE` bytes must hold.
    pub rent_exempt_lamports: u64,
}

/// The accounts of the instruction that rewrites a message.
#[derive(Clone, Debug, PartialEq, Eq)]
pub struct UpdateMessage {
    pub message: Option<MessageAccount>,
    pub author: Signer,
}

/// The first check that a create instruction fails, if any.
pub open spec fn create_error(ctx: CreateMessage, content: Seq<char>) -> Option<MessageError> {
    if ctx.message is Some {
        Some(MessageError::AccountAlreadyExists)
    } else if !ctx.author.is_signer {
        Some(MessageError::AuthorizationError)
    } else if ctx.author.lamports < ctx.rent_exempt_lamports {
        Some(MessageError::InsufficientFunds)
    } else if !fits(MESSAGE_SPACE as nat, content) {
        Some(MessageError::CapacityExceeded)
    } else {
        None
    }
}

/// The accounts after a successful create at `timestamp`: the author has paid
/// the rent, and a new account of `MESSAGE_SPACE` bytes holds the record.
pub open spec fn created(ctx: CreateMessage, content: String, timestamp: i64) -> CreateMessage {
    CreateMessage {
        message: Some(
            MessageAccount {
                space: MESSAGE_SPACE,
                message: written(ctx.author.key, timestamp, content),
            },
        ),
        author: Signer {
            lamports: (ctx.author.lamports - ctx.rent_exempt_lamports) as u64,
            ..ctx.author
        },
        rent_exempt_lamports: ctx.rent_exempt_lamports,
    }
}

/// The accounts and the result of a create at `timestamp`.
pub open spec fn create_outcome(ctx: CreateMessage, content: String, timestamp: i64) -> (
    CreateMessage,
    Result<(), MessageError>,
) {
    match create_error(ctx, content@) {
        Some(e) => (ctx, Err(e)),
        None => (created(ctx, content, timestamp), Ok(())),
    }
}

/// The first check that an update instruction fails, if any.
pub open spec fn update_error(ctx: UpdateMessage, content: Seq<char>) -> Option<MessageError> {
    match ctx.message {
        None => Some(MessageError::AccountNotFound),
        Some(account) => if !ctx.author.is_signer {
            Some(MessageError::AuthorizationError)
        } else if !fits(account.space as nat, content) {
            Some(MessageError::CapacityExceeded)
        } else {
            None
        },
    }
}

/// The accounts after a successful update at `timestamp`: the account keeps
/// its size, and its record is replaced whole.
pub open spec fn updated(ctx: UpdateMessage, content: String, timestamp: i64) -> UpdateMessage {
    UpdateMessage {
        message: Some(
            MessageAccount {
                space: ctx.message.unwrap().space,
                message: written(ctx.author.key, timestamp, content),
            },
        ),
        author: ctx.author,
    }
}

/// The accounts and the result of an update at `timestamp`.
pub open spec fn update_outcome(ctx: UpdateMessage, content: String, timestamp: i64) -> (
    UpdateMessage,
    Result<(), MessageError>,
) {
    match update_error(ctx, content@) {
        Some(e) => (ctx, Err(e)),
        None => (updated(ctx, content, timestamp), Ok(())),
    }
}

/// Checks the accounts of a create instruction, and returns the first
/// violated condition.
pub fn validate_create(ctx: &CreateMessage, content: &String) -> (r: Result<(), MessageError>)
    ensures
        r == match create_error(*ctx, content@) {
            Some(e) => Err(e),
            None => Ok(()),
        },
{
    if ctx.message.is_some() {
        Err(MessageError::AccountAlreadyExists)
    } else if !ctx.author.is_signer {
        Err(MessageError::AuthorizationError)
    } else if ctx.author.lamports < ctx.rent_exempt_lamports {
        Err(MessageError::InsufficientFunds)
    } else if !content_fits(MESSAGE_SPACE, content) {
        Err(MessageError::CapacityExceeded)
    } else {
        Ok(())
    }
}

/// Creates the message account and writes `content` into it, stamped with
/// `timestamp`.
pub fn create_message_at(
    ctx: &mut CreateMessage,
    content: String,
    timestamp: i64,
) -> (r: Result<(), MessageError>)
    ensures
        (*final(ctx), r) == create_outcome(*old(ctx), content, timestamp),
{
    match validate_create(ctx, &content) {
        Err(e) => Err(e),
        Ok(()) => {
            let author: Signer = ctx.author;
            ctx.author = Signer { lamports: author.lamports - ctx.rent_exempt_lamports, ..author };
            ctx.message = Some(
                MessageAccount {
                    space: MESSAGE_SPACE,
                    message: Message { author: author.key, timestamp, content },
                },
            );
            Ok(())
        },
    }
}

/// Checks the accounts of an update instruction, and returns the first
/// violated condition.
pub fn validate_update(ctx: &UpdateMessage, content: &String) -> (r: Result<(), MessageError>)
    ensures
        r == match update_error(*ctx, content@) {
            Some(e) => Err(e),
            None => Ok(()),
        },
{
    match &ctx.message {
        None => Err(MessageError::AccountNotFound),
        Some(account) => if !ctx.author.is_signer {
            Err(MessageError::AuthorizationError)
        } else if !content_fits(account.space, content) {
            Err(MessageError::CapacityExceeded)
        } else {
            Ok(())
        },
    }
}

/// Replaces the record of the message account with one by the signer,
/// holding `content` and stamped with `timestamp`.
pub fn update_message_at(
    ctx: &mut UpdateMessage,
    content: String,
    timestamp: i64,
) -> (r: Result<(), MessageError>)
    ensures
        (*final(ctx), r) == update_outcome(*old(ctx), content, timestamp),
{
    match validate_update(ctx, &content) {
        Err(e) => Err(e),
        Ok(()) => {
            let space: u64 = match &ctx.message {
                Some(account) => account.space,
                None => MESSAGE_SPACE,
            };
            ctx.message = Some(
                MessageAccount {
                    space,
                    message: Message { author: ctx.author.key, timestamp, content },
                },
            );
            Ok(())
        },
    }
}

/// Relies on `Clock::get` of the Solana sysvar API, as anchor_lang re-exports
/// it: the `unix_timestamp` of the Clock sysvar, or `None` where the runtime
/// does not provide the sysvar. What comes back depends on the time of the call.
#[verifier::external_body]
fn clock_unix_timestamp() -> (r: Option<i64>) {
    match <anchor_lang::prelude::Clock as anchor_lang::prelude::SolanaSysvar>::get() {
        Ok(clock) => Some(clock.unix_timestamp),
        Err(_) => None,
    }
}

/// Creates the message account and writes `content` into it, stamped with
/// the time that the Clock sysvar gives. A rejected instruction, or one for
/// which the clock is unavailable, changes nothing.
pub fn create_message(ctx: &mut CreateMessage, content: String) -> (r: Result<(), MessageError>)
    ensures
        create_error(*old(ctx), content@) matches Some(e) ==> {
            &&& r == Err::<(), MessageError>(e)
            &&& *final(ctx) == *old(ctx)
        },
        create_error(*old(ctx), content@) is None ==> {
            ||| r == Err::<(), MessageError>(MessageError::ClockUnavailable) && *final(ctx) == *old(ctx)
            ||| r is Ok && exists|t: i64| *final(ctx) == #[trigger] created(*old(ctx), content, t)
        },
{
    match validate_create(ctx, &content) {
        Err(e) => Err(e),
        Ok(()) => match clock_unix_timestamp() {
            None => Err(MessageError::ClockUnavailable),
            Some(timestamp) => create_message_at(ctx, content, timestamp),
        },
    }
}

/// Replaces the record of the message account with one by the signer,
/// holding `content` and stamped with the time that the Clock sysvar gives.
/// A rejected instruction, or one for which the clock is unavailable, changes
/// nothing.
pub fn update_message(ctx: &mut UpdateMessage, content: String) -> (r: Result<(), MessageError>)
    ensures
        update_error(*old(ctx), content@) matches Some(e) ==> {
            &&& r == Err::<(), MessageError>(e)
            &&& *final(ctx) == *old(ctx)
        },
        update_error(*old(ctx), content@) is None ==> {
            ||| r == Err::<(), MessageError>(MessageError::ClockUnavailable) && *final(ctx) == *old(ctx)
            ||| r is Ok && exists|t: i64| *final(ctx) == #[trigger] updated(*old(ctx), content, t)
        },
{
    match validate_update(ctx, &content) {
        Err(e) => Err(e),
        Ok(()) => match clock_unix_timestamp() {
            None => Err(MessageError::ClockUnavailable),
            Some(timestamp) => update_message_at(ctx, content, timestamp),
        },
    }
}

} // verus!
