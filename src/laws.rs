use vstd::prelude::*;
use crate::instructions::{
    create_outcome, update_outcome, CreateMessage, UpdateMessage,
};
use crate::message::{
    content_capacity, content_len, fits, written, MessageAccount, MessageError, Signer,
    MESSAGE_SPACE,
};

verus! {

/// A create that passes its checks leaves a record whose author is the signer
/// and whose content is the content given.
pub proof fn lemma_create_then_read(ctx: CreateMessage, content: String, timestamp: i64)
    requires
        ctx.message is None,
        ctx.author.is_signer,
        ctx.author.lamports >= ctx.rent_exempt_lamports,
        fits(MESSAGE_SPACE as nat, content@),
    ensures
        create_outcome(ctx, content, timestamp).1 is Ok,
        create_outcome(ctx, content, timestamp).0.message matches Some(account)
            && account.message.author == ctx.author.key && account.message.content == content,
{
}

/// An update after a create replaces the author, the timestamp and the content
/// whole: the record afterwards is the new one, whatever the first write held.
pub proof fn lemma_update_after_create_replaces(
    ctx: CreateMessage,
    content: String,
    timestamp: i64,
    author2: Signer,
    content2: String,
    timestamp2: i64,
)
    requires
        ctx.message is None,
        ctx.author.is_signer,
        ctx.author.lamports >= ctx.rent_exempt_lamports,
        fits(MESSAGE_SPACE as nat, content@),
        author2.is_signer,
        fits(MESSAGE_SPACE as nat, content2@),
    ensures
        ({
            let first = create_outcome(ctx, content, timestamp).0;
            let second = update_outcome(
                UpdateMessage { message: first.message, author: author2 },
                content2,
                timestamp2,
            );
            &&& second.1 is Ok
            &&& second.0.message == Some(
                MessageAccount {
                    space: MESSAGE_SPACE,
                    message: written(author2.key, timestamp2, content2),
                },
            )
        }),
{
}

/// Two updates with the same signer and content give records that agree on
/// the author and the content, and differ exactly when their timestamps do.
pub proof fn lemma_repeated_update_differs_in_timestamp(
    ctx: UpdateMessage,
    content: String,
    timestamp1: i64,
    timestamp2: i64,
)
    requires
        ctx.message is Some,
        ctx.author.is_signer,
        fits(ctx.message.unwrap().space as nat, content@),
    ensures
        ({
            let first = update_outcome(ctx, content, timestamp1);
            let second = update_outcome(first.0, content, timestamp2);
            let r1 = first.0.message.unwrap().message;
            let r2 = second.0.message.unwrap().message;
            &&& first.1 is Ok && second.1 is Ok
            &&& r1.author == r2.author && r1.content == r2.content
            &&& r1.timestamp == timestamp1 && r2.timestamp == timestamp2
            &&& (r1 == r2 <==> timestamp1 == timestamp2)
        }),
{
    let first = update_outcome(ctx, content, timestamp1);
    assert(first.0.message.unwrap().space == ctx.message.unwrap().space);
}

/// Content of exactly the capacity fits; one byte more is refused with
/// `CapacityExceeded` by both instructions, which then leave the accounts as
/// they were.
pub proof fn lemma_capacity_boundary(
    create_ctx: CreateMessage,
    update_ctx: UpdateMessage,
    content: String,
    timestamp: i64,
)
    requires
        create_ctx.message is None,
        create_ctx.author.is_signer,
        create_ctx.author.lamports >= create_ctx.rent_exempt_lamports,
        update_ctx.message is Some,
        update_ctx.author.is_signer,
    ensures
        content_len(content@) == content_capacity(MESSAGE_SPACE as nat)
            ==> create_outcome(create_ctx, content, timestamp).1 is Ok,
        content_len(content@) == content_capacity(update_ctx.message.unwrap().space as nat)
            ==> update_outcome(update_ctx, content, timestamp).1 is Ok,
        content_len(content@) == content_capacity(MESSAGE_SPACE as nat) + 1
            ==> create_outcome(create_ctx, content, timestamp) == (
            create_ctx,
            Err::<(), MessageError>(MessageError::CapacityExceeded),
        ),
        content_len(content@) == content_capacity(update_ctx.message.unwrap().space as nat) + 1
            ==> update_outcome(update_ctx, content, timestamp) == (
            update_ctx,
            Err::<(), MessageError>(MessageError::CapacityExceeded),
        ),
{
}

} // verus!
