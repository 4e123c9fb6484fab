use vstd::prelude::*;
use crate::error::Failure;
use crate::instructions::create_note::CreateNote;
use crate::instructions::delete_note::DeleteNote;
use crate::instructions::tip_note::TipNote;
use crate::instructions::update_note::UpdateNote;
use crate::instructions::upvote_note::UpvoteNote;

verus! {

/// Creates the signer's note with the given text.
pub fn create_note(ctx: &mut CreateNote, content: String) -> (result: Result<(), Failure>)
    ensures
        match crate::instructions::create_note::outcome(
            old(ctx)@,
            content@,
            crate::address::note_address(old(ctx).program_id@, old(ctx).authority.key@),
        ) {
            Ok(after) => result is Ok && final(ctx)@ == after && final(ctx)@.note.holds_note_of(
                old(ctx).program_id@,
                old(ctx).authority.key@,
            ),
            Err(failure) => result == Err::<(), Failure>(failure) && *final(ctx) == *old(ctx),
        },
{
    crate::instructions::create_note::handler(ctx, content)
}

/// Replaces the text of the signer's note.
pub fn update_note(ctx: &mut UpdateNote, content: String) -> (result: Result<(), Failure>)
    ensures
        match crate::instructions::update_note::outcome(
            old(ctx)@,
            content@,
            old(ctx)@.note.derived_address(old(ctx).program_id@),
        ) {
            Ok(after) => result is Ok && final(ctx)@ == after,
            Err(failure) => result == Err::<(), Failure>(failure) && *final(ctx) == *old(ctx),
        },
{
    crate::instructions::update_note::handler(ctx, content)
}

/// Deletes the signer's note.
pub fn delete_note(ctx: &mut DeleteNote) -> (result: Result<(), Failure>)
    ensures
        match crate::instructions::delete_note::outcome(
            old(ctx)@,
            old(ctx)@.note.derived_address(old(ctx).program_id@),
        ) {
            Ok(after) => result is Ok && final(ctx)@ == after,
            Err(failure) => result == Err::<(), Failure>(failure) && *final(ctx) == *old(ctx),
        },
{
    crate::instructions::delete_note::handler(ctx)
}

/// Upvotes another author's note.
pub fn upvote_note(ctx: &mut UpvoteNote) -> (result: Result<(), Failure>)
    ensures
        match crate::instructions::upvote_note::outcome(
            old(ctx)@,
            crate::instructions::upvote_note::expected_address(old(ctx)@),
        ) {
            Ok(after) => result is Ok && final(ctx)@ == after,
            Err(failure) => result == Err::<(), Failure>(failure) && *final(ctx) == *old(ctx),
        },
{
    crate::instructions::upvote_note::handler(ctx)
}

/// Tips another author for their note.
pub fn tip_note(ctx: &mut TipNote, amount: u64) -> (result: Result<(), Failure>)
    ensures
        match crate::instructions::tip_note::outcome(
            old(ctx)@,
            amount,
            crate::instructions::tip_note::expected_address(old(ctx)@),
        ) {
            Ok(after) => result is Ok && final(ctx)@ == after,
            Err(failure) => result == Err::<(), Failure>(failure) && *final(ctx) == *old(ctx),
        },
{
    crate::instructions::tip_note::handler(ctx, amount)
}

} // verus!
