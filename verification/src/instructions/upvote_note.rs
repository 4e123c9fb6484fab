use vstd::prelude::*;
use crate::accounts::{NoteAccount, NoteAccountView, Signer, SignerView};
use crate::address::{address_matches, key_view};
use crate::error::{ErrorCode, Failure};
use crate::state::{NoteView, Pubkey};

verus! {

/// The accounts of an upvote: the voter, who signs, the key that the voter
/// claims to be the note's author, and the note.
#[derive(Clone, Debug)]
pub struct UpvoteNote {
    pub program_id: Pubkey,
    /// The time of the instruction, in seconds.
    pub now: i64,
    pub voter: Signer,
    pub note_author: Pubkey,
    pub note: NoteAccount,
}

pub struct UpvoteNoteView {
    pub program_id: Seq<u8>,
    pub now: i64,
    pub voter: SignerView,
    pub note_author: Seq<u8>,
    pub note: NoteAccountView,
}

impl View for UpvoteNote {
    type V = UpvoteNoteView;

    open spec fn view(&self) -> UpvoteNoteView {
        UpvoteNoteView {
            program_id: self.program_id@,
            now: self.now,
            voter: self.voter@,
            note_author: self.note_author@,
            note: self.note@,
        }
    }
}

/// The address that the note must have: the one derived for the claimed
/// author with the stored bump.
pub open spec fn expected_address(ctx: UpvoteNoteView) -> Option<Seq<u8>> {
    ctx.note.derived_address_for(ctx.program_id, ctx.note_author)
}

/// The first check that an upvote fails, in the order in which they are
/// made, or `None` where it passes them all. `derived` is the address derived
/// for the claimed author with the stored bump.
pub open spec fn refusal(ctx: UpvoteNoteView, derived: Option<Seq<u8>>) -> Option<Failure> {
    if !ctx.voter.is_signer {
        Some(Failure::MissingSigner)
    } else if ctx.note.record is None {
        Some(Failure::NoteMissing)
    } else if derived != Some(ctx.note.address) {
        Some(Failure::SeedsMismatch)
    } else if ctx.note.record.unwrap().authority != ctx.note_author {
        Some(Failure::Code(ErrorCode::AuthorMismatch))
    } else if ctx.note.record.unwrap().authority == ctx.voter.key {
        Some(Failure::Code(ErrorCode::CannotUpvoteOwnNote))
    } else if ctx.note.record.unwrap().upvotes == u64::MAX {
        Some(Failure::Code(ErrorCode::MathOverflow))
    } else {
        None
    }
}

/// The accounts after an upvote that passed its checks: the note has one
/// upvote more and was updated at the time of the instruction. Nothing else
/// changes.
pub open spec fn effect(ctx: UpvoteNoteView) -> UpvoteNoteView {
    let note = ctx.note.record.unwrap();
    UpvoteNoteView {
        note: NoteAccountView {
            record: Some(
                NoteView { upvotes: (note.upvotes + 1) as u64, updated_at: ctx.now, ..note },
            ),
            ..ctx.note
        },
        ..ctx
    }
}

/// What an upvote does: the failure, or the accounts afterwards.
pub open spec fn outcome(ctx: UpvoteNoteView, derived: Option<Seq<u8>>) -> Result<
    UpvoteNoteView,
    Failure,
> {
    match refusal(ctx, derived) {
        Some(failure) => Err(failure),
        None => Ok(effect(ctx)),
    }
}

/// Upvotes the note, given the address derived for the claimed author with
/// the stored bump. A refused upvote leaves the accounts as they were.
pub fn handler_with_address(ctx: &mut UpvoteNote, derived: Option<Pubkey>) -> (result: Result<
    (),
    Failure,
>)
    ensures
        match outcome(old(ctx)@, key_view(derived)) {
            Ok(after) => result is Ok && final(ctx)@ == after,
            Err(failure) => result == Err::<(), Failure>(failure) && *final(ctx) == *old(ctx),
        },
{
    if !ctx.voter.is_signer {
        return Err(Failure::MissingSigner);
    }
    let (owner, upvotes): (Pubkey, u64) = match &ctx.note.data {
        Some(note) => (note.authority, note.upvotes),
        None => {
            return Err(Failure::NoteMissing);
        },
    };
    if !address_matches(&derived, &ctx.note.address) {
        return Err(Failure::SeedsMismatch);
    }
    if !owner.equals(&ctx.note_author) {
        return Err(Failure::Code(ErrorCode::AuthorMismatch));
    }
    if owner.equals(&ctx.voter.key) {
        return Err(Failure::Code(ErrorCode::CannotUpvoteOwnNote));
    }
    let raised: u64 = match upvotes.checked_add(1) {
        Some(sum) => sum,
        None => {
            return Err(Failure::Code(ErrorCode::MathOverflow));
        },
    };
    let now: i64 = ctx.now;
    match &mut ctx.note.data {
        Some(note) => {
            note.upvotes = raised;
            note.updated_at = now;
        },
        None => {},
    }
    Ok(())
}

/// Upvotes the note after deriving the address of the claimed author's note
/// with the stored bump.
pub fn handler(ctx: &mut UpvoteNote) -> (result: Result<(), Failure>)
    ensures
        match outcome(old(ctx)@, expected_address(old(ctx)@)) {
            Ok(after) => result is Ok && final(ctx)@ == after,
            Err(failure) => result == Err::<(), Failure>(failure) && *final(ctx) == *old(ctx),
        },
{
    let derived = ctx.note.derive_address_for(&ctx.program_id, &ctx.note_author);
    handler_with_address(ctx, derived)
}

} // verus!
