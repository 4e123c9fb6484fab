use vstd::prelude::*;
use crate::accounts::{
    can_transfer,
    shortfall,
    shortfall_spec,
    transfer,
    NoteAccount,
    NoteAccountView,
    Signer,
    SignerView,
};
use crate::address::{address_matches, derive_note_address, key_view};
use crate::constants::MAX_CONTENT_LENGTH;
use crate::error::{ErrorCode, Failure};
use crate::state::{content_len, space_for_spec, Note, NoteView, Pubkey};

verus! {

/// The accounts of a rewrite: the author, who signs, and the author's note.
#[derive(Clone, Debug)]
pub struct UpdateNote {
    pub program_id: Pubkey,
    /// The time of the instruction, in seconds.
    pub now: i64,
    /// The balance that the runtime asks storage for the new text to hold.
    pub rent: u64,
    pub authority: Signer,
    pub note: NoteAccount,
}

pub struct UpdateNoteView {
    pub program_id: Seq<u8>,
    pub now: i64,
    pub rent: u64,
    pub authority: SignerView,
    pub note: NoteAccountView,
}

impl View for UpdateNote {
    type V = UpdateNoteView;

    open spec fn view(&self) -> UpdateNoteView {
        UpdateNoteView {
            program_id: self.program_id@,
            now: self.now,
            rent: self.rent,
            authority: self.authority@,
            note: self.note@,
        }
    }
}

/// Whether the rewrite makes the storage larger. Then the author pays what
/// the storage lacks of its new price; otherwise the author receives what it
/// holds beyond it.
pub open spec fn grows(ctx: UpdateNoteView, content: Seq<char>) -> bool {
    space_for_spec(content_len(content)) > ctx.note.space
}

/// What the author pays for a rewrite that makes the storage larger.
pub open spec fn payment(ctx: UpdateNoteView, content: Seq<char>) -> u64 {
    if grows(ctx, content) {
        shortfall_spec(ctx.note.lamports, ctx.rent)
    } else {
        0
    }
}

/// What the author receives from a rewrite that does not.
pub open spec fn refund(ctx: UpdateNoteView, content: Seq<char>) -> u64 {
    if grows(ctx, content) {
        0
    } else {
        shortfall_spec(ctx.rent, ctx.note.lamports)
    }
}

/// The first check that a rewrite fails, in the order in which they are made,
/// or `None` where it passes them all. `derived` is the address derived again
/// from the stored author and bump.
pub open spec fn refusal(ctx: UpdateNoteView, content: Seq<char>, derived: Option<Seq<u8>>)
    -> Option<Failure> {
    if !ctx.authority.is_signer {
        Some(Failure::MissingSigner)
    } else if ctx.note.record is None {
        Some(Failure::NoteMissing)
    } else if derived != Some(ctx.note.address) {
        Some(Failure::SeedsMismatch)
    } else if ctx.note.record.unwrap().authority != ctx.authority.key {
        Some(Failure::Unauthorized)
    } else if content.len() == 0 {
        Some(Failure::Code(ErrorCode::ContentEmpty))
    } else if content_len(content) > MAX_CONTENT_LENGTH {
        Some(Failure::Code(ErrorCode::ContentTooLong))
    } else if !can_transfer(ctx.authority.lamports, ctx.note.lamports, payment(ctx, content))
        || !can_transfer(ctx.note.lamports, ctx.authority.lamports, refund(ctx, content)) {
        Some(Failure::TransferFailed)
    } else {
        None
    }
}

/// The accounts after a rewrite that passed its checks: the note holds the
/// new text in storage sized for it, and was updated at the time of the
/// instruction; the author has paid for larger storage, or received what
/// smaller storage no longer needs. Nothing else changes.
pub open spec fn effect(ctx: UpdateNoteView, content: Seq<char>) -> UpdateNoteView {
    let paid = payment(ctx, content);
    let back = refund(ctx, content);
    UpdateNoteView {
        authority: SignerView {
            lamports: (ctx.authority.lamports - paid + back) as u64,
            ..ctx.authority
        },
        note: NoteAccountView {
            lamports: (ctx.note.lamports + paid - back) as u64,
            space: space_for_spec(content_len(content)) as usize,
            record: Some(NoteView { content, updated_at: ctx.now, ..ctx.note.record.unwrap() }),
            ..ctx.note
        },
        ..ctx
    }
}

/// What a rewrite does: the failure, or the accounts afterwards.
pub open spec fn outcome(ctx: UpdateNoteView, content: Seq<char>, derived: Option<Seq<u8>>)
    -> Result<UpdateNoteView, Failure> {
    match refusal(ctx, content, derived) {
        Some(failure) => Err(failure),
        None => Ok(effect(ctx, content)),
    }
}

/// Rewrites the author's note, given the address derived again from the
/// stored author and bump. A refused rewrite leaves the accounts as they were.
pub fn handler_with_address(ctx: &mut UpdateNote, content: String, derived: Option<Pubkey>)
    -> (result: Result<(), Failure>)
    ensures
        match outcome(old(ctx)@, content@, key_view(derived)) {
            Ok(after) => result is Ok && final(ctx)@ == after,
            Err(failure) => result == Err::<(), Failure>(failure) && *final(ctx) == *old(ctx),
        },
{
    if !ctx.authority.is_signer {
        return Err(Failure::MissingSigner);
    }
    let owner: Pubkey = match &ctx.note.data {
        Some(note) => note.authority,
        None => {
            return Err(Failure::NoteMissing);
        },
    };
    if !address_matches(&derived, &ctx.note.address) {
        return Err(Failure::SeedsMismatch);
    }
    if !owner.equals(&ctx.authority.key) {
        return Err(Failure::Unauthorized);
    }
    if content.as_str().is_empty() {
        return Err(Failure::Code(ErrorCode::ContentEmpty));
    }
    let len: usize = content.as_str().as_bytes().len();
    if len > MAX_CONTENT_LENGTH {
        return Err(Failure::Code(ErrorCode::ContentTooLong));
    }
    let space: usize = Note::space_for(len);
    let (left, held): (u64, u64) = if space > ctx.note.space {
        let due: u64 = shortfall(ctx.note.lamports, ctx.rent);
        match transfer(ctx.authority.lamports, ctx.note.lamports, due) {
            Ok(balances) => balances,
            Err(failure) => {
                return Err(failure);
            },
        }
    } else {
        let back: u64 = shortfall(ctx.rent, ctx.note.lamports);
        match transfer(ctx.note.lamports, ctx.authority.lamports, back) {
            Ok(balances) => (balances.1, balances.0),
            Err(failure) => {
                return Err(failure);
            },
        }
    };
    let now: i64 = ctx.now;
    ctx.authority.lamports = left;
    ctx.note.lamports = held;
    ctx.note.space = space;
    match &mut ctx.note.data {
        Some(note) => {
            note.content = content;
            note.updated_at = now;
        },
        None => {},
    }
    Ok(())
}

/// Rewrites the author's note after deriving its address again from the
/// stored author and bump.
pub fn handler(ctx: &mut UpdateNote, content: String) -> (result: Result<(), Failure>)
    ensures
        match outcome(
            old(ctx)@,
            content@,
            old(ctx)@.note.derived_address(old(ctx).program_id@),
        ) {
            Ok(after) => result is Ok && final(ctx)@ == after,
            Err(failure) => result == Err::<(), Failure>(failure) && *final(ctx) == *old(ctx),
        },
{
    let derived = ctx.note.derive_address(&ctx.program_id);
    handler_with_address(ctx, content, derived)
}

} // verus!
