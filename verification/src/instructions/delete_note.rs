use vstd::prelude::*;
use crate::accounts::{
    can_transfer,
    transfer,
    NoteAccount,
    NoteAccountView,
    Signer,
    SignerView,
};
use crate::address::{address_matches, key_view};
use crate::error::Failure;
use crate::state::Pubkey;

verus! {

/// The accounts of a deletion: the author, who signs and receives what the
/// storage held, and the author's note.
#[derive(Clone, Debug)]
pub struct DeleteNote {
    pub program_id: Pubkey,
    pub authority: Signer,
    pub note: NoteAccount,
}

pub struct DeleteNoteView {
    pub program_id: Seq<u8>,
    pub authority: SignerView,
    pub note: NoteAccountView,
}

impl View for DeleteNote {
    type V = DeleteNoteView;

    open spec fn view(&self) -> DeleteNoteView {
        DeleteNoteView {
            program_id: self.program_id@,
            authority: self.authority@,
            note: self.note@,
        }
    }
}

/// The first check that a deletion fails, in the order in which they are
/// made, or `None` where it passes them all. `derived` is the address derived
/// again from the stored author and bump.
pub open spec fn refusal(ctx: DeleteNoteView, derived: Option<Seq<u8>>) -> Option<Failure> {
    if !ctx.authority.is_signer {
        Some(Failure::MissingSigner)
    } else if ctx.note.record is None {
        Some(Failure::NoteMissing)
    } else if derived != Some(ctx.note.address) {
        Some(Failure::SeedsMismatch)
    } else if ctx.note.record.unwrap().authority != ctx.authority.key {
        Some(Failure::Unauthorized)
    } else if !can_transfer(ctx.note.lamports, ctx.authority.lamports, ctx.note.lamports) {
        Some(Failure::TransferFailed)
    } else {
        None
    }
}

/// The accounts after a deletion that passed its checks: the address is
/// empty, and all that its storage held has gone to the author.
pub open spec fn effect(ctx: DeleteNoteView) -> DeleteNoteView {
    DeleteNoteView {
        authority: SignerView {
            lamports: (ctx.authority.lamports + ctx.note.lamports) as u64,
            ..ctx.authority
        },
        note: NoteAccountView { lamports: 0, space: 0, record: None, ..ctx.note },
        ..ctx
    }
}

/// What a deletion does: the failure, or the accounts afterwards.
pub open spec fn outcome(ctx: DeleteNoteView, derived: Option<Seq<u8>>) -> Result<
    DeleteNoteView,
    Failure,
> {
    match refusal(ctx, derived) {
        Some(failure) => Err(failure),
        None => Ok(effect(ctx)),
    }
}

/// Deletes the author's note, given the address derived again from the
/// stored author and bump. A refused deletion leaves the accounts as they
/// were.
pub fn handler_with_address(ctx: &mut DeleteNote, derived: Option<Pubkey>) -> (result: Result<
    (),
    Failure,
>)
    ensures
        match outcome(old(ctx)@, key_view(derived)) {
            Ok(after) => result is Ok && final(ctx)@ == after,
            Err(failure) => result == Err::<(), Failure>(failure) && *final(ctx) == *old(ctx),
        },
{
    if !ctx.authority.is_signer {
        return Err(Failure::MissingSigner);
    }
    let owner: Pubkey = match &ctx.note.data {
        Some(note) => note.authority,
        None => {
            return Err(Failure::NoteMissing);
        },
    };
    if !address_matches(&derived, &ctx.note.address) {
        return Err(Failure::SeedsMismatch);
    }
    if !owner.equals(&ctx.authority.key) {
        return Err(Failure::Unauthorized);
    }
    let (left, received): (u64, u64) = match transfer(
        ctx.note.lamports,
        ctx.authority.lamports,
        ctx.note.lamports,
    ) {
        Ok(balances) => balances,
        Err(failure) => {
            return Err(failure);
        },
    };
    ctx.authority.lamports = received;
    ctx.note.lamports = left;
    ctx.note.space = 0;
    ctx.note.data = None;
    Ok(())
}

/// Deletes the author's note after deriving its address again from the
/// stored author and bump.
pub fn handler(ctx: &mut DeleteNote) -> (result: Result<(), Failure>)
    ensures
        match outcome(old(ctx)@, old(ctx)@.note.derived_address(old(ctx).program_id@)) {
            Ok(after) => result is Ok && final(ctx)@ == after,
            Err(failure) => result == Err::<(), Failure>(failure) && *final(ctx) == *old(ctx),
        },
{
    let derived = ctx.note.derive_address(&ctx.program_id);
    handler_with_address(ctx, derived)
}

} // verus!
