use vstd::prelude::*;
use crate::accounts::{
    can_transfer,
    transfer,
    NoteAccount,
    NoteAccountView,
    Signer,
    SignerView,
    SystemAccount,
    SystemAccountView,
};
use crate::address::{address_matches, key_view};
use crate::error::{ErrorCode, Failure};
use crate::state::{NoteView, Pubkey};

verus! {

/// The accounts of a tip: the tipper, who signs and pays, the account that
/// the tipper claims to be the note's author, which receives, and the note.
#[derive(Clone, Debug)]
pub struct TipNote {
    pub program_id: Pubkey,
    /// The time of the instruction, in seconds.
    pub now: i64,
    pub tipper: Signer,
    pub note_author: SystemAccount,
    pub note: NoteAccount,
}

pub struct TipNoteView {
    pub program_id: Seq<u8>,
    pub now: i64,
    pub tipper: SignerView,
    pub note_author: SystemAccountView,
    pub note: NoteAccountView,
}

impl View for TipNote {
    type V = TipNoteView;

    open spec fn view(&self) -> TipNoteView {
        TipNoteView {
            program_id: self.program_id@,
            now: self.now,
            tipper: self.tipper@,
            note_author: self.note_author@,
            note: self.note@,
        }
    }
}

/// The address that the note must have: the one derived for the claimed
/// author with the stored bump.
pub open spec fn expected_address(ctx: TipNoteView) -> Option<Seq<u8>> {
    ctx.note.derived_address_for(ctx.program_id, ctx.note_author.key)
}

/// The first check that a tip fails, in the order in which they are made, or
/// `None` where it passes them all. `derived` is the address derived for the
/// claimed author with the stored bump.
pub open spec fn refusal(ctx: TipNoteView, amount: u64, derived: Option<Seq<u8>>) -> Option<
    Failure,
> {
    if !ctx.tipper.is_signer {
        Some(Failure::MissingSigner)
    } else if ctx.note.record is None {
        Some(Failure::NoteMissing)
    } else if derived != Some(ctx.note.address) {
        Some(Failure::SeedsMismatch)
    } else if amount == 0 {
        Some(Failure::Code(ErrorCode::InvalidTipAmount))
    } else if ctx.note.record.unwrap().authority != ctx.note_author.key {
        Some(Failure::Code(ErrorCode::AuthorMismatch))
    } else if ctx.note.record.unwrap().authority == ctx.tipper.key {
        Some(Failure::Code(ErrorCode::CannotTipOwnNote))
    } else if !can_transfer(ctx.tipper.lamports, ctx.note_author.lamports, amount) {
        Some(Failure::TransferFailed)
    } else if ctx.note.record.unwrap().tip_total + amount > u64::MAX {
        Some(Failure::Code(ErrorCode::MathOverflow))
    } else {
        None
    }
}

/// The accounts after a tip that passed its checks: `amount` has moved from
/// the tipper to the author, the note's total has grown by it, and the note
/// was updated at the time of the instruction. Nothing else changes.
pub open spec fn effect(ctx: TipNoteView, amount: u64) -> TipNoteView {
    let note = ctx.note.record.unwrap();
    TipNoteView {
        tipper: SignerView { lamports: (ctx.tipper.lamports - amount) as u64, ..ctx.tipper },
        note_author: SystemAccountView {
            lamports: (ctx.note_author.lamports + amount) as u64,
            ..ctx.note_author
        },
        note: NoteAccountView {
            record: Some(
                NoteView {
                    tip_total: (note.tip_total + amount) as u64,
                    updated_at: ctx.now,
                    ..note
                },
            ),
            ..ctx.note
        },
        ..ctx
    }
}

/// What a tip does: the failure, or the accounts afterwards.
pub open spec fn outcome(ctx: TipNoteView, amount: u64, derived: Option<Seq<u8>>) -> Result<
    TipNoteView,
    Failure,
> {
    match refusal(ctx, amount, derived) {
        Some(failure) => Err(failure),
        None => Ok(effect(ctx, amount)),
    }
}

/// Tips the note's author, given the address derived for the claimed author
/// with the stored bump. Both balances and the note's total are computed
/// first and written only when all three can be: a refused tip leaves the
/// accounts as they were.
pub fn handler_with_address(ctx: &mut TipNote, amount: u64, derived: Option<Pubkey>) -> (result:
    Result<(), Failure>)
    ensures
        match outcome(old(ctx)@, amount, key_view(derived)) {
            Ok(after) => result is Ok && final(ctx)@ == after,
            Err(failure) => result == Err::<(), Failure>(failure) && *final(ctx) == *old(ctx),
        },
{
    if !ctx.tipper.is_signer {
        return Err(Failure::MissingSigner);
    }
    let (owner, tip_total): (Pubkey, u64) = match &ctx.note.data {
        Some(note) => (note.authority, note.tip_total),
        None => {
            return Err(Failure::NoteMissing);
        },
    };
    if !address_matches(&derived, &ctx.note.address) {
        return Err(Failure::SeedsMismatch);
    }
    if amount == 0 {
        return Err(Failure::Code(ErrorCode::InvalidTipAmount));
    }
    if !owner.equals(&ctx.note_author.key) {
        return Err(Failure::Code(ErrorCode::AuthorMismatch));
    }
    if owner.equals(&ctx.tipper.key) {
        return Err(Failure::Code(ErrorCode::CannotTipOwnNote));
    }
    let (left, received): (u64, u64) = match transfer(
        ctx.tipper.lamports,
        ctx.note_author.lamports,
        amount,
    ) {
        Ok(balances) => balances,
        Err(failure) => {
            return Err(failure);
        },
    };
    let raised: u64 = match tip_total.checked_add(amount) {
        Some(sum) => sum,
        None => {
            return Err(Failure::Code(ErrorCode::MathOverflow));
        },
    };
    let now: i64 = ctx.now;
    ctx.tipper.lamports = left;
    ctx.note_author.lamports = received;
    match &mut ctx.note.data {
        Some(note) => {
            note.tip_total = raised;
            note.updated_at = now;
        },
        None => {},
    }
    Ok(())
}

/// Tips the note's author after deriving the address of the claimed
/// author's note with the stored bump.
pub fn handler(ctx: &mut TipNote, amount: u64) -> (result: Result<(), Failure>)
    ensures
        match outcome(old(ctx)@, amount, expected_address(old(ctx)@)) {
            Ok(after) => result is Ok && final(ctx)@ == after,
            Err(failure) => result == Err::<(), Failure>(failure) && *final(ctx) == *old(ctx),
        },
{
    let derived = ctx.note.derive_address_for(&ctx.program_id, &ctx.note_author.key);
    handler_with_address(ctx, amount, derived)
}

} // verus!
