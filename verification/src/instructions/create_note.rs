use vstd::prelude::*;
use crate::accounts::{
    can_transfer,
    shortfall,
    shortfall_spec,
    transfer,
    NoteAccount,
    NoteAccountView,
    Signer,
    SignerView,
};
use crate::address::{find_note_address, found_at, found_bump, found_view, note_address};
use crate::constants::MAX_CONTENT_LENGTH;
use crate::error::{ErrorCode, Failure};
use crate::state::{content_len, space_for_spec, Note, NoteView, Pubkey};

verus! {

/// The accounts of a creation: the author, who signs and pays, and the
/// address that is to hold the note.
#[derive(Clone, Debug)]
pub struct CreateNote {
    pub program_id: Pubkey,
    /// The time of the instruction, in seconds.
    pub now: i64,
    /// The balance that the runtime asks storage for the new text to hold.
    pub rent: u64,
    pub authority: Signer,
    pub note: NoteAccount,
}

pub struct CreateNoteView {
    pub program_id: Seq<u8>,
    pub now: i64,
    pub rent: u64,
    pub authority: SignerView,
    pub note: NoteAccountView,
}

impl View for CreateNote {
    type V = CreateNoteView;

    open spec fn view(&self) -> CreateNoteView {
        CreateNoteView {
            program_id: self.program_id@,
            now: self.now,
            rent: self.rent,
            authority: self.authority@,
            note: self.note@,
        }
    }
}

/// The first check that a creation fails, in the order in which they are
/// made, or `None` where it passes them all. `derived` is the address and
/// bump derived for the author.
pub open spec fn refusal(ctx: CreateNoteView, content: Seq<char>, derived: Option<(Seq<u8>, u8)>)
    -> Option<Failure> {
    if !ctx.authority.is_signer {
        Some(Failure::MissingSigner)
    } else if !found_at(derived, ctx.note.address) {
        Some(Failure::SeedsMismatch)
    } else if ctx.note.record is Some {
        Some(Failure::AddressInUse)
    } else if content_len(content) > MAX_CONTENT_LENGTH {
        Some(Failure::Code(ErrorCode::ContentTooLong))
    } else if content.len() == 0 {
        Some(Failure::Code(ErrorCode::ContentEmpty))
    } else if !can_transfer(
        ctx.authority.lamports,
        ctx.note.lamports,
        shortfall_spec(ctx.note.lamports, ctx.rent),
    ) {
        Some(Failure::TransferFailed)
    } else {
        None
    }
}

/// The accounts after a creation that passed its checks: the address holds
/// a new note of the author with both counters at zero and both timestamps at
/// the time of the instruction, in storage sized for the text, and the author
/// has paid what the storage lacked of its price.
pub open spec fn effect(ctx: CreateNoteView, content: Seq<char>, bump: u8) -> CreateNoteView {
    let due = shortfall_spec(ctx.note.lamports, ctx.rent);
    CreateNoteView {
        authority: SignerView { lamports: (ctx.authority.lamports - due) as u64, ..ctx.authority },
        note: NoteAccountView {
            lamports: (ctx.note.lamports + due) as u64,
            space: space_for_spec(content_len(content)) as usize,
            record: Some(
                NoteView {
                    authority: ctx.authority.key,
                    bump,
                    upvotes: 0,
                    tip_total: 0,
                    created_at: ctx.now,
                    updated_at: ctx.now,
                    content,
                },
            ),
            ..ctx.note
        },
        ..ctx
    }
}

/// What a creation does: the failure, or the accounts afterwards.
pub open spec fn outcome(ctx: CreateNoteView, content: Seq<char>, derived: Option<(Seq<u8>, u8)>)
    -> Result<CreateNoteView, Failure> {
    match refusal(ctx, content, derived) {
        Some(failure) => Err(failure),
        None => Ok(effect(ctx, content, found_bump(derived))),
    }
}

/// Creates the author's note, given the address and bump derived for the
/// author. A refused creation leaves the accounts as they were.
pub fn handler_with_address(ctx: &mut CreateNote, content: String, derived: Option<(Pubkey, u8)>)
    -> (result: Result<(), Failure>)
    ensures
        match outcome(old(ctx)@, content@, found_view(derived)) {
            Ok(after) => result is Ok && final(ctx)@ == after,
            Err(failure) => result == Err::<(), Failure>(failure) && *final(ctx) == *old(ctx),
        },
{
    if !ctx.authority.is_signer {
        return Err(Failure::MissingSigner);
    }
    let bump: u8 = match derived {
        Some(pair) => {
            if !pair.0.equals(&ctx.note.address) {
                return Err(Failure::SeedsMismatch);
            }
            pair.1
        },
        None => {
            return Err(Failure::SeedsMismatch);
        },
    };
    if ctx.note.data.is_some() {
        return Err(Failure::AddressInUse);
    }
    let len: usize = content.as_str().as_bytes().len();
    if len > MAX_CONTENT_LENGTH {
        return Err(Failure::Code(ErrorCode::ContentTooLong));
    }
    if content.as_str().is_empty() {
        return Err(Failure::Code(ErrorCode::ContentEmpty));
    }
    let due: u64 = shortfall(ctx.note.lamports, ctx.rent);
    let (left, held): (u64, u64) = match transfer(ctx.authority.lamports, ctx.note.lamports, due) {
        Ok(balances) => balances,
        Err(failure) => {
            return Err(failure);
        },
    };
    ctx.authority.lamports = left;
    ctx.note.lamports = held;
    ctx.note.space = Note::space_for(len);
    ctx.note.data = Some(
        Note {
            authority: ctx.authority.key,
            bump,
            upvotes: 0,
            tip_total: 0,
            created_at: ctx.now,
            updated_at: ctx.now,
            content,
        },
    );
    Ok(())
}

/// Creates the author's note at the address derived for the author. On
/// success a lookup of the author's note finds it: the stored bump derives
/// the account's address again.
pub fn handler(ctx: &mut CreateNote, content: String) -> (result: Result<(), Failure>)
    ensures
        match outcome(
            old(ctx)@,
            content@,
            note_address(old(ctx).program_id@, old(ctx).authority.key@),
        ) {
            Ok(after) => result is Ok && final(ctx)@ == after && final(ctx)@.note.holds_note_of(
                old(ctx).program_id@,
                old(ctx).authority.key@,
            ),
            Err(failure) => result == Err::<(), Failure>(failure) && *final(ctx) == *old(ctx),
        },
{
    let derived = find_note_address(&ctx.program_id, &ctx.authority.key);
    handler_with_address(ctx, content, derived)
}

} // verus!
