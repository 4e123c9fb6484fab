use vstd::prelude::*;
use crate::accounts::{can_transfer, shortfall_spec, NoteAccountView};
use crate::address::found_at;
use crate::constants::MAX_CONTENT_LENGTH;
use crate::error::{ErrorCode, Failure};
use crate::instructions::create_note::CreateNoteView;
use crate::instructions::delete_note::DeleteNoteView;
use crate::instructions::tip_note::TipNoteView;
use crate::instructions::update_note::UpdateNoteView;
use crate::instructions::upvote_note::UpvoteNoteView;
use crate::instructions::{create_note, delete_note, tip_note, update_note, upvote_note};
use crate::state::{content_len, space_for_spec, NoteView};

verus! {

/// A text that a note may hold: not empty, and within the limit.
pub open spec fn valid_content(content: Seq<char>) -> bool {
    content.len() > 0 && content_len(content) <= MAX_CONTENT_LENGTH
}

/// A creation by a signer who can pay for the storage, at the address derived
/// for the signer, of a note with a valid text, at an empty address,
/// succeeds. The address then holds exactly that text with both counters at
/// zero and equal timestamps, in storage sized for the text and holding at
/// least its price, and the note meets the invariant of notes.
pub proof fn creation_stores_fresh_note(
    ctx: CreateNoteView,
    content: Seq<char>,
    derived: Option<(Seq<u8>, u8)>,
)
    requires
        valid_content(content),
        ctx.authority.is_signer,
        found_at(derived, ctx.note.address),
        ctx.note.record is None,
        ctx.authority.lamports >= shortfall_spec(ctx.note.lamports, ctx.rent),
    ensures
        create_note::outcome(ctx, content, derived) matches Ok(after) && {
            &&& after.note.record matches Some(note) && {
                &&& note.content == content
                &&& note.authority == ctx.authority.key
                &&& note.upvotes == 0
                &&& note.tip_total == 0
                &&& note.created_at == note.updated_at
                &&& note.wf()
            }
            &&& after.note.space == space_for_spec(content_len(content))
            &&& after.note.address == ctx.note.address
            &&& after.note.lamports >= ctx.rent
            &&& after.note.lamports + after.authority.lamports == ctx.note.lamports
                + ctx.authority.lamports
        },
{
}

/// A note that is found at the address derived for its author can be
/// rewritten by the author, signing, with any valid text whose storage the
/// balances can settle.
pub proof fn found_note_can_be_rewritten(
    account: NoteAccountView,
    ctx: UpdateNoteView,
    content: Seq<char>,
)
    requires
        account.is_note_of_author(ctx.program_id),
        ctx.note == account,
        ctx.authority.is_signer,
        ctx.authority.key == account.record.unwrap().authority,
        valid_content(content),
        can_transfer(
            ctx.authority.lamports,
            ctx.note.lamports,
            update_note::payment(ctx, content),
        ),
        can_transfer(ctx.note.lamports, ctx.authority.lamports, update_note::refund(ctx, content)),
    ensures
        update_note::outcome(ctx, content, ctx.note.derived_address(ctx.program_id)) matches Ok(
            after,
        ) && after.note.record.unwrap().content == content,
{
}

/// After a creation has succeeded, any further creation at the same address
/// fails, whoever asks and whatever the text: a signer at the rightly derived
/// address is told that the address is in use.
pub proof fn second_creation_fails(
    first: CreateNoteView,
    first_content: Seq<char>,
    first_derived: Option<(Seq<u8>, u8)>,
    second: CreateNoteView,
    second_content: Seq<char>,
    second_derived: Option<(Seq<u8>, u8)>,
)
    requires
        create_note::outcome(first, first_content, first_derived) matches Ok(after)
            && second.note == after.note,
    ensures
        create_note::outcome(second, second_content, second_derived) is Err,
        second.authority.is_signer && found_at(second_derived, second.note.address)
            ==> create_note::outcome(second, second_content, second_derived) == Err::<
            CreateNoteView,
            Failure,
        >(Failure::AddressInUse),
{
}

/// A rewrite asked by anyone but the note's author fails: where the signer
/// signed and the address is the derived one, as unauthorized.
pub proof fn update_by_stranger_fails(
    ctx: UpdateNoteView,
    content: Seq<char>,
    derived: Option<Seq<u8>>,
)
    requires
        ctx.note.record matches Some(note) && note.authority != ctx.authority.key,
    ensures
        update_note::outcome(ctx, content, derived) is Err,
        ctx.authority.is_signer && derived == Some(ctx.note.address) ==> update_note::outcome(
            ctx,
            content,
            derived,
        ) == Err::<UpdateNoteView, Failure>(Failure::Unauthorized),
{
}

/// A rewrite with an empty text, or with one longer than the limit, fails.
/// Asked by the signing author at the derived address, it fails with the
/// error that names the fault.
pub proof fn update_with_invalid_content_fails(
    ctx: UpdateNoteView,
    content: Seq<char>,
    derived: Option<Seq<u8>>,
)
    requires
        !valid_content(content),
    ensures
        update_note::outcome(ctx, content, derived) is Err,
        note_loaded(ctx.authority.is_signer, ctx.note, derived)
            && ctx.note.record.unwrap().authority == ctx.authority.key ==> {
            update_note::outcome(ctx, content, derived) == Err::<UpdateNoteView, Failure>(
                if content.len() == 0 {
                    Failure::Code(ErrorCode::ContentEmpty)
                } else {
                    Failure::Code(ErrorCode::ContentTooLong)
                },
            )
        },
{
}

/// The checks that every access to a stored note makes before the rules of
/// the instruction: the caller signed, the address holds a note, and it is
/// the derived address.
pub open spec fn note_loaded(
    is_signer: bool,
    note: NoteAccountView,
    derived: Option<Seq<u8>>,
) -> bool {
    is_signer && note.record is Some && derived == Some(note.address)
}

/// An author cannot upvote their own note.
pub proof fn upvote_by_author_fails(ctx: UpvoteNoteView, derived: Option<Seq<u8>>)
    requires
        note_loaded(ctx.voter.is_signer, ctx.note, derived),
        ctx.note.record.unwrap().authority == ctx.note_author,
        ctx.voter.key == ctx.note_author,
    ensures
        upvote_note::outcome(ctx, derived) == Err::<UpvoteNoteView, Failure>(
            Failure::Code(ErrorCode::CannotUpvoteOwnNote),
        ),
{
}

/// An upvote by anyone but the author, on a note whose counter is not at its
/// greatest value, raises the counter by exactly one, sets the time of the
/// last change to the time of the instruction, and changes nothing else.
pub proof fn upvote_by_other_counts_once(ctx: UpvoteNoteView, derived: Option<Seq<u8>>)
    requires
        note_loaded(ctx.voter.is_signer, ctx.note, derived),
        ctx.note.record.unwrap().authority == ctx.note_author,
        ctx.voter.key != ctx.note_author,
        ctx.note.record.unwrap().upvotes < u64::MAX,
    ensures
        upvote_note::outcome(ctx, derived) matches Ok(after) && {
            let before = ctx.note.record.unwrap();
            &&& after.note.record == Some(
                NoteView { upvotes: (before.upvotes + 1) as u64, updated_at: ctx.now, ..before },
            )
            &&& after.note.record.unwrap().upvotes == before.upvotes + 1
            &&& after.voter == ctx.voter
            &&& after.note.address == ctx.note.address
            &&& after.note.space == ctx.note.space
            &&& after.note.lamports == ctx.note.lamports
        },
{
}

/// An upvote of a note whose counter is at its greatest value fails with an
/// overflow: the counter never wraps.
pub proof fn upvote_never_wraps(ctx: UpvoteNoteView, derived: Option<Seq<u8>>)
    requires
        note_loaded(ctx.voter.is_signer, ctx.note, derived),
        ctx.note.record.unwrap().authority == ctx.note_author,
        ctx.voter.key != ctx.note_author,
        ctx.note.record.unwrap().upvotes == u64::MAX,
    ensures
        upvote_note::outcome(ctx, derived) == Err::<UpvoteNoteView, Failure>(
            Failure::Code(ErrorCode::MathOverflow),
        ),
{
}

/// A tip of nothing fails as an invalid amount.
pub proof fn tip_of_zero_fails(ctx: TipNoteView, derived: Option<Seq<u8>>)
    requires
        note_loaded(ctx.tipper.is_signer, ctx.note, derived),
    ensures
        tip_note::outcome(ctx, 0, derived) == Err::<TipNoteView, Failure>(
            Failure::Code(ErrorCode::InvalidTipAmount),
        ),
{
}

/// An author cannot tip their own note.
pub proof fn tip_by_author_fails(ctx: TipNoteView, amount: u64, derived: Option<Seq<u8>>)
    requires
        note_loaded(ctx.tipper.is_signer, ctx.note, derived),
        amount > 0,
        ctx.note.record.unwrap().authority == ctx.note_author.key,
        ctx.tipper.key == ctx.note_author.key,
    ensures
        tip_note::outcome(ctx, amount, derived) == Err::<TipNoteView, Failure>(
            Failure::Code(ErrorCode::CannotTipOwnNote),
        ),
{
}

/// A tip by anyone but the author that the balances and the note's total can
/// take moves exactly the amount from the tipper to the author and raises the
/// total by exactly the amount, in one step: the sum of the two balances
/// stays the same.
pub proof fn tip_moves_exact_amount(ctx: TipNoteView, amount: u64, derived: Option<Seq<u8>>)
    requires
        note_loaded(ctx.tipper.is_signer, ctx.note, derived),
        amount > 0,
        ctx.note.record.unwrap().authority == ctx.note_author.key,
        ctx.tipper.key != ctx.note_author.key,
        can_transfer(ctx.tipper.lamports, ctx.note_author.lamports, amount),
        ctx.note.record.unwrap().tip_total + amount <= u64::MAX,
    ensures
        tip_note::outcome(ctx, amount, derived) matches Ok(after) && {
            let before = ctx.note.record.unwrap();
            &&& after.tipper.lamports == ctx.tipper.lamports - amount
            &&& after.note_author.lamports == ctx.note_author.lamports + amount
            &&& after.tipper.lamports + after.note_author.lamports == ctx.tipper.lamports
                + ctx.note_author.lamports
            &&& after.note.record == Some(
                NoteView {
                    tip_total: (before.tip_total + amount) as u64,
                    updated_at: ctx.now,
                    ..before
                },
            )
            &&& after.note.record.unwrap().tip_total == before.tip_total + amount
        },
{
}

/// A tip that would take the note's total beyond the greatest 64-bit value
/// fails with an overflow, though the balances could take it: the total never
/// wraps.
pub proof fn tip_never_wraps(ctx: TipNoteView, amount: u64, derived: Option<Seq<u8>>)
    requires
        note_loaded(ctx.tipper.is_signer, ctx.note, derived),
        amount > 0,
        ctx.note.record.unwrap().authority == ctx.note_author.key,
        ctx.tipper.key != ctx.note_author.key,
        can_transfer(ctx.tipper.lamports, ctx.note_author.lamports, amount),
        ctx.note.record.unwrap().tip_total + amount > u64::MAX,
    ensures
        tip_note::outcome(ctx, amount, derived) == Err::<TipNoteView, Failure>(
            Failure::Code(ErrorCode::MathOverflow),
        ),
{
}

/// A deletion that succeeds leaves the address empty, with nothing held.
/// After it, the author may create a note at the same address again, and the
/// new note carries nothing over: both counters are zero and its text is the
/// new one.
pub proof fn creation_after_deletion(
    deletion: DeleteNoteView,
    deletion_derived: Option<Seq<u8>>,
    creation: CreateNoteView,
    content: Seq<char>,
    derived: Option<(Seq<u8>, u8)>,
)
    requires
        delete_note::outcome(deletion, deletion_derived) matches Ok(after) && creation.note
            == after.note,
        creation.authority.is_signer,
        found_at(derived, creation.note.address),
        valid_content(content),
        creation.authority.lamports >= creation.rent,
    ensures
        creation.note.record is None,
        creation.note.lamports == 0,
        creation.note.space == 0,
        create_note::outcome(creation, content, derived) matches Ok(after) && (
        after.note.record matches Some(note) && {
            &&& note.content == content
            &&& note.upvotes == 0
            &&& note.tip_total == 0
            &&& note.created_at == creation.now
            &&& note.updated_at == creation.now
        }),
{
}

/// How a note may change while it stays at its address: its author, its bump
/// and the time of its creation stay, and neither counter falls.
pub open spec fn evolves(before: NoteView, after: NoteView) -> bool {
    &&& after.authority == before.authority
    &&& after.bump == before.bump
    &&& after.created_at == before.created_at
    &&& after.upvotes >= before.upvotes
    &&& after.tip_total >= before.tip_total
}

/// A rewrite keeps author, bump, counters and the time of creation, and keeps
/// the invariant of notes where the clock has not run backwards.
pub proof fn update_preserves_note(ctx: UpdateNoteView, content: Seq<char>, derived: Option<Seq<u8>>)
    requires
        update_note::outcome(ctx, content, derived) is Ok,
    ensures
        ({
            let before = ctx.note.record.unwrap();
            let after = update_note::outcome(ctx, content, derived).unwrap().note.record.unwrap();
            &&& evolves(before, after)
            &&& after.upvotes == before.upvotes
            &&& after.tip_total == before.tip_total
            &&& before.created_at <= ctx.now ==> after.wf()
        }),
{
}

/// An upvote keeps author, bump, text, total and the time of creation, and
/// keeps the invariant of notes where the clock has not run backwards.
pub proof fn upvote_preserves_note(ctx: UpvoteNoteView, derived: Option<Seq<u8>>)
    requires
        upvote_note::outcome(ctx, derived) is Ok,
    ensures
        ({
            let before = ctx.note.record.unwrap();
            let after = upvote_note::outcome(ctx, derived).unwrap().note.record.unwrap();
            &&& evolves(before, after)
            &&& after.content == before.content
            &&& after.tip_total == before.tip_total
            &&& before.wf() && before.created_at <= ctx.now ==> after.wf()
        }),
{
}

/// A tip keeps author, bump, text, upvotes and the time of creation, and
/// keeps the invariant of notes where the clock has not run backwards.
pub proof fn tip_preserves_note(ctx: TipNoteView, amount: u64, derived: Option<Seq<u8>>)
    requires
        tip_note::outcome(ctx, amount, derived) is Ok,
    ensures
        ({
            let before = ctx.note.record.unwrap();
            let after = tip_note::outcome(ctx, amount, derived).unwrap().note.record.unwrap();
            &&& evolves(before, after)
            &&& after.content == before.content
            &&& after.upvotes == before.upvotes
            &&& before.wf() && before.created_at <= ctx.now ==> after.wf()
        }),
{
}

/// Every instruction that succeeds on a stored note has found it at the
/// address derived from the author on record, and leaves it there.
pub proof fn access_requires_derived_address(
    update: UpdateNoteView,
    content: Seq<char>,
    deletion: DeleteNoteView,
    upvote: UpvoteNoteView,
    tip: TipNoteView,
    amount: u64,
)
    ensures
        update_note::outcome(update, content, update.note.derived_address(update.program_id))
            is Ok ==> update.note.is_note_of_author(update.program_id),
        update_note::outcome(update, content, update.note.derived_address(update.program_id))
            matches Ok(after) ==> after.note.is_note_of_author(update.program_id),
        delete_note::outcome(deletion, deletion.note.derived_address(deletion.program_id))
            is Ok ==> deletion.note.is_note_of_author(deletion.program_id),
        upvote_note::outcome(upvote, upvote_note::expected_address(upvote))
            is Ok ==> upvote.note.is_note_of_author(upvote.program_id),
        upvote_note::outcome(upvote, upvote_note::expected_address(upvote)) matches Ok(after)
            ==> after.note.is_note_of_author(upvote.program_id),
        tip_note::outcome(tip, amount, tip_note::expected_address(tip)) is Ok
            ==> tip.note.is_note_of_author(tip.program_id),
        tip_note::outcome(tip, amount, tip_note::expected_address(tip)) matches Ok(after)
            ==> after.note.is_note_of_author(tip.program_id),
{
}

} // verus!
