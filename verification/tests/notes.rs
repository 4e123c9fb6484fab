use onchain_notes::accounts::{shortfall, transfer, NoteAccount, Signer, SystemAccount};
use onchain_notes::address::{address_matches, derive_note_address, find_note_address};
use onchain_notes::constants::{note_seed, MAX_CONTENT_LENGTH};
use onchain_notes::error::{ErrorCode, Failure};
use onchain_notes::instructions::create_note::CreateNote;
use onchain_notes::instructions::delete_note::DeleteNote;
use onchain_notes::instructions::tip_note::TipNote;
use onchain_notes::instructions::update_note::UpdateNote;
use onchain_notes::instructions::upvote_note::UpvoteNote;
use onchain_notes::instructions::{create_note, delete_note, tip_note, update_note, upvote_note};
use onchain_notes::program;
use onchain_notes::state::{Note, Pubkey, DISCRIMINATOR_SIZE};

fn key(fill: u8) -> Pubkey {
    Pubkey::new([fill; 32])
}

fn program_id() -> Pubkey {
    key(7)
}

fn signer(fill: u8, lamports: u64) -> Signer {
    Signer { key: key(fill), is_signer: true, lamports }
}

fn address_of(owner: &Pubkey) -> (Pubkey, u8) {
    find_note_address(&program_id(), owner).expect("an address is found")
}

fn created(owner_fill: u8, content: &str, now: i64) -> NoteAccount {
    let owner = key(owner_fill);
    let (address, _) = address_of(&owner);
    let mut ctx = CreateNote {
        program_id: program_id(),
        now,
        rent: 0,
        authority: signer(owner_fill, 1_000),
        note: NoteAccount::empty(address),
    };
    assert_eq!(program::create_note(&mut ctx, content.to_string()), Ok(()));
    ctx.note
}

#[test]
fn seed_is_the_word_note() {
    assert_eq!(note_seed(), b"note".to_vec());
}

#[test]
fn space_is_header_plus_content() {
    assert_eq!(Note::BASE_SIZE, 69);
    assert_eq!(DISCRIMINATOR_SIZE, 8);
    assert_eq!(Note::space_for(0), 77);
    assert_eq!(Note::space_for(10), 87);
    assert_eq!(Note::max_space(), 77 + MAX_CONTENT_LENGTH);
    assert_eq!(Note::max_space(), Note::space_for(MAX_CONTENT_LENGTH));
}

#[test]
fn keys_compare_by_bytes() {
    let mut bytes = [3u8; 32];
    assert!(key(3).equals(&Pubkey::new(bytes)));
    bytes[31] = 4;
    assert!(!key(3).equals(&Pubkey::new(bytes)));
    bytes[31] = 3;
    bytes[0] = 0;
    assert!(!key(3).equals(&Pubkey::new(bytes)));
}

#[test]
fn derived_address_agrees_with_the_runtime_library() {
    let owner = key(1);
    let (address, bump) = address_of(&owner);
    let program = anchor_lang::prelude::Pubkey::new_from_array([7u8; 32]);
    let (expected, expected_bump) =
        anchor_lang::prelude::Pubkey::find_program_address(&[b"note", &[1u8; 32]], &program);
    assert_eq!(address.bytes, expected.to_bytes());
    assert_eq!(bump, expected_bump);
    assert_ne!(address.bytes, owner.bytes);
    assert_ne!(address.bytes, program_id().bytes);
}

#[test]
fn derivation_depends_on_owner_and_program() {
    let (a, _) = address_of(&key(1));
    let (b, _) = address_of(&key(2));
    assert_ne!(a.bytes, b.bytes);
    let (c, _) = find_note_address(&key(8), &key(1)).expect("an address is found");
    assert_ne!(a.bytes, c.bytes);
    let (again, _) = address_of(&key(1));
    assert_eq!(a.bytes, again.bytes);
}

#[test]
fn stored_bump_derives_the_same_address() {
    let owner = key(1);
    let (address, bump) = address_of(&owner);
    let derived = derive_note_address(&program_id(), &owner, bump);
    assert!(address_matches(&derived, &address));
    assert!(!address_matches(&derived, &owner));
    assert!(!address_matches(&None, &address));
    let other = derive_note_address(&program_id(), &key(2), bump);
    assert!(!address_matches(&other, &address));
}

#[test]
fn create_then_lookup_yields_the_content() {
    let note = created(1, "hello", 50);
    let (address, bump) = address_of(&key(1));
    assert_eq!(note.address.bytes, address.bytes);
    assert_eq!(note.space, Note::space_for(5));
    let record = note.data.clone().expect("a note is stored");
    assert_eq!(record.content, "hello");
    assert_eq!(record.authority.bytes, [1u8; 32]);
    assert_eq!(record.bump, bump);
    assert_eq!(record.upvotes, 0);
    assert_eq!(record.tip_total, 0);
    assert_eq!(record.created_at, 50);
    assert_eq!(record.updated_at, 50);
    let derived = note.derive_address(&program_id());
    assert!(address_matches(&derived, &note.address));
    let found = note.lookup(&program_id(), &key(1)).expect("the author's note is found");
    assert_eq!(found.content, "hello");
    assert_eq!(found.upvotes, 0);
    assert_eq!(found.tip_total, 0);
    assert_eq!(found.created_at, found.updated_at);
    assert!(note.lookup(&program_id(), &key(2)).is_none());
    assert!(note.lookup(&key(8), &key(1)).is_none());
    assert!(NoteAccount::empty(address).lookup(&program_id(), &key(1)).is_none());
    let mut moved = note.clone();
    moved.address = key(9);
    assert!(moved.lookup(&program_id(), &key(1)).is_none());
}

#[test]
fn create_accepts_content_of_maximum_length() {
    let text = "x".repeat(MAX_CONTENT_LENGTH);
    let note = created(1, &text, 1);
    assert_eq!(note.space, Note::max_space());
    assert_eq!(note.data.expect("a note is stored").content, text);
}

#[test]
fn create_counts_bytes_not_characters() {
    let (address, _) = address_of(&key(1));
    let text = "é".repeat(MAX_CONTENT_LENGTH / 2 + 1);
    let mut ctx = CreateNote {
        program_id: program_id(),
        now: 1,
        rent: 0,
        authority: signer(1, 0),
        note: NoteAccount::empty(address),
    };
    assert_eq!(
        program::create_note(&mut ctx, text),
        Err(Failure::Code(ErrorCode::ContentTooLong))
    );
    let fits = "é".repeat(MAX_CONTENT_LENGTH / 2);
    assert_eq!(program::create_note(&mut ctx, fits), Ok(()));
    assert_eq!(ctx.note.space, Note::max_space());
}

#[test]
fn create_rejects_empty_and_too_long_content() {
    let (address, _) = address_of(&key(1));
    let mut ctx = CreateNote {
        program_id: program_id(),
        now: 1,
        rent: 0,
        authority: signer(1, 0),
        note: NoteAccount::empty(address),
    };
    assert_eq!(
        create_note::handler(&mut ctx, String::new()),
        Err(Failure::Code(ErrorCode::ContentEmpty))
    );
    assert!(ctx.note.data.is_none());
    assert_eq!(
        create_note::handler(&mut ctx, "x".repeat(MAX_CONTENT_LENGTH + 1)),
        Err(Failure::Code(ErrorCode::ContentTooLong))
    );
    assert!(ctx.note.data.is_none());
    assert_eq!(ctx.note.space, 0);
}

#[test]
fn create_rejects_wrong_address_and_missing_signature() {
    let (address, bump) = address_of(&key(1));
    let mut ctx = CreateNote {
        program_id: program_id(),
        now: 1,
        rent: 0,
        authority: signer(1, 0),
        note: NoteAccount::empty(key(9)),
    };
    assert_eq!(create_note::handler(&mut ctx, "hi".to_string()), Err(Failure::SeedsMismatch));
    assert_eq!(
        create_note::handler_with_address(&mut ctx, "hi".to_string(), None),
        Err(Failure::SeedsMismatch)
    );
    ctx.note = NoteAccount::empty(address);
    ctx.authority.is_signer = false;
    assert_eq!(create_note::handler(&mut ctx, "hi".to_string()), Err(Failure::MissingSigner));
    ctx.authority.is_signer = true;
    assert_eq!(
        create_note::handler_with_address(&mut ctx, "hi".to_string(), Some((address, bump))),
        Ok(())
    );
    assert_eq!(ctx.note.data.expect("a note is stored").bump, bump);
}

#[test]
fn second_create_for_same_owner_fails() {
    let note = created(1, "first", 1);
    let mut ctx =
        CreateNote { program_id: program_id(), now: 2,
        rent: 0, authority: signer(1, 0), note };
    assert_eq!(program::create_note(&mut ctx, "second".to_string()), Err(Failure::AddressInUse));
    let record = ctx.note.data.expect("the first note stays");
    assert_eq!(record.content, "first");
    assert_eq!(record.updated_at, 1);
}

#[test]
fn update_replaces_content_and_resizes() {
    let note = created(1, "hello", 10);
    let mut ctx =
        UpdateNote { program_id: program_id(), now: 20,
        rent: 0, authority: signer(1, 0), note };
    assert_eq!(program::update_note(&mut ctx, "a longer text".to_string()), Ok(()));
    assert_eq!(ctx.note.space, Note::space_for(13));
    let record = ctx.note.data.clone().expect("a note is stored");
    assert_eq!(record.content, "a longer text");
    assert_eq!(record.created_at, 10);
    assert_eq!(record.updated_at, 20);
    assert_eq!(record.upvotes, 0);
    assert_eq!(record.tip_total, 0);
    assert_eq!(record.authority.bytes, [1u8; 32]);
    assert_eq!(update_note::handler(&mut ctx, "s".to_string()), Ok(()));
    assert_eq!(ctx.note.space, Note::space_for(1));
}

#[test]
fn update_by_non_owner_fails_and_leaves_content() {
    let note = created(1, "mine", 10);
    let mut ctx =
        UpdateNote { program_id: program_id(), now: 20,
        rent: 0, authority: signer(2, 0), note };
    assert_eq!(program::update_note(&mut ctx, "theirs".to_string()), Err(Failure::Unauthorized));
    let record = ctx.note.data.expect("a note is stored");
    assert_eq!(record.content, "mine");
    assert_eq!(record.updated_at, 10);
}

#[test]
fn update_with_invalid_length_fails_and_leaves_content() {
    let note = created(1, "mine", 10);
    let mut ctx =
        UpdateNote { program_id: program_id(), now: 20,
        rent: 0, authority: signer(1, 0), note };
    assert_eq!(
        program::update_note(&mut ctx, String::new()),
        Err(Failure::Code(ErrorCode::ContentEmpty))
    );
    assert_eq!(
        program::update_note(&mut ctx, "y".repeat(MAX_CONTENT_LENGTH + 1)),
        Err(Failure::Code(ErrorCode::ContentTooLong))
    );
    assert_eq!(ctx.note.space, Note::space_for(4));
    let record = ctx.note.data.expect("a note is stored");
    assert_eq!(record.content, "mine");
    assert_eq!(record.updated_at, 10);
}

#[test]
fn update_checks_signature_presence_and_address() {
    let note = created(1, "mine", 10);
    let mut ctx = UpdateNote {
        program_id: program_id(),
        now: 20,
        rent: 0,
        authority: signer(1, 0),
        note: NoteAccount::empty(note.address),
    };
    assert_eq!(update_note::handler(&mut ctx, "x".to_string()), Err(Failure::NoteMissing));
    ctx.note = note.clone();
    ctx.authority.is_signer = false;
    assert_eq!(update_note::handler(&mut ctx, "x".to_string()), Err(Failure::MissingSigner));
    ctx.authority.is_signer = true;
    ctx.note.address = key(9);
    assert_eq!(update_note::handler(&mut ctx, "x".to_string()), Err(Failure::SeedsMismatch));
    ctx.note = note;
    ctx.program_id = key(8);
    assert_eq!(update_note::handler(&mut ctx, "x".to_string()), Err(Failure::SeedsMismatch));
}

#[test]
fn delete_then_create_yields_fresh_note() {
    let mut note = created(1, "old", 10);
    note.lamports = 300;
    if let Some(record) = note.data.as_mut() {
        record.upvotes = 5;
        record.tip_total = 9;
    }
    let mut deletion = DeleteNote { program_id: program_id(), authority: signer(1, 50), note };
    assert_eq!(program::delete_note(&mut deletion), Ok(()));
    assert!(deletion.note.data.is_none());
    assert_eq!(deletion.note.lamports, 0);
    assert_eq!(deletion.note.space, 0);
    assert_eq!(deletion.authority.lamports, 350);
    let mut creation = CreateNote {
        program_id: program_id(),
        now: 30,
        rent: 0,
        authority: signer(1, 350),
        note: deletion.note,
    };
    assert_eq!(program::create_note(&mut creation, "new".to_string()), Ok(()));
    let record = creation.note.data.expect("a note is stored");
    assert_eq!(record.content, "new");
    assert_eq!(record.upvotes, 0);
    assert_eq!(record.tip_total, 0);
    assert_eq!(record.created_at, 30);
    assert_eq!(record.updated_at, 30);
}

#[test]
fn delete_by_non_owner_fails() {
    let note = created(1, "old", 10);
    let mut ctx = DeleteNote { program_id: program_id(), authority: signer(2, 50), note };
    assert_eq!(delete_note::handler(&mut ctx), Err(Failure::Unauthorized));
    assert!(ctx.note.data.is_some());
    assert_eq!(ctx.authority.lamports, 50);
    ctx.authority = signer(1, 0);
    ctx.authority.is_signer = false;
    assert_eq!(delete_note::handler(&mut ctx), Err(Failure::MissingSigner));
    ctx.authority.is_signer = true;
    assert_eq!(delete_note::handler_with_address(&mut ctx, None), Err(Failure::SeedsMismatch));
    ctx.note.lamports = 1;
    ctx.authority.lamports = u64::MAX;
    assert_eq!(delete_note::handler(&mut ctx), Err(Failure::TransferFailed));
    assert!(ctx.note.data.is_some());
    ctx.authority.lamports = u64::MAX - 1;
    assert_eq!(delete_note::handler(&mut ctx), Ok(()));
    assert_eq!(ctx.authority.lamports, u64::MAX);
    assert_eq!(delete_note::handler(&mut ctx), Err(Failure::NoteMissing));
}

#[test]
fn upvote_by_owner_fails() {
    let note = created(1, "text", 10);
    let mut ctx = UpvoteNote {
        program_id: program_id(),
        now: 20,
        voter: signer(1, 0),
        note_author: key(1),
        note,
    };
    assert_eq!(
        program::upvote_note(&mut ctx),
        Err(Failure::Code(ErrorCode::CannotUpvoteOwnNote))
    );
    let record = ctx.note.data.expect("a note is stored");
    assert_eq!(record.upvotes, 0);
    assert_eq!(record.updated_at, 10);
}

#[test]
fn upvote_by_other_adds_one() {
    let note = created(1, "text", 10);
    let mut ctx = UpvoteNote {
        program_id: program_id(),
        now: 20,
        voter: signer(2, 0),
        note_author: key(1),
        note,
    };
    assert_eq!(program::upvote_note(&mut ctx), Ok(()));
    ctx.now = 25;
    ctx.voter = signer(3, 0);
    assert_eq!(upvote_note::handler(&mut ctx), Ok(()));
    let record = ctx.note.data.expect("a note is stored");
    assert_eq!(record.upvotes, 2);
    assert_eq!(record.updated_at, 25);
    assert_eq!(record.created_at, 10);
    assert_eq!(record.content, "text");
    assert_eq!(record.tip_total, 0);
}

#[test]
fn upvote_overflow_and_mismatches() {
    let mut note = created(1, "text", 10);
    if let Some(record) = note.data.as_mut() {
        record.upvotes = u64::MAX;
    }
    let mut ctx = UpvoteNote {
        program_id: program_id(),
        now: 20,
        voter: signer(2, 0),
        note_author: key(1),
        note,
    };
    assert_eq!(upvote_note::handler(&mut ctx), Err(Failure::Code(ErrorCode::MathOverflow)));
    assert_eq!(ctx.note.data.as_ref().map(|n| n.upvotes), Some(u64::MAX));
    ctx.note_author = key(3);
    assert_eq!(upvote_note::handler(&mut ctx), Err(Failure::SeedsMismatch));
    let claimed = Some(ctx.note.address);
    assert_eq!(
        upvote_note::handler_with_address(&mut ctx, claimed),
        Err(Failure::Code(ErrorCode::AuthorMismatch))
    );
    ctx.voter.is_signer = false;
    assert_eq!(upvote_note::handler(&mut ctx), Err(Failure::MissingSigner));
    ctx.voter.is_signer = true;
    ctx.note.data = None;
    assert_eq!(upvote_note::handler(&mut ctx), Err(Failure::NoteMissing));
}

fn tip_ctx(tipper: u8, balance: u64, author_balance: u64) -> TipNote {
    TipNote {
        program_id: program_id(),
        now: 20,
        tipper: signer(tipper, balance),
        note_author: SystemAccount { key: key(1), lamports: author_balance },
        note: created(1, "text", 10),
    }
}

#[test]
fn tip_of_zero_fails() {
    let mut ctx = tip_ctx(2, 100, 5);
    assert_eq!(program::tip_note(&mut ctx, 0), Err(Failure::Code(ErrorCode::InvalidTipAmount)));
    assert_eq!(ctx.tipper.lamports, 100);
    assert_eq!(ctx.note_author.lamports, 5);
}

#[test]
fn tip_by_owner_fails() {
    let mut ctx = tip_ctx(1, 100, 5);
    assert_eq!(program::tip_note(&mut ctx, 10), Err(Failure::Code(ErrorCode::CannotTipOwnNote)));
    assert_eq!(ctx.tipper.lamports, 100);
    assert_eq!(ctx.note_author.lamports, 5);
    assert_eq!(ctx.note.data.expect("a note is stored").tip_total, 0);
}

#[test]
fn tip_moves_amount_and_adds_to_total() {
    let mut ctx = tip_ctx(2, 100, 5);
    assert_eq!(program::tip_note(&mut ctx, 30), Ok(()));
    assert_eq!(ctx.tipper.lamports, 70);
    assert_eq!(ctx.note_author.lamports, 35);
    ctx.now = 40;
    assert_eq!(tip_note::handler(&mut ctx, 70), Ok(()));
    assert_eq!(ctx.tipper.lamports, 0);
    assert_eq!(ctx.note_author.lamports, 105);
    let record = ctx.note.data.expect("a note is stored");
    assert_eq!(record.tip_total, 100);
    assert_eq!(record.updated_at, 40);
    assert_eq!(record.created_at, 10);
    assert_eq!(record.upvotes, 0);
    assert_eq!(record.content, "text");
}

#[test]
fn tip_beyond_maximum_total_fails_and_changes_nothing() {
    let mut ctx = tip_ctx(2, u64::MAX, 0);
    if let Some(record) = ctx.note.data.as_mut() {
        record.tip_total = u64::MAX - 5;
    }
    assert_eq!(tip_note::handler(&mut ctx, 5), Ok(()));
    assert_eq!(ctx.note.data.as_ref().map(|n| n.tip_total), Some(u64::MAX));
    assert_eq!(tip_note::handler(&mut ctx, 1), Err(Failure::Code(ErrorCode::MathOverflow)));
    assert_eq!(ctx.note.data.as_ref().map(|n| n.tip_total), Some(u64::MAX));
    assert_eq!(ctx.note.data.as_ref().map(|n| n.updated_at), Some(20));
    assert_eq!(ctx.tipper.lamports, u64::MAX - 5);
    assert_eq!(ctx.note_author.lamports, 5);
}

#[test]
fn tip_fails_when_transfer_fails() {
    let mut ctx = tip_ctx(2, 10, 5);
    assert_eq!(tip_note::handler(&mut ctx, 11), Err(Failure::TransferFailed));
    assert_eq!(ctx.tipper.lamports, 10);
    assert_eq!(ctx.note_author.lamports, 5);
    assert_eq!(ctx.note.data.as_ref().map(|n| n.tip_total), Some(0));
    let mut full = tip_ctx(2, 10, u64::MAX);
    assert_eq!(tip_note::handler(&mut full, 1), Err(Failure::TransferFailed));
    assert_eq!(full.note_author.lamports, u64::MAX);
}

#[test]
fn tip_checks_accounts() {
    let mut ctx = tip_ctx(2, 10, 5);
    ctx.note_author.key = key(3);
    assert_eq!(tip_note::handler(&mut ctx, 1), Err(Failure::SeedsMismatch));
    let claimed = Some(ctx.note.address);
    assert_eq!(
        tip_note::handler_with_address(&mut ctx, 1, claimed),
        Err(Failure::Code(ErrorCode::AuthorMismatch))
    );
    ctx.tipper.is_signer = false;
    assert_eq!(tip_note::handler(&mut ctx, 1), Err(Failure::MissingSigner));
    ctx.tipper.is_signer = true;
    ctx.note.data = None;
    assert_eq!(tip_note::handler(&mut ctx, 1), Err(Failure::NoteMissing));
}

#[test]
fn transfer_moves_or_fails() {
    assert_eq!(transfer(10, 5, 3), Ok((7, 8)));
    assert_eq!(transfer(10, 5, 10), Ok((0, 15)));
    assert_eq!(transfer(10, 5, 11), Err(Failure::TransferFailed));
    assert_eq!(transfer(10, u64::MAX, 1), Err(Failure::TransferFailed));
    assert_eq!(transfer(10, 5, 0), Ok((10, 5)));
}

#[test]
fn error_codes_and_messages() {
    assert_eq!(ErrorCode::ContentEmpty.code(), 6000);
    assert_eq!(ErrorCode::ContentTooLong.code(), 6001);
    assert_eq!(ErrorCode::AuthorMismatch.code(), 6002);
    assert_eq!(ErrorCode::CannotUpvoteOwnNote.code(), 6003);
    assert_eq!(ErrorCode::CannotTipOwnNote.code(), 6004);
    assert_eq!(ErrorCode::InvalidTipAmount.code(), 6005);
    assert_eq!(ErrorCode::MathOverflow.code(), 6006);
    assert_eq!(ErrorCode::ContentEmpty.message(), "Content must not be empty");
    assert_eq!(ErrorCode::ContentTooLong.message(), "Content exceeds maximum length");
    assert_eq!(
        ErrorCode::AuthorMismatch.message(),
        "Note authority does not match the PDA seeds"
    );
    assert_eq!(ErrorCode::CannotUpvoteOwnNote.message(), "Authors cannot upvote their own note");
    assert_eq!(ErrorCode::CannotTipOwnNote.message(), "Authors cannot tip their own note");
    assert_eq!(ErrorCode::InvalidTipAmount.message(), "Tip amount must be greater than zero");
    assert_eq!(ErrorCode::MathOverflow.message(), "Mathematical operation overflowed");
}

#[test]
fn shortfall_is_what_is_missing() {
    assert_eq!(shortfall(0, 100), 100);
    assert_eq!(shortfall(40, 100), 60);
    assert_eq!(shortfall(100, 100), 0);
    assert_eq!(shortfall(150, 100), 0);
}

#[test]
fn create_is_paid_for_by_the_author() {
    let (address, _) = address_of(&key(1));
    let mut ctx = CreateNote {
        program_id: program_id(),
        now: 1,
        rent: 900,
        authority: signer(1, 1_000),
        note: NoteAccount::empty(address),
    };
    ctx.note.lamports = 100;
    assert_eq!(program::create_note(&mut ctx, "paid".to_string()), Ok(()));
    assert_eq!(ctx.authority.lamports, 200);
    assert_eq!(ctx.note.lamports, 900);
}

#[test]
fn create_fails_when_the_author_cannot_pay() {
    let (address, _) = address_of(&key(1));
    let mut ctx = CreateNote {
        program_id: program_id(),
        now: 1,
        rent: 900,
        authority: signer(1, 899),
        note: NoteAccount::empty(address),
    };
    assert_eq!(program::create_note(&mut ctx, "unpaid".to_string()), Err(Failure::TransferFailed));
    assert!(ctx.note.data.is_none());
    assert_eq!(ctx.authority.lamports, 899);
    assert_eq!(ctx.note.lamports, 0);
    assert_eq!(
        program::create_note(&mut ctx, String::new()),
        Err(Failure::Code(ErrorCode::ContentEmpty))
    );
}

#[test]
fn update_settles_the_price_of_the_storage() {
    let mut note = created(1, "hello", 10);
    note.lamports = 500;
    let mut ctx = UpdateNote {
        program_id: program_id(),
        now: 20,
        rent: 650,
        authority: signer(1, 1_000),
        note,
    };
    assert_eq!(program::update_note(&mut ctx, "hello, world".to_string()), Ok(()));
    assert_eq!(ctx.authority.lamports, 850);
    assert_eq!(ctx.note.lamports, 650);
    ctx.rent = 400;
    assert_eq!(program::update_note(&mut ctx, "hi".to_string()), Ok(()));
    assert_eq!(ctx.authority.lamports, 1_100);
    assert_eq!(ctx.note.lamports, 400);
    assert_eq!(ctx.note.space, Note::space_for(2));
    ctx.rent = 5_000;
    assert_eq!(
        program::update_note(&mut ctx, "more than the author can pay for".to_string()),
        Err(Failure::TransferFailed)
    );
    assert_eq!(ctx.authority.lamports, 1_100);
    assert_eq!(ctx.note.lamports, 400);
    assert_eq!(ctx.note.data.expect("a note is stored").content, "hi");
}

#[test]
fn stored_bytes_follow_the_layout() {
    let note = Note {
        authority: key(1),
        bump: 254,
        upvotes: 2,
        tip_total: 0x0102,
        created_at: -1,
        updated_at: 5,
        content: "hé".to_string(),
    };
    let mut expected: Vec<u8> = vec![1u8; 32];
    expected.push(254);
    expected.extend_from_slice(&[2, 0, 0, 0, 0, 0, 0, 0]);
    expected.extend_from_slice(&[2, 1, 0, 0, 0, 0, 0, 0]);
    expected.extend_from_slice(&[255; 8]);
    expected.extend_from_slice(&[5, 0, 0, 0, 0, 0, 0, 0]);
    expected.extend_from_slice(&[3, 0, 0, 0]);
    expected.extend_from_slice(&[0x68, 0xc3, 0xa9]);
    let bytes = note.to_bytes();
    assert_eq!(bytes, expected);
    assert_eq!(DISCRIMINATOR_SIZE + bytes.len(), Note::space_for(3));
}

#[test]
fn stored_bytes_of_a_created_note_fill_its_space() {
    let account = created(1, "hello", 50);
    let bytes = account.data.expect("a note is stored").to_bytes();
    assert_eq!(DISCRIMINATOR_SIZE + bytes.len(), account.space);
    assert_eq!(&bytes[bytes.len() - 5..], b"hello");
}
