use vstd::prelude::*;
use crate::address::{address_matches, derive_note_address, key_view, note_address_with_bump};
use crate::error::Failure;
use crate::state::{Note, NoteView, Pubkey};

verus! {

/// An account that pays or acts in an instruction, with its balance and with
/// whether it signed.
#[derive(Clone, Copy, Debug)]
pub struct Signer {
    pub key: Pubkey,
    pub is_signer: bool,
    pub lamports: u64,
}

pub struct SignerView {
    pub key: Seq<u8>,
    pub is_signer: bool,
    pub lamports: u64,
}

impl View for Signer {
    type V = SignerView;

    open spec fn view(&self) -> SignerView {
        SignerView { key: self.key@, is_signer: self.is_signer, lamports: self.lamports }
    }
}

/// An account that only holds a balance: the receiver of a tip.
#[derive(Clone, Copy, Debug)]
pub struct SystemAccount {
    pub key: Pubkey,
    pub lamports: u64,
}

pub struct SystemAccountView {
    pub key: Seq<u8>,
    pub lamports: u64,
}

impl View for SystemAccount {
    type V = SystemAccountView;

    open spec fn view(&self) -> SystemAccountView {
        SystemAccountView { key: self.key@, lamports: self.lamports }
    }
}

/// Whether `amount` can move between two balances: the payer has it, and the
/// receiver can hold it.
pub open spec fn can_transfer(from: u64, to: u64, amount: u64) -> bool {
    amount <= from && to + amount <= u64::MAX
}

/// Moves `amount` from one balance to another, or moves nothing and fails.
/// Returns the two balances afterwards, the payer's first.
pub fn transfer(from: u64, to: u64, amount: u64) -> (moved: Result<(u64, u64), Failure>)
    ensures
        can_transfer(from, to, amount) ==> moved == Ok::<(u64, u64), Failure>(
            ((from - amount) as u64, (to + amount) as u64),
        ),
        !can_transfer(from, to, amount) ==> moved == Err::<(u64, u64), Failure>(
            Failure::TransferFailed,
        ),
{
    match (from.checked_sub(amount), to.checked_add(amount)) {
        (Some(left), Some(raised)) => Ok((left, raised)),
        _ => Err(Failure::TransferFailed),
    }
}

/// What a storage that holds `held` lacks of `price`.
pub open spec fn shortfall_spec(held: u64, price: u64) -> u64 {
    if price > held {
        (price - held) as u64
    } else {
        0
    }
}

/// What a storage that holds `held` lacks of `price`.
pub fn shortfall(held: u64, price: u64) -> (due: u64)
    ensures
        due == shortfall_spec(held, price),
{
    if price > held {
        price - held
    } else {
        0
    }
}

/// The storage at one address: empty, or holding a note.
#[derive(Clone, Debug)]
pub struct NoteAccount {
    pub address: Pubkey,
    /// Balance that the storage holds while it is allocated.
    pub lamports: u64,
    /// Bytes allocated.
    pub space: usize,
    pub data: Option<Note>,
}

pub struct NoteAccountView {
    pub address: Seq<u8>,
    pub lamports: u64,
    pub space: usize,
    pub record: Option<NoteView>,
}

impl View for NoteAccount {
    type V = NoteAccountView;

    open spec fn view(&self) -> NoteAccountView {
        NoteAccountView {
            address: self.address@,
            lamports: self.lamports,
            space: self.space,
            record: match self.data {
                Some(note) => Some(note@),
                None => None,
            },
        }
    }
}

impl NoteAccountView {
    /// The address derived again from the stored author and bump.
    pub open spec fn derived_address(self, program_id: Seq<u8>) -> Option<Seq<u8>> {
        match self.record {
            Some(note) => note_address_with_bump(program_id, note.authority, note.bump),
            None => None,
        }
    }

    /// The address derived for `author` with the stored bump.
    pub open spec fn derived_address_for(self, program_id: Seq<u8>, author: Seq<u8>) -> Option<
        Seq<u8>,
    > {
        match self.record {
            Some(note) => note_address_with_bump(program_id, author, note.bump),
            None => None,
        }
    }

    /// The account holds a note, and its address is the one derived from the
    /// note's author and bump.
    pub open spec fn is_note_of_author(self, program_id: Seq<u8>) -> bool {
        self.record is Some && self.derived_address(program_id) == Some(self.address)
    }

    /// The account holds the note of `author`, at the address derived for
    /// `author`.
    pub open spec fn holds_note_of(self, program_id: Seq<u8>, author: Seq<u8>) -> bool {
        self.is_note_of_author(program_id) && self.record.unwrap().authority == author
    }
}

impl NoteAccount {
    /// Derives the account's address again from the author and bump of the
    /// note it holds. An empty account derives nothing.
    pub fn derive_address(&self, program_id: &Pubkey) -> (derived: Option<Pubkey>)
        ensures
            key_view(derived) == self@.derived_address(program_id@),
    {
        match &self.data {
            Some(note) => derive_note_address(program_id, &note.authority, note.bump),
            None => None,
        }
    }

    /// Looks the note of `author` up: the note that the account holds, where
    /// it is the note of `author` and the account's address is the one
    /// derived for `author` with the stored bump.
    pub fn lookup(&self, program_id: &Pubkey, author: &Pubkey) -> (found: Option<&Note>)
        ensures
            found is Some == self@.holds_note_of(program_id@, author@),
            found matches Some(note) ==> self.data == Some(*note),
    {
        match &self.data {
            Some(note) => {
                let derived = derive_note_address(program_id, &note.authority, note.bump);
                if note.authority.equals(author) && address_matches(&derived, &self.address) {
                    Some(note)
                } else {
                    None
                }
            },
            None => None,
        }
    }

    /// Derives the address of the note of `author` with the bump of the note
    /// that the account holds. An empty account derives nothing.
    pub fn derive_address_for(&self, program_id: &Pubkey, author: &Pubkey) -> (derived: Option<
        Pubkey,
    >)
        ensures
            key_view(derived) == self@.derived_address_for(program_id@, author@),
    {
        match &self.data {
            Some(note) => derive_note_address(program_id, author, note.bump),
            None => None,
        }
    }

    /// An address at which nothing is stored.
    pub fn empty(address: Pubkey) -> (account: NoteAccount)
        ensures
            account@ == (NoteAccountView {
                address: address@,
                lamports: 0,
                space: 0,
                record: None,
            }),
    {
        NoteAccount { address, lamports: 0, space: 0, data: None }
    }
}

} // verus!
