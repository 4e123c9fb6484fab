use vstd::prelude::*;
use vstd::utf8::encode_utf8;
use crate::constants::MAX_CONTENT_LENGTH;

verus! {

/// A public key: 32 bytes that name an author, a program or an account.
#[derive(Clone, Copy, Debug)]
pub struct Pubkey {
    pub bytes: [u8; 32],
}

impl View for Pubkey {
    type V = Seq<u8>;

    open spec fn view(&self) -> Seq<u8> {
        self.bytes@
    }
}

impl Pubkey {
    pub fn new(bytes: [u8; 32]) -> (key: Pubkey)
        ensures
            key@ == bytes@,
    {
        Pubkey { bytes }
    }

    /// Whether two keys hold the same bytes.
    pub fn equals(&self, other: &Pubkey) -> (same: bool)
        ensures
            same == (self@ == other@),
    {
        let mut i: usize = 0;
        while i < 32
            invariant
                i <= 32,
                forall|j: int| 0 <= j < i ==> self.bytes[j] == other.bytes[j],
            decreases 32 - i,
        {
            if self.bytes[i] != other.bytes[i] {
                assert(self@[i as int] != other@[i as int]);
                return false;
            }
            i += 1;
        }
        assert(self@ =~= other@);
        true
    }
}

/// Number of bytes that `content` takes when stored.
pub open spec fn content_len(content: Seq<char>) -> nat {
    encode_utf8(content).len()
}

/// The one note of an author.
#[derive(Clone, Debug)]
pub struct Note {
    pub authority: Pubkey,
    pub bump: u8,
    pub upvotes: u64,
    pub tip_total: u64,
    pub created_at: i64,
    pub updated_at: i64,
    pub content: String,
}

/// A note as the contracts speak of it.
pub struct NoteView {
    pub authority: Seq<u8>,
    pub bump: u8,
    pub upvotes: u64,
    pub tip_total: u64,
    pub created_at: i64,
    pub updated_at: i64,
    pub content: Seq<char>,
}

impl NoteView {
    /// What holds of every stored note: its text is not empty and fits the
    /// limit, and it was not changed before it was made.
    pub open spec fn wf(self) -> bool {
        &&& self.content.len() > 0
        &&& content_len(self.content) <= MAX_CONTENT_LENGTH
        &&& self.created_at <= self.updated_at
    }
}

impl View for Note {
    type V = NoteView;

    open spec fn view(&self) -> NoteView {
        NoteView {
            authority: self.authority@,
            bump: self.bump,
            upvotes: self.upvotes,
            tip_total: self.tip_total,
            created_at: self.created_at,
            updated_at: self.updated_at,
            content: self.content@,
        }
    }
}

/// Bytes of the tag that precedes every stored record.
pub const DISCRIMINATOR_SIZE: usize = 8;

/// Storage that a note with `content_len` bytes of text needs.
pub open spec fn space_for_spec(content_len: nat) -> nat {
    DISCRIMINATOR_SIZE as nat + Note::BASE_SIZE as nat + content_len
}

impl Note {
    /// Bytes of a stored note before its text: the key, the bump, two
    /// counters, two timestamps and the length of the text.
    pub const BASE_SIZE: usize = 32 + 1 + 8 + 8 + 8 + 8 + 4;

    /// Storage of a note whose text is as long as the limit allows.
    pub fn max_space() -> (space: usize)
        ensures
            space == space_for_spec(MAX_CONTENT_LENGTH as nat),
    {
        DISCRIMINATOR_SIZE + Self::BASE_SIZE + MAX_CONTENT_LENGTH
    }

    /// Storage of a note whose text takes `content_len` bytes.
    pub fn space_for(content_len: usize) -> (space: usize)
        requires
            space_for_spec(content_len as nat) <= usize::MAX,
        ensures
            space == space_for_spec(content_len as nat),
    {
        DISCRIMINATOR_SIZE + Self::BASE_SIZE + content_len
    }
}

} // verus!
