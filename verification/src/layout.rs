use vstd::prelude::*;
use vstd::bytes::{
    lemma_auto_spec_u32_to_from_le_bytes,
    lemma_auto_spec_u64_to_from_le_bytes,
    spec_u32_to_le_bytes,
    spec_u64_to_le_bytes,
    u32_to_le_bytes,
    u64_to_le_bytes,
};
use vstd::utf8::encode_utf8;
use crate::state::{content_len, space_for_spec, Note, NoteView, DISCRIMINATOR_SIZE};

verus! {

/// The stored bytes of a note, after the tag that precedes every record: the
/// author's key, the bump, the two counters and the two timestamps as 64-bit
/// little-endian numbers, the length of the text in bytes as a 32-bit
/// little-endian number, and the text.
pub open spec fn record_bytes(note: NoteView) -> Seq<u8> {
    note.authority + seq![note.bump] + spec_u64_to_le_bytes(note.upvotes) + spec_u64_to_le_bytes(
        note.tip_total,
    ) + spec_u64_to_le_bytes(note.created_at as u64) + spec_u64_to_le_bytes(note.updated_at as u64)
        + spec_u32_to_le_bytes(content_len(note.content) as u32) + encode_utf8(note.content)
}

/// The stored bytes of a note with a key of 32 bytes, together with the tag
/// before them, fill exactly the storage that is allocated for its text.
pub proof fn record_fills_its_space(note: NoteView)
    requires
        note.authority.len() == 32,
    ensures
        DISCRIMINATOR_SIZE + record_bytes(note).len() == space_for_spec(content_len(note.content)),
{
    lemma_auto_spec_u64_to_from_le_bytes();
    lemma_auto_spec_u32_to_from_le_bytes();
}

impl Note {
    /// The note as it is stored, without the tag that precedes every record.
    /// The text must be short enough for its length to fit the 32-bit prefix.
    pub fn to_bytes(&self) -> (bytes: Vec<u8>)
        requires
            content_len(self@.content) <= u32::MAX,
        ensures
            bytes@ == record_bytes(self@),
            bytes@.len() == Note::BASE_SIZE + content_len(self@.content),
    {
        let mut bytes: Vec<u8> = Vec::new();
        let mut i: usize = 0;
        while i < 32
            invariant
                i <= 32,
                bytes@ == self.authority@.subrange(0, i as int),
            decreases 32 - i,
        {
            bytes.push(self.authority.bytes[i]);
            i += 1;
            assert(bytes@ =~= self.authority@.subrange(0, i as int));
        }
        assert(bytes@ =~= self.authority@);
        bytes.push(self.bump);
        let mut upvotes = u64_to_le_bytes(self.upvotes);
        bytes.append(&mut upvotes);
        let mut tip_total = u64_to_le_bytes(self.tip_total);
        bytes.append(&mut tip_total);
        let mut created_at = u64_to_le_bytes(#[verifier::truncate] (self.created_at as u64));
        bytes.append(&mut created_at);
        let mut updated_at = u64_to_le_bytes(#[verifier::truncate] (self.updated_at as u64));
        bytes.append(&mut updated_at);
        let text = self.content.as_str().as_bytes();
        let len: usize = text.len();
        let mut prefix = u32_to_le_bytes(len as u32);
        bytes.append(&mut prefix);
        let ghost head = bytes@;
        let mut j: usize = 0;
        while j < len
            invariant
                j <= len,
                len == text@.len(),
                bytes@ == head + text@.subrange(0, j as int),
            decreases len - j,
        {
            bytes.push(text[j]);
            j += 1;
            assert(bytes@ =~= head + text@.subrange(0, j as int));
        }
        assert(text@.subrange(0, len as int) =~= text@);
        assert(bytes@ =~= record_bytes(self@));
        bytes
    }
}

} // verus!
