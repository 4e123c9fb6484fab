use vstd::prelude::*;

verus! {

/// Greatest number of bytes a note's text may hold.
pub const MAX_CONTENT_LENGTH: usize = 280;

/// The tag that separates note addresses from any other address the program
/// derives: the ASCII bytes of `note`.
pub open spec fn note_seed_spec() -> Seq<u8> {
    seq![110u8, 111u8, 116u8, 101u8]
}

/// The tag as bytes.
pub fn note_seed() -> (seed: Vec<u8>)
    ensures
        seed@ == note_seed_spec(),
{
    let mut seed: Vec<u8> = Vec::new();
    seed.push(110u8);
    seed.push(111u8);
    seed.push(116u8);
    seed.push(101u8);
    assert(seed@ =~= note_seed_spec());
    seed
}

} // verus!
