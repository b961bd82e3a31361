//! The high score as it is kept on the save medium: five bytes.
//!
//! Byte 0 tells whether a score was ever saved: zero means that there is
//! none. Bytes 1 to 4 hold the score, least significant byte first.
use vstd::prelude::*;
use vstd::std_specs::convert::FromSpecImpl;

verus! {

/// What byte 0 holds once a score was saved.
pub const SAVE_PRESENT: u8 = 1;

/// The five bytes of the saved record.
#[derive(Debug, Clone, Copy)]
pub struct SaveBuffer([u8; 5]);

/// The score that four bytes hold, least significant byte first.
pub open spec fn score_of_bytes(b1: u8, b2: u8, b3: u8, b4: u8) -> int {
    b1 + 0x100 * b2 + 0x1_0000 * b3 + 0x100_0000 * b4
}

/// The record of a saved score: the mark that a score is there, then the
/// score, least significant byte first.
pub open spec fn record_of_score(score: u32) -> Seq<u8> {
    seq![
        SAVE_PRESENT,
        (score % 0x100) as u8,
        ((score / 0x100) % 0x100) as u8,
        ((score / 0x1_0000) % 0x100) as u8,
        ((score / 0x100_0000) % 0x100) as u8,
    ]
}

impl View for SaveBuffer {
    type V = Seq<u8>;

    closed spec fn view(&self) -> Seq<u8> {
        self.0@
    }
}

impl SaveBuffer {
    /// Whether the record says that a score was saved.
    pub open spec fn exists_spec(self) -> bool {
        self@[0] != 0
    }

    /// The score that the record holds.
    pub open spec fn score_spec(self) -> int {
        score_of_bytes(self@[1], self@[2], self@[3], self@[4])
    }

    /// A record is its five bytes and nothing more.
    pub proof fn lemma_same_bytes(self, other: SaveBuffer)
        ensures
            self@.len() == 5,
            self@ == other@ ==> self == other,
    {
        if self@ == other@ {
            assert(self.0 =~= other.0);
        }
    }

    /// An empty record: no score was saved.
    pub fn new() -> (buffer: SaveBuffer)
        ensures
            buffer@ == seq![0u8, 0u8, 0u8, 0u8, 0u8],
            !buffer.exists_spec(),
    {
        let buffer = SaveBuffer([0, 0, 0, 0, 0]);
        assert(buffer@ =~= seq![0u8, 0u8, 0u8, 0u8, 0u8]);
        buffer
    }

    /// The bytes, to be filled from the save medium.
    pub fn as_mut_array(&mut self) -> (bytes: &mut [u8])
        ensures
            bytes@ == old(self)@,
            final(self)@ == final(bytes)@,
    {
        &mut self.0
    }

    /// The bytes, to be written to the save medium.
    pub fn as_array(&self) -> (bytes: &[u8])
        ensures
            bytes@ == self@,
            bytes@.len() == 5,
    {
        &self.0
    }

    /// Whether a score was saved: byte 0 is not zero.
    pub fn is_savedata_exist(&self) -> (exists: bool)
        ensures
            exists == self.exists_spec(),
    {
        self.0[0] != 0
    }

    /// The saved score: bytes 1 to 4, least significant byte first.
    pub fn get_score(&self) -> (score: u32)
        ensures
            score == self.score_spec(),
    {
        let b1: u32 = self.0[1] as u32;
        let b2: u32 = self.0[2] as u32;
        let b3: u32 = self.0[3] as u32;
        let b4: u32 = self.0[4] as u32;
        assert(b1 | (b2 << 8u32) | (b3 << 16u32) | (b4 << 24u32) == b1 + 0x100 * b2 + 0x1_0000 * b3
            + 0x100_0000 * b4) by (bit_vector)
            requires
                b1 < 0x100,
                b2 < 0x100,
                b3 < 0x100,
                b4 < 0x100,
        ;
        b1 | (b2 << 8u32) | (b3 << 16u32) | (b4 << 24u32)
    }
}

impl From<u32> for SaveBuffer {
    /// The record of a saved score.
    fn from(value: u32) -> (buffer: SaveBuffer)
        ensures
            buffer@ == record_of_score(value),
    {
        assert({
            &&& (value & 0xff) as u8 == (value % 0x100) as u8
            &&& ((value >> 8u32) & 0xff) as u8 == ((value / 0x100) % 0x100) as u8
            &&& ((value >> 16u32) & 0xff) as u8 == ((value / 0x1_0000) % 0x100) as u8
            &&& ((value >> 24u32) & 0xff) as u8 == ((value / 0x100_0000) % 0x100) as u8
        }) by (bit_vector);
        let buffer = SaveBuffer(
            [
                SAVE_PRESENT,
                (value & 0xff) as u8,
                ((value >> 8u32) & 0xff) as u8,
                ((value >> 16u32) & 0xff) as u8,
                ((value >> 24u32) & 0xff) as u8,
            ],
        );
        assert(buffer@ =~= record_of_score(value));
        proof {
            let chosen = choose|chosen: SaveBuffer| chosen@ == record_of_score(value);
            buffer.lemma_same_bytes(chosen);
        }
        buffer
    }
}

impl FromSpecImpl<u32> for SaveBuffer {
    open spec fn obeys_from_spec() -> bool {
        true
    }

    open spec fn from_spec(value: u32) -> SaveBuffer {
        choose|buffer: SaveBuffer| buffer@ == record_of_score(value)
    }
}

impl From<[u8; 5]> for SaveBuffer {
    /// The record with the given bytes, as they were read from the save
    /// medium.
    fn from(value: [u8; 5]) -> (buffer: SaveBuffer)
        ensures
            buffer@ == value@,
    {
        let buffer = SaveBuffer(value);
        proof {
            let chosen = choose|chosen: SaveBuffer| chosen@ == value@;
            buffer.lemma_same_bytes(chosen);
        }
        buffer
    }
}

impl FromSpecImpl<[u8; 5]> for SaveBuffer {
    open spec fn obeys_from_spec() -> bool {
        true
    }

    open spec fn from_spec(value: [u8; 5]) -> SaveBuffer {
        choose|buffer: SaveBuffer| buffer@ == value@
    }
}

/// A score that was saved is read back: its record says that a score is
/// there, and which.
pub proof fn lemma_saved_score_is_read_back(buffer: SaveBuffer, score: u32)
    requires
        buffer@ == record_of_score(score),
    ensures
        buffer.exists_spec(),
        buffer.score_spec() == score,
{
}

} // verus!
