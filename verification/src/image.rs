//! Program images: a big-endian sequence of 16-bit words, of which the
//! first is the address at which the others are placed.

use vstd::prelude::*;
use crate::memory::{write_to_memory, BusView, MemoryBus, MEMORY_SIZE};

verus! {

/// Why an image cannot be loaded.
#[derive(Clone, Copy, Debug, PartialEq, Eq, Structural)]
pub enum LoadError {
    /// The image holds nothing, so not even an origin.
    Empty,
    /// The image has an odd number of bytes, so its last word is cut short.
    OddLength,
    /// The image runs past the last cell of memory.
    TooLarge,
}

/// The word at position `index` of a big-endian byte sequence.
pub open spec fn word_at(bytes: Seq<u8>, index: int) -> u16 {
    (bytes[2 * index] * 256 + bytes[2 * index + 1]) as u16
}

/// The words that `bytes` spell, two bytes each, high byte first.
pub open spec fn spec_words(bytes: Seq<u8>) -> Seq<u16> {
    Seq::new(bytes.len() / 2, |index: int| word_at(bytes, index))
}

/// Whether an image's words fit in memory from its origin on.
pub open spec fn fits(image: Seq<u16>) -> bool {
    image.len() > 0 && image[0] + image.len() - 1 <= MEMORY_SIZE
}

/// The cell at `address` once `image` is loaded: the image's word for that
/// address where it has one, zero elsewhere.
pub open spec fn loaded_cell(image: Seq<u16>, address: int) -> u16 {
    if image[0] <= address < image[0] + image.len() - 1 {
        image[address - image[0] + 1]
    } else {
        0
    }
}

/// The memory with `image` loaded: its words from the second on lie in
/// order from the origin, which is its first word; nothing is latched.
pub open spec fn spec_load(image: Seq<u16>) -> BusView {
    BusView {
        cells: Seq::new(MEMORY_SIZE as nat, |address: int| loaded_cell(image, address)),
        latch: None,
    }
}

/// Turns the bytes of an image into its words.
///
/// An image of no bytes, or of an odd number of bytes, is refused.
pub fn get_instructions(bytes: &[u8]) -> (result: Result<Vec<u16>, LoadError>)
    ensures
        match result {
            Ok(words) => bytes@.len() > 0 && bytes@.len() % 2 == 0 && words@ == spec_words(
                bytes@,
            ),
            Err(LoadError::Empty) => bytes@.len() == 0,
            Err(LoadError::OddLength) => bytes@.len() % 2 == 1,
            Err(LoadError::TooLarge) => false,
        },
{
    let length: usize = bytes.len();
    if length == 0 {
        return Err(LoadError::Empty);
    }
    if length % 2 == 1 {
        return Err(LoadError::OddLength);
    }
    let count: usize = length / 2;
    let mut words: Vec<u16> = Vec::new();
    let mut index: usize = 0;
    while index < count
        invariant
            index <= count,
            count == length / 2,
            length == bytes@.len(),
            length % 2 == 0,
            words@.len() == index,
            forall|k: int| 0 <= k < index ==> words@[k] == word_at(bytes@, k),
        decreases count - index,
    {
        let high: u16 = bytes[2 * index] as u16;
        let low: u16 = bytes[2 * index + 1] as u16;
        words.push(high * 256 + low);
        index += 1;
    }
    assert(words@ =~= spec_words(bytes@));
    Ok(words)
}

/// Builds the memory that `instructions` describe: zero everywhere but for
/// the words after the first, which lie from the origin on.
///
/// An image without an origin, or one that would run past the end of
/// memory, is refused.
pub fn load_memory(instructions: &Vec<u16>) -> (result: Result<MemoryBus, LoadError>)
    ensures
        match result {
            Ok(memory) => fits(instructions@) && memory@ == spec_load(instructions@),
            Err(LoadError::Empty) => instructions@.len() == 0,
            Err(LoadError::TooLarge) => instructions@.len() > 0 && !fits(instructions@),
            Err(LoadError::OddLength) => false,
        },
{
    let length: usize = instructions.len();
    if length == 0 {
        return Err(LoadError::Empty);
    }
    let origin: u16 = instructions[0];
    if length - 1 > MEMORY_SIZE - (origin as usize) {
        return Err(LoadError::TooLarge);
    }
    let mut memory = MemoryBus::new();
    let mut index: usize = 1;
    while index < length
        invariant
            1 <= index <= length,
            length == instructions@.len(),
            origin == instructions@[0],
            origin + length - 1 <= MEMORY_SIZE,
            memory@.latch is None,
            memory@.cells.len() == MEMORY_SIZE,
            forall|address: int|
                0 <= address < MEMORY_SIZE ==> #[trigger] memory@.cells[address] == (if origin
                    <= address < origin + index - 1 {
                    instructions@[address - origin + 1]
                } else {
                    0
                }),
        decreases length - index,
    {
        let address: u16 = (origin as usize + (index - 1)) as u16;
        write_to_memory(&mut memory, address, instructions[index]);
        index += 1;
    }
    assert(memory@.cells =~= spec_load(instructions@).cells);
    Ok(memory)
}

} // verus!
