//! The bytes that an effect's numbers are handed to the renderer in.
use crate::single::Single;
use vstd::prelude::*;

verus! {

/// The bytes of every word stand lowest first.
pub open spec fn lowest_first(words: Seq<u32>, bytes: Seq<u8>) -> bool {
    forall|k: int|
        0 <= k < words.len() ==> #[trigger] words[k] == bytes[4 * k] + 0x100 * bytes[4 * k + 1]
            + 0x1_0000 * bytes[4 * k + 2] + 0x100_0000 * bytes[4 * k + 3]
}

/// The bytes of every word stand highest first.
pub open spec fn highest_first(words: Seq<u32>, bytes: Seq<u8>) -> bool {
    forall|k: int|
        0 <= k < words.len() ==> #[trigger] words[k] == 0x100_0000 * bytes[4 * k] + 0x1_0000
            * bytes[4 * k + 1] + 0x100 * bytes[4 * k + 2] + bytes[4 * k + 3]
}

/// Four bytes for each word, one word after the other, all in the one order or all in the other.
pub open spec fn laid_out(words: Seq<u32>, bytes: Seq<u8>) -> bool {
    &&& bytes.len() == 4 * words.len()
    &&& lowest_first(words, bytes) || highest_first(words, bytes)
}

/// `bytemuck::cast_slice` from words to bytes: the words' own bytes, four for each, in the order
/// that the machine keeps them in. Which of the two orders that is, is left unsaid.
#[verifier::external_body]
fn word_bytes(words: &Vec<u32>) -> (r: Vec<u8>)
    ensures
        laid_out(words@, r@),
{
    bytemuck::cast_slice::<u32, u8>(words.as_slice()).to_vec()
}

/// The words that numbers are held in.
pub open spec fn bits_of(values: Seq<Single>) -> Seq<u32> {
    values.map_values(|v: Single| v.bits)
}

/// Lays numbers out for the renderer.
pub fn uniform_bytes(values: &Vec<Single>) -> (r: Vec<u8>)
    ensures
        laid_out(bits_of(values@), r@),
{
    let mut words: Vec<u32> = Vec::new();
    let mut i: usize = 0;
    while i < values.len()
        invariant
            i <= values@.len(),
            words@ == bits_of(values@.take(i as int)),
        decreases values@.len() - i,
    {
        words.push(values[i].bits);
        assert(words@ =~= bits_of(values@.take(i as int + 1)));
        i += 1;
    }
    assert(values@.take(i as int) =~= values@);
    word_bytes(&words)
}

/// What a frame does with the buffer that a view's numbers stand in.
#[derive(Clone, Copy, Debug, PartialEq, Eq, Structural)]
pub enum BufferWrite {
    /// The view has a buffer: it is written over from its start.
    Rewrite,
    /// The view has none: one is made with the bytes in it.
    Create,
}

/// Decides what a frame does with a view's buffer: it is made once and then written over.
pub fn prepare_uniforms(has_buffer: bool) -> (r: BufferWrite)
    ensures
        r == if has_buffer {
            BufferWrite::Rewrite
        } else {
            BufferWrite::Create
        },
{
    if has_buffer {
        BufferWrite::Rewrite
    } else {
        BufferWrite::Create
    }
}

/// Numbers that differ somewhere are laid out in bytes that differ, on one machine.
pub proof fn bytes_tell_numbers_apart(a: Seq<u32>, b: Seq<u32>, bytes: Seq<u8>)
    requires
        a.len() == b.len(),
        (lowest_first(a, bytes) && lowest_first(b, bytes)) || (highest_first(a, bytes)
            && highest_first(b, bytes)),
    ensures
        a == b,
{
    assert(a =~= b);
}

} // verus!
