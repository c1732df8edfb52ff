use vstd::prelude::*;

verus! {

/// The bytes with the two bytes of every pair in each other's place.
pub open spec fn pairs_swapped(input: Seq<u8>) -> Seq<u8> {
    Seq::new(
        input.len(),
        |i: int|
            if i % 2 == 0 {
                input[i + 1]
            } else {
                input[i - 1]
            },
    )
}

/// Turns big-endian 16-bit samples into little-endian ones: the two bytes
/// of each sample change places.
pub fn pcm_s16be_to_pcm_s16le(input: &[u8]) -> (output: Vec<u8>)
    requires
        input.len() % 2 == 0,
    ensures
        output@ == pairs_swapped(input@),
{
    let mut output: Vec<u8> = Vec::new();
    let mut i: usize = 0;
    while i < input.len()
        invariant
            i <= input.len(),
            i % 2 == 0,
            input.len() % 2 == 0,
            output.len() == i,
            forall|k: int| 0 <= k < i ==> output[k] == #[trigger] pairs_swapped(input@)[k],
        decreases input.len() - i,
    {
        output.push(input[i + 1]);
        output.push(input[i]);
        i += 2;
    }
    output
}

} // verus!
