//! Image assembler: from a grid of escape counts to the RGB byte
//! buffer.
//!
//! The embedding program evaluates one escape count per pixel, row by
//! row, and collects them row-major.  This module turns that grid into
//! the final pixel buffer: three bytes per count, each triple the
//! color of its count, in the same order.  The buffer's contents are a
//! pure function of the counts and the iteration cap, which is the
//! determinism of the whole colorizing stage: the same counts can only
//! ever assemble to the same bytes.

use vstd::prelude::*;

use crate::color::{colorize, colorize_spec};

verus! {

/// The byte buffer that a sequence of escape counts assembles to:
/// for each count in order, the three channel bytes of its color.
pub open spec fn rgb_bytes(counts: Seq<u64>, max_iterations: u64) -> Seq<u8>
    decreases counts.len(),
{
    if counts.len() == 0 {
        Seq::empty()
    } else {
        let rgb = colorize_spec(counts.last(), max_iterations);
        rgb_bytes(counts.drop_last(), max_iterations) + seq![rgb.red, rgb.green, rgb.blue]
    }
}

/// The assembled buffer holds exactly three bytes per count.
pub proof fn lemma_rgb_bytes_len(counts: Seq<u64>, max_iterations: u64)
    ensures
        rgb_bytes(counts, max_iterations).len() == 3 * counts.len(),
    decreases counts.len(),
{
    if counts.len() > 0 {
        lemma_rgb_bytes_len(counts.drop_last(), max_iterations);
    }
}

/// Pixel `p` of the assembled buffer is the color of count `p`: its
/// three channel bytes stand at offsets `3 * p`, `3 * p + 1` and
/// `3 * p + 2`.
pub proof fn lemma_rgb_bytes_pixel(counts: Seq<u64>, max_iterations: u64, p: int)
    requires
        0 <= p < counts.len(),
    ensures
        rgb_bytes(counts, max_iterations)[3 * p] == colorize_spec(counts[p], max_iterations).red,
        rgb_bytes(counts, max_iterations)[3 * p + 1] == colorize_spec(
            counts[p],
            max_iterations,
        ).green,
        rgb_bytes(counts, max_iterations)[3 * p + 2] == colorize_spec(
            counts[p],
            max_iterations,
        ).blue,
    decreases counts.len(),
{
    lemma_rgb_bytes_len(counts.drop_last(), max_iterations);
    if p < counts.len() - 1 {
        lemma_rgb_bytes_pixel(counts.drop_last(), max_iterations, p);
    }
}

/// Assembles the pixel buffer: three bytes per escape count, row-major
/// order kept.
pub fn assemble(counts: &Vec<u64>, max_iterations: u64) -> (buffer: Vec<u8>)
    ensures
        buffer@ == rgb_bytes(counts@, max_iterations),
        buffer@.len() == 3 * counts@.len(),
{
    let mut buffer: Vec<u8> = Vec::new();
    let mut p: usize = 0;
    while p < counts.len()
        invariant
            p <= counts@.len(),
            buffer@ == rgb_bytes(counts@.take(p as int), max_iterations),
        decreases counts@.len() - p,
    {
        let rgb = colorize(counts[p], max_iterations);
        buffer.push(rgb.red);
        buffer.push(rgb.green);
        buffer.push(rgb.blue);
        proof {
            let grown = counts@.take(p + 1);
            assert(grown.drop_last() =~= counts@.take(p as int));
            assert(grown.last() == counts@[p as int]);
            assert(buffer@ =~= rgb_bytes(grown, max_iterations));
        }
        p = p + 1;
    }
    proof {
        assert(counts@.take(counts@.len() as int) =~= counts@);
        lemma_rgb_bytes_len(counts@, max_iterations);
    }
    buffer
}

/// Determinism of assembly: two buffers assembled from the same counts
/// under the same iteration cap are byte-identical.
pub proof fn lemma_assemble_deterministic(
    first: Seq<u8>,
    second: Seq<u8>,
    counts: Seq<u64>,
    max_iterations: u64,
)
    requires
        first == rgb_bytes(counts, max_iterations),
        second == rgb_bytes(counts, max_iterations),
    ensures
        first == second,
{
}

} // verus!
