//! The order in which a graph's samples are drawn.

use vstd::prelude::*;

verus! {

/// Number of samples a graph holds.
pub const GRAPH_SAMPLES: usize = 500;

/// The sample indices in drawing order, starting at `index` and wrapping
/// around the end of the sample buffer, one per column from the right edge.
pub fn graph_sample_indices(index: usize) -> (indices: Vec<usize>)
    requires
        index < GRAPH_SAMPLES,
    ensures
        indices.len() == GRAPH_SAMPLES,
        forall|k: int| 0 <= k < GRAPH_SAMPLES ==> indices[k] == (index + k) % (GRAPH_SAMPLES as int),
{
    let mut indices: Vec<usize> = Vec::new();
    let mut value_index = index;
    let mut position: usize = 0;
    loop
        invariant_except_break
            position < GRAPH_SAMPLES,
            value_index < GRAPH_SAMPLES,
            value_index == (index + position) % (GRAPH_SAMPLES as int),
        invariant
            index < GRAPH_SAMPLES,
            indices.len() == position,
            position <= GRAPH_SAMPLES,
            forall|k: int| 0 <= k < position ==> indices[k] == (index + k) % (GRAPH_SAMPLES as int),
        ensures
            indices.len() == GRAPH_SAMPLES,
            forall|k: int|
                0 <= k < GRAPH_SAMPLES ==> indices[k] == (index + k) % (GRAPH_SAMPLES as int),
        decreases GRAPH_SAMPLES - position,
    {
        indices.push(value_index);
        value_index = value_index + 1;
        position = position + 1;
        if position >= GRAPH_SAMPLES {
            break;
        }
        if value_index > GRAPH_SAMPLES - 1 {
            value_index = 0;
        }
    }
    indices
}

} // verus!
