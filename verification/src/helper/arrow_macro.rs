//! Checks made by the Arrow wrappers of the indicators before they compute.
use vstd::prelude::*;

use crate::KandError;

verus! {

/// First problem among the input arrays from index `i` on, each checked in turn for a
/// length different from `len`, then for missing values.
pub open spec fn first_input_problem(
    len: usize,
    input_lens: Seq<usize>,
    null_counts: Seq<usize>,
    i: nat,
) -> Option<KandError>
    decreases input_lens.len() - i,
{
    if i >= input_lens.len() {
        None
    } else if input_lens[i as int] != len {
        Some(KandError::LengthMismatch)
    } else if null_counts[i as int] > 0 {
        Some(KandError::InvalidData)
    } else {
        first_input_problem(len, input_lens, null_counts, i + 1)
    }
}

/// Outcome of the checks of an Arrow wrapper: every input array has the length of the
/// first one and no missing value, the lookback is valid, and the arrays are longer than
/// the lookback. On success it is the length of the output arrays.
pub open spec fn arrow_inputs_outcome(
    input_lens: Seq<usize>,
    null_counts: Seq<usize>,
    lookback: Result<usize, KandError>,
) -> Result<usize, KandError> {
    match first_input_problem(input_lens[0], input_lens, null_counts, 0) {
        Some(e) => Err(e),
        None => match lookback {
            Err(e) => Err(e),
            Ok(lb) => if input_lens[0] <= lb {
                Err(KandError::InsufficientData)
            } else {
                Ok(input_lens[0])
            },
        },
    }
}

/// When every input before `i` is fine, the first problem from 0 is the first problem from `i`.
proof fn lemma_problem_skips_good_prefix(
    len: usize,
    input_lens: Seq<usize>,
    null_counts: Seq<usize>,
    i: nat,
)
    requires
        i <= input_lens.len(),
        null_counts.len() == input_lens.len(),
        forall|j: int| 0 <= j < i ==> input_lens[j] == len && null_counts[j] == 0,
    ensures
        first_input_problem(len, input_lens, null_counts, 0) == first_input_problem(
            len,
            input_lens,
            null_counts,
            i,
        ),
    decreases i,
{
    if i > 0 {
        lemma_problem_skips_good_prefix(len, input_lens, null_counts, (i - 1) as nat);
    }
}

/// Runs the checks of an Arrow wrapper on the lengths and null counts of its input arrays
/// and on its lookback. Returns the length of the output arrays.
pub fn check_arrow_inputs(
    input_lens: &[usize],
    null_counts: &[usize],
    lookback: Result<usize, KandError>,
) -> (r: Result<usize, KandError>)
    requires
        input_lens@.len() >= 1,
        null_counts@.len() == input_lens@.len(),
    ensures
        r == arrow_inputs_outcome(input_lens@, null_counts@, lookback),
{
    let len = input_lens[0];
    let mut i: usize = 0;
    while i < input_lens.len()
        invariant
            0 <= i <= input_lens@.len(),
            null_counts@.len() == input_lens@.len(),
            len == input_lens@[0],
            forall|j: int| 0 <= j < i ==> input_lens@[j] == len && null_counts@[j] == 0,
        decreases input_lens@.len() - i,
    {
        proof {
            lemma_problem_skips_good_prefix(len, input_lens@, null_counts@, i as nat);
        }
        if input_lens[i] != len {
            return Err(KandError::LengthMismatch);
        }
        if null_counts[i] > 0 {
            return Err(KandError::InvalidData);
        }
        i += 1;
    }
    proof {
        lemma_problem_skips_good_prefix(len, input_lens@, null_counts@, i as nat);
    }
    let lookback = lookback?;
    if len <= lookback {
        return Err(KandError::InsufficientData);
    }
    Ok(len)
}

/// No problem is found from index `i` on when every input from `i` on has length `len` and
/// no missing value.
proof fn lemma_fine_inputs_have_no_problem(
    len: usize,
    input_lens: Seq<usize>,
    null_counts: Seq<usize>,
    i: nat,
)
    requires
        null_counts.len() == input_lens.len(),
        forall|j: int| i <= j < input_lens.len() ==> input_lens[j] == len && null_counts[j] == 0,
    ensures
        first_input_problem(len, input_lens, null_counts, i) is None,
    decreases input_lens.len() - i,
{
    if i < input_lens.len() {
        assert(input_lens[i as int] == len && null_counts[i as int] == 0);
        lemma_fine_inputs_have_no_problem(len, input_lens, null_counts, i + 1);
    }
}

/// A problem is found from index `i` on when an input at `k >= i` has another length than
/// `len` or a missing value.
proof fn lemma_bad_input_is_a_problem(
    len: usize,
    input_lens: Seq<usize>,
    null_counts: Seq<usize>,
    i: nat,
    k: int,
)
    requires
        null_counts.len() == input_lens.len(),
        i <= k < input_lens.len(),
        !(input_lens[k] == len && null_counts[k] == 0),
    ensures
        first_input_problem(len, input_lens, null_counts, i) is Some,
    decreases input_lens.len() - i,
{
    if k > i && input_lens[i as int] == len && null_counts[i as int] == 0 {
        lemma_bad_input_is_a_problem(len, input_lens, null_counts, i + 1, k);
    }
}

/// An Arrow wrapper accepts its inputs exactly when every input array has the length of the
/// first one and no missing value, the lookback is valid, and the arrays are longer than the
/// lookback; the output arrays then have the length of the inputs.
pub proof fn lemma_arrow_inputs_law(
    input_lens: Seq<usize>,
    null_counts: Seq<usize>,
    lookback: Result<usize, KandError>,
)
    requires
        input_lens.len() >= 1,
        null_counts.len() == input_lens.len(),
    ensures
        arrow_inputs_outcome(input_lens, null_counts, lookback) is Ok <==> ((forall|j: int|
            #![trigger input_lens[j]]
            0 <= j < input_lens.len() ==> input_lens[j] == input_lens[0] && null_counts[j] == 0)
            && lookback is Ok && input_lens[0] > lookback->Ok_0),
        arrow_inputs_outcome(input_lens, null_counts, lookback) is Ok ==> arrow_inputs_outcome(
            input_lens,
            null_counts,
            lookback,
        ) == Ok::<usize, KandError>(input_lens[0]),
{
    let len = input_lens[0];
    if forall|j: int| 0 <= j < input_lens.len() ==> input_lens[j] == len && null_counts[j] == 0 {
        lemma_fine_inputs_have_no_problem(len, input_lens, null_counts, 0);
    } else {
        let k = choose|k: int|
            0 <= k < input_lens.len() && !(input_lens[k] == len && null_counts[k] == 0);
        lemma_bad_input_is_a_problem(len, input_lens, null_counts, 0, k);
        assert(!(input_lens[k] == input_lens[0] && null_counts[k] == 0));
    }
}

} // verus!
