use vstd::prelude::*;

verus! {

/// An advisory cardinality estimate for a source: a lower bound on how many
/// values it will still yield, and an upper bound where one is known
/// (`None` means unknown or unbounded).
pub type SizeHint = (usize, Option<usize>);

/// What combining two estimates means: lower bounds are summed, saturating
/// at the largest representable value; upper bounds are summed only when
/// both are known and their sum is representable, and are otherwise unknown.
/// An overflowing upper bound must never wrap into a false finite bound.
pub open spec fn spec_add(a: SizeHint, b: SizeHint) -> SizeHint {
    (
        if a.0 + b.0 > usize::MAX {
            usize::MAX
        } else {
            (a.0 + b.0) as usize
        },
        match (a.1, b.1) {
            (Some(x), Some(y)) => if x + y > usize::MAX {
                None
            } else {
                Some((x + y) as usize)
            },
            _ => None,
        },
    )
}

/// Combine the size hints of two sources into the hint for their
/// concatenation or interleaving.
pub fn add(a: SizeHint, b: SizeHint) -> (r: SizeHint)
    ensures
        r == spec_add(a, b),
{
    let min: usize = a.0.saturating_add(b.0);
    let max = match (a.1, b.1) {
        (Some(x), Some(y)) => x.checked_add(y),
        _ => None,
    };
    (min, max)
}

/// Law: when both upper bounds are known and both sums are representable,
/// the combined estimate is exactly the pair of sums.
pub proof fn lemma_add_exact(a: SizeHint, b: SizeHint, x: usize, y: usize)
    requires
        a.1 == Some(x),
        b.1 == Some(y),
        a.0 + b.0 <= usize::MAX,
        x + y <= usize::MAX,
    ensures
        spec_add(a, b) == (((a.0 + b.0) as usize, Some((x + y) as usize))),
{
}

/// Law: a pair of lower bounds whose sum is not representable — in
/// particular a bound already at the maximum combined with any positive
/// bound — combines to the maximum representable value, never a wrapped one.
pub proof fn lemma_lower_bound_saturates(a: SizeHint, b: SizeHint)
    requires
        a.0 + b.0 > usize::MAX,
    ensures
        spec_add(a, b).0 == usize::MAX,
{
}

/// Law: two known upper bounds whose sum is not representable combine to an
/// unknown upper bound, never a wrapped finite one.
pub proof fn lemma_upper_bound_overflow_is_unknown(a: SizeHint, b: SizeHint, x: usize, y: usize)
    requires
        a.1 == Some(x),
        b.1 == Some(y),
        x + y > usize::MAX,
    ensures
        spec_add(a, b).1 is None,
{
}

} // verus!
