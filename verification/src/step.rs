use vstd::prelude::*;

verus! {

/// The outcome of one poll of a source of values.
///
/// A source answers every poll with exactly one of these: the next value,
/// "nothing available yet, ask again later", or "the sequence has ended".
#[derive(Debug, PartialEq, Eq)]
pub enum Step<T> {
    /// The source produced its next value.
    Item(T),
    /// No value is available yet; the sequence has not ended.
    Pending,
    /// The source reports end-of-sequence.
    Ended,
}

} // verus!
