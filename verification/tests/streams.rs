use flood::interleave;
use flood::Fuse;
use flood::ScriptSource;
use flood::Step;

#[test]
fn interleave_adaptor_works() {
    let i = ScriptSource::from_items(vec![1, 2, 3, 4, 5, 6]);
    let j = ScriptSource::from_items(vec![9, 8, 7]);
    let mut stream = interleave(i, j);

    assert_eq!(Step::Item(1), stream.poll_next());
    assert_eq!(Step::Item(9), stream.poll_next());
    assert_eq!(Step::Item(2), stream.poll_next());
    assert_eq!(Step::Item(8), stream.poll_next());
    assert_eq!(Step::Item(3), stream.poll_next());
    assert_eq!(Step::Item(7), stream.poll_next());
    assert_eq!(Step::Item(4), stream.poll_next());
    assert_eq!(Step::Item(5), stream.poll_next());
    assert_eq!(Step::Item(6), stream.poll_next());
    assert_eq!(Step::Ended, stream.poll_next());
}

#[test]
fn interleave_adaptor_hint() {
    let i = ScriptSource::from_items(vec![1, 2, 3, 4, 5, 6]);
    let j = ScriptSource::from_items(vec![9, 8, 7]);
    let stream = interleave(i, j);

    assert_eq!((9, Some(9)), stream.size_hint());
}

#[test]
fn interleave_method_works() {
    let i = ScriptSource::from_items(vec![9, 8, 7]);
    let j = ScriptSource::from_items(vec![1, 2, 3, 4, 5, 6]);
    let mut stream = i.interleave(j);

    assert_eq!(Step::Item(9), stream.poll_next());
    assert_eq!(Step::Item(1), stream.poll_next());
    assert_eq!(Step::Item(8), stream.poll_next());
    assert_eq!(Step::Item(2), stream.poll_next());
    assert_eq!(Step::Item(7), stream.poll_next());
    assert_eq!(Step::Item(3), stream.poll_next());
    assert_eq!(Step::Item(4), stream.poll_next());
    assert_eq!(Step::Item(5), stream.poll_next());
    assert_eq!(Step::Item(6), stream.poll_next());
    assert_eq!(Step::Ended, stream.poll_next());
}

#[test]
fn into_stream_vec() {
    let v = vec![1, 2, 3];
    let mut stream = ScriptSource::from_items(v);

    assert_eq!(Step::Item(1), stream.poll());
    assert_eq!(Step::Item(2), stream.poll());
    assert_eq!(Step::Item(3), stream.poll());
    assert_eq!(Step::Ended, stream.poll());
}

#[test]
fn into_stream_slice() {
    let v = vec![1, 2, 3];
    let slice = &v[..];
    let mut stream = ScriptSource::from_items(slice.iter().collect());

    assert_eq!(Step::Item(&1), stream.poll());
    assert_eq!(Step::Item(&2), stream.poll());
    assert_eq!(Step::Item(&3), stream.poll());
    assert_eq!(Step::Ended, stream.poll());
}

#[test]
fn alternation_drains_longer_tail() {
    let a = ScriptSource::from_items(vec![10, 11, 12]);
    let b = ScriptSource::from_items(vec![20, 21, 22, 23]);
    let out = interleave(a, b).drain();

    assert_eq!(vec![10, 20, 11, 21, 12, 22, 23], out);
}

#[test]
fn exhaustion_keeps_length_and_order() {
    let a = ScriptSource::from_items(vec![1, 2]);
    let b = ScriptSource::from_items(vec![9, 8, 7]);
    let out = interleave(a, b).drain();

    assert_eq!(5, out.len());
    assert_eq!(vec![1, 9, 2, 8, 7], out);
}

#[test]
fn fused_end_is_idempotent() {
    // A misbehaving producer that would yield again after its end: the
    // fusing layer must keep 99 from ever coming out.
    let a = ScriptSource::new(vec![Step::Item(1), Step::Ended, Step::Item(99)]);
    let b = ScriptSource::from_items(vec![]);
    let mut stream = interleave(a, b);

    assert_eq!(Step::Item(1), stream.poll_next());
    assert_eq!(Step::Ended, stream.poll_next());
    assert_eq!(Step::Ended, stream.poll_next());
    assert_eq!(Step::Ended, stream.poll_next());
    assert_eq!(Step::Ended, stream.poll_next());
}

#[test]
fn fuse_swallows_entries_after_end() {
    let mut fused = Fuse::new(ScriptSource::new(vec![Step::Ended, Step::Item(5)]));

    assert_eq!((0, Some(0)), fused.size_hint());
    assert_eq!(Step::<i32>::Ended, fused.poll());
    assert_eq!(Step::Ended, fused.poll());
    assert_eq!((0, Some(0)), fused.size_hint());
}

#[test]
fn pending_passes_through_unchanged() {
    let a = ScriptSource::new(vec![Step::Pending, Step::Item(1)]);
    let b = ScriptSource::new(vec![Step::Item(9)]);
    let mut stream = interleave(a, b);

    assert_eq!(Step::Pending, stream.poll_next());
    assert_eq!(Step::Item(9), stream.poll_next());
    assert_eq!(Step::Item(1), stream.poll_next());
    assert_eq!(Step::Ended, stream.poll_next());
}

#[test]
fn empty_with_nonempty_yields_other() {
    let a = ScriptSource::from_items(vec![]);
    let b = ScriptSource::from_items(vec![5, 6]);
    let out = interleave(a, b).drain();

    assert_eq!(vec![5, 6], out);
}

#[test]
fn two_empties_end_immediately() {
    let a = ScriptSource::from_items(Vec::<i32>::new());
    let b = ScriptSource::from_items(vec![]);
    let mut stream = interleave(a, b);

    assert_eq!(Step::Ended, stream.poll_next());
    assert_eq!(Step::Ended, stream.poll_next());
}

#[test]
fn conversion_round_trip() {
    let out = ScriptSource::from_items(vec![1, 2, 3]).drain();

    assert_eq!(vec![1, 2, 3], out);
}

#[test]
fn source_hint_skips_pending_and_stops_at_end() {
    let s = ScriptSource::new(vec![
        Step::Pending,
        Step::Item(1),
        Step::Pending,
        Step::Item(2),
        Step::Ended,
        Step::Item(99),
    ]);

    assert_eq!((2, Some(2)), s.size_hint());
}
