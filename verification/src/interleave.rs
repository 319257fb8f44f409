use crate::fuse::fuse_step;
use crate::fuse::fused_items;
use crate::fuse::ready_fused;
use crate::fuse::Fuse;
use crate::fuse::FuseView;
use crate::size_hint::SizeHint;
use crate::source::ScriptSource;
use crate::step::Step;
use vstd::prelude::*;

verus! {

/// The adaptor state as contracts see it: the two fused sources and the
/// alternation flag.
#[verifier::ext_equal]
pub struct InterleaveView<T> {
    pub a: FuseView<T>,
    pub b: FuseView<T>,
    pub flag: bool,
}

/// One poll of the source consulted first, `x`, with fallback to its
/// partner `y`: whatever `x` answers is passed on unchanged, except that on
/// its end-of-sequence the partner is polled within the same call and its
/// answer is passed on instead.
pub open spec fn pair_step<T>(x: FuseView<T>, y: FuseView<T>) -> (FuseView<T>, FuseView<T>, Step<T>) {
    let (x2, r) = fuse_step(x);
    if r is Ended {
        let (y2, r2) = fuse_step(y);
        (x2, y2, r2)
    } else {
        (x2, y, r)
    }
}

/// One poll of the adaptor: toggle the flag unconditionally, consult the
/// source the toggled flag names first, and on its end-of-sequence fall
/// back to the partner within the same poll.
pub open spec fn interleave_step<T>(st: InterleaveView<T>) -> (InterleaveView<T>, Step<T>) {
    let flag = !st.flag;
    if flag {
        let (a2, b2, r) = pair_step(st.a, st.b);
        (InterleaveView { a: a2, b: b2, flag }, r)
    } else {
        let (b2, a2, r) = pair_step(st.b, st.a);
        (InterleaveView { a: a2, b: b2, flag }, r)
    }
}

/// Strict alternation of two sequences, starting with `a`: one element
/// from each in turn while both last, then the remainder of the longer one
/// unchanged.  Each source's elements keep their original order.
pub open spec fn interleave_seq<T>(a: Seq<T>, b: Seq<T>) -> Seq<T>
    decreases a.len() + b.len(),
{
    if a.len() == 0 {
        b
    } else if b.len() == 0 {
        a
    } else {
        seq![a[0]] + interleave_seq(b, a.skip(1))
    }
}

/// Every value the adaptor will still emit, in order, for sources that are
/// always immediately ready: the strict alternation of what its two fused
/// sources will yield, starting with the source that the next poll
/// consults first.
pub open spec fn remaining_output<T>(st: InterleaveView<T>) -> Seq<T> {
    if !st.flag {
        interleave_seq(fused_items(st.a), fused_items(st.b))
    } else {
        interleave_seq(fused_items(st.b), fused_items(st.a))
    }
}

/// Whether neither fused source will ever answer `Pending`.
pub open spec fn ready_sources<T>(st: InterleaveView<T>) -> bool {
    ready_fused(st.a) && ready_fused(st.b)
}

/// A stream combinator that merges two sources into one by alternating
/// which is polled first, handing on values, pending answers, and — once
/// both sources have ended — end-of-sequence.
pub struct Interleave<T> {
    a: Fuse<T>,
    b: Fuse<T>,
    flag: bool,
}

impl<T> View for Interleave<T> {
    type V = InterleaveView<T>;

    closed spec fn view(&self) -> InterleaveView<T> {
        InterleaveView { a: self.a@, b: self.b@, flag: self.flag }
    }
}

/// Create a source that interleaves the values of `i` and `j`.  Each input
/// is wrapped in a fusing layer, and the alternation flag starts false, so
/// the very first poll consults `i` first.
pub fn interleave<T>(i: ScriptSource<T>, j: ScriptSource<T>) -> (r: Interleave<T>)
    ensures
        r@ == (InterleaveView {
            a: FuseView { script: i@, done: false },
            b: FuseView { script: j@, done: false },
            flag: false,
        }),
{
    Interleave { a: Fuse::new(i), b: Fuse::new(j), flag: false }
}

impl<T> Interleave<T> {
    /// Poll the adaptor for its next value.
    pub fn poll_next(&mut self) -> (r: Step<T>)
        ensures
            final(self)@ == interleave_step(old(self)@).0,
            r == interleave_step(old(self)@).1,
    {
        self.flag = !self.flag;
        if self.flag {
            let r = self.a.poll();
            match r {
                Step::Ended => self.b.poll(),
                other => other,
            }
        } else {
            let r = self.b.poll();
            match r {
                Step::Ended => self.a.poll(),
                other => other,
            }
        }
    }

    /// The combined advisory estimate: both sub-hints are exact here, so
    /// the result is the sum of the yields, saturated as a lower bound and
    /// given as an upper bound only while representable.
    pub fn size_hint(&self) -> (r: SizeHint)
        ensures
            ({
                let n = fused_items(self@.a).len() + fused_items(self@.b).len();
                &&& r.0 == (if n > usize::MAX { usize::MAX as int } else { n as int })
                &&& r.1 == (if n > usize::MAX { None::<usize> } else { Some(n as usize) })
            }),
    {
        crate::size_hint::add(self.a.size_hint(), self.b.size_hint())
    }

    /// Drain the adaptor: poll it until it reports end-of-sequence,
    /// collecting every value in order.  For sources that always have
    /// their next answer immediately available, this is exactly the strict
    /// alternation of the two inputs.
    pub fn drain(self) -> (out: Vec<T>)
        requires
            ready_sources(self@),
        ensures
            out@ == remaining_output(self@),
    {
        let mut st = self;
        let ghost orig = st@;
        let mut out: Vec<T> = Vec::new();
        proof {
            assert(out@ + remaining_output(orig) =~= remaining_output(orig));
        }
        loop
            invariant
                orig == self@,
                ready_sources(st@),
                remaining_output(orig) == out@ + remaining_output(st@),
            decreases st@.a.script.len() + st@.b.script.len(),
        {
            let ghost prev = st@;
            proof {
                lemma_poll_output(prev);
            }
            let r = st.poll_next();
            match r {
                Step::Item(v) => {
                    out.push(v);
                    proof {
                        assert(out@ + remaining_output(st@) =~= remaining_output(orig));
                    }
                },
                Step::Pending => {
                    proof {
                        assert(false);
                    }
                },
                Step::Ended => {
                    proof {
                        assert(out@ =~= remaining_output(orig));
                    }
                    return out;
                },
            }
        }
    }
}

impl<T> ScriptSource<T> {
    /// Method form of [`interleave`]: merge this source with `other`.
    pub fn interleave(self, other: ScriptSource<T>) -> (r: Interleave<T>)
        ensures
            r@ == (InterleaveView {
                a: FuseView { script: self@, done: false },
                b: FuseView { script: other@, done: false },
                flag: false,
            }),
    {
        interleave(self, other)
    }
}

/// Law: one poll of the first-consulted source with fallback either emits
/// the head of the alternation of the two remaining yields, or proves both
/// yields empty; it never answers `Pending` for ready sources, and it
/// keeps both sources ready.
proof fn lemma_pair_output<T>(x: FuseView<T>, y: FuseView<T>)
    requires
        ready_fused(x),
        ready_fused(y),
    ensures
        ({
            let (x2, y2, r) = pair_step(x, y);
            &&& ready_fused(x2)
            &&& ready_fused(y2)
            &&& !(r is Pending)
            &&& (r matches Step::Item(v) ==> interleave_seq(fused_items(x), fused_items(y))
                == seq![v] + interleave_seq(fused_items(y2), fused_items(x2)))
            &&& (r is Ended ==> fused_items(x).len() == 0 && fused_items(y).len() == 0
                && x2.done && y2.done)
        }),
{
    let x2 = fuse_step(x).0;
    let r = fuse_step(x).1;
    if r is Ended {
        let y2 = fuse_step(y).0;
        let r2 = fuse_step(y).1;
        assert(fused_items(x) =~= Seq::<T>::empty());
        if r2 is Item {
            let w = r2->Item_0;
            assert(fused_items(y) =~= seq![w] + fused_items(y2));
            assert(interleave_seq(fused_items(x), fused_items(y)) == fused_items(y));
            assert(interleave_seq(fused_items(y2), fused_items(x2)) =~= fused_items(y2));
            assert(fused_items(y) =~= seq![w] + interleave_seq(fused_items(y2), fused_items(x2)));
        } else {
            assert(fused_items(y) =~= Seq::<T>::empty());
        }
    } else {
        let v = r->Item_0;
        assert(fused_items(x) =~= seq![v] + fused_items(x2));
        if fused_items(y).len() == 0 {
            assert(interleave_seq(fused_items(x), fused_items(y)) == fused_items(x));
            assert(interleave_seq(fused_items(y), fused_items(x2)) =~= fused_items(x2));
            assert(fused_items(x) =~= seq![v] + interleave_seq(fused_items(y), fused_items(x2)));
        } else {
            assert(fused_items(x).skip(1) =~= fused_items(x2));
            assert(interleave_seq(fused_items(x), fused_items(y))
                == seq![fused_items(x)[0]] + interleave_seq(fused_items(y), fused_items(x).skip(1)));
            assert(interleave_seq(fused_items(x), fused_items(y))
                == seq![v] + interleave_seq(fused_items(y), fused_items(x2)));
        }
    }
}

/// Law: one poll of the adaptor either emits exactly the head of its
/// remaining output and leaves the rest, or reports end-of-sequence with
/// nothing left; for ready sources it never answers `Pending`, and the
/// sources stay ready.
pub proof fn lemma_poll_output<T>(st: InterleaveView<T>)
    requires
        ready_sources(st),
    ensures
        ({
            let (st2, r) = interleave_step(st);
            &&& ready_sources(st2)
            &&& !(r is Pending)
            &&& (r matches Step::Item(v) ==> remaining_output(st) == seq![v] + remaining_output(st2))
            &&& (r is Ended ==> remaining_output(st) == Seq::<T>::empty()
                && remaining_output(st2) == Seq::<T>::empty())
        }),
{
    if !st.flag {
        lemma_pair_output(st.a, st.b);
    } else {
        lemma_pair_output(st.b, st.a);
    }
}

/// Law: every poll toggles the alternation flag exactly once,
/// unconditionally — whatever the sources answer, and before either is
/// consulted.
pub proof fn lemma_flag_toggles<T>(st: InterleaveView<T>)
    ensures
        interleave_step(st).0.flag == !st.flag,
{
}

/// Law: when a poll reports end-of-sequence, both sources stand fused
/// shut: each has reported its own end at least once.
pub proof fn lemma_end_marks_both_done<T>(st: InterleaveView<T>)
    requires
        interleave_step(st).1 is Ended,
    ensures
        interleave_step(st).0.a.done,
        interleave_step(st).0.b.done,
{
}

/// Law: once both sources are fused shut, every further poll reports
/// end-of-sequence again and leaves both wrapped sources untouched — a
/// finished producer is never re-entered, and no value can follow an
/// end-of-sequence answer of the adaptor.
pub proof fn lemma_ended_stays_ended<T>(st: InterleaveView<T>)
    requires
        st.a.done,
        st.b.done,
    ensures
        interleave_step(st).1 is Ended,
        interleave_step(st).0.a == st.a,
        interleave_step(st).0.b == st.b,
{
}

/// Law: while both sequences are nonempty, strict alternation takes the
/// head of each in turn.
pub proof fn lemma_interleave_seq_alternates<T>(a: Seq<T>, b: Seq<T>)
    requires
        a.len() > 0,
        b.len() > 0,
    ensures
        interleave_seq(a, b) == seq![a[0], b[0]] + interleave_seq(a.skip(1), b.skip(1)),
{
    let a2 = a.skip(1);
    let b2 = b.skip(1);
    assert(interleave_seq(a, b) == seq![a[0]] + interleave_seq(b, a2));
    if a2.len() == 0 {
        assert(interleave_seq(b, a2) == b);
        assert(interleave_seq(a2, b2) == b2);
        assert(seq![a[0]] + b =~= seq![a[0], b[0]] + b2);
    } else {
        assert(interleave_seq(b, a2) == seq![b[0]] + interleave_seq(a2, b2));
        assert(interleave_seq(a, b) =~= seq![a[0], b[0]] + interleave_seq(a2, b2));
    }
}

/// Law: the interleaving of two sequences holds exactly their elements:
/// its length is the sum of both lengths.
pub proof fn lemma_interleave_seq_len<T>(a: Seq<T>, b: Seq<T>)
    ensures
        interleave_seq(a, b).len() == a.len() + b.len(),
    decreases a.len() + b.len(),
{
    if a.len() > 0 && b.len() > 0 {
        lemma_interleave_seq_len(b, a.skip(1));
    }
}

/// Law: interleaving with an empty sequence yields the other sequence
/// unchanged, and two empty sequences yield an immediate end.
pub proof fn lemma_interleave_seq_empty<T>(a: Seq<T>, b: Seq<T>)
    ensures
        interleave_seq(Seq::<T>::empty(), b) == b,
        interleave_seq(a, Seq::<T>::empty()) == a,
{
}

} // verus!
