use crate::size_hint::SizeHint;
use crate::step::Step;
use vstd::prelude::*;

verus! {

/// One poll of a script: the head entry is consumed and answered; an empty
/// script answers end-of-sequence and is left as it is.
pub open spec fn source_step<T>(s: Seq<Step<T>>) -> (Seq<Step<T>>, Step<T>) {
    if s.len() == 0 {
        (s, Step::Ended)
    } else {
        (s.skip(1), s[0])
    }
}

/// The values a script will yield, in order, before it first reports
/// end-of-sequence.
pub open spec fn yielded_items<T>(s: Seq<Step<T>>) -> Seq<T>
    decreases s.len(),
{
    if s.len() == 0 {
        Seq::empty()
    } else {
        match s[0] {
            Step::Item(v) => seq![v] + yielded_items(s.skip(1)),
            Step::Pending => yielded_items(s.skip(1)),
            Step::Ended => Seq::empty(),
        }
    }
}

/// Whether a script never answers `Pending` before its first `Ended`: a
/// producer that always has its next answer immediately available.
pub open spec fn ready_script<T>(s: Seq<Step<T>>) -> bool
    decreases s.len(),
{
    if s.len() == 0 {
        true
    } else {
        match s[0] {
            Step::Item(_) => ready_script(s.skip(1)),
            Step::Pending => false,
            Step::Ended => true,
        }
    }
}

/// The script that yields exactly `items`, in order, and then ends.
pub open spec fn items_script<T>(items: Seq<T>) -> Seq<Step<T>> {
    Seq::new(items.len(), |i: int| Step::Item(items[i]))
}

/// A script never yields more values than it has entries.
pub proof fn lemma_yielded_items_len<T>(s: Seq<Step<T>>)
    ensures
        yielded_items(s).len() <= s.len(),
    decreases s.len(),
{
    if s.len() > 0 {
        lemma_yielded_items_len(s.skip(1));
    }
}

/// Law: the script made from a finite sequence is ready and yields exactly
/// that sequence back, in order — converting and draining is a round trip.
pub proof fn lemma_items_round_trip<T>(items: Seq<T>)
    ensures
        ready_script(items_script(items)),
        yielded_items(items_script(items)) == items,
    decreases items.len(),
{
    if items.len() == 0 {
        assert(yielded_items(items_script(items)) =~= items);
    } else {
        lemma_items_round_trip(items.skip(1));
        assert(items_script(items).skip(1) =~= items_script(items.skip(1)));
        assert(yielded_items(items_script(items)) =~= items);
    }
}

/// A source whose complete behaviour is known in advance: a script of poll
/// outcomes, answered in order.  Once the script is used up, every further
/// poll answers end-of-sequence.  A script may hold `Pending` entries (a
/// producer that is not ready yet), and may even misbehave by holding
/// further entries after an `Ended` entry; the fusing wrapper is what
/// keeps such entries from ever reaching a consumer.
pub struct ScriptSource<T> {
    script: Vec<Step<T>>,
}

impl<T> View for ScriptSource<T> {
    type V = Seq<Step<T>>;

    closed spec fn view(&self) -> Seq<Step<T>> {
        self.script@
    }
}

impl<T> ScriptSource<T> {
    /// A source that answers its polls exactly as `script` prescribes.
    pub fn new(script: Vec<Step<T>>) -> (s: Self)
        ensures
            s@ == script@,
    {
        ScriptSource { script }
    }

    /// Convert a finite ordered sequence into a source that yields its
    /// elements in order and then ends.
    pub fn from_items(items: Vec<T>) -> (s: Self)
        ensures
            s@ == items_script(items@),
    {
        let ghost orig = items@;
        let mut items = items;
        let mut script: Vec<Step<T>> = Vec::new();
        while items.len() > 0
            invariant
                script@.len() + items@.len() == orig.len(),
                items@ == orig.skip(script@.len() as int),
                forall|i: int| 0 <= i < script@.len() ==> script@[i] == Step::Item(orig[i]),
            decreases items@.len(),
        {
            let ghost k: int = script@.len() as int;
            let v = items.remove(0);
            script.push(Step::Item(v));
            proof {
                assert(items@ =~= orig.skip(k + 1));
            }
        }
        proof {
            assert(script@ =~= items_script(orig));
        }
        ScriptSource { script }
    }

    /// Answer one poll from the front of the script.
    pub fn poll(&mut self) -> (r: Step<T>)
        ensures
            final(self)@ == source_step(old(self)@).0,
            r == source_step(old(self)@).1,
    {
        if self.script.len() == 0 {
            Step::Ended
        } else {
            let r = self.script.remove(0);
            proof {
                assert(self.script@ =~= old(self)@.skip(1));
            }
            r
        }
    }

    /// How many values this source will still yield.  Its script is fully
    /// known, so the lower and the upper bound coincide.
    pub fn size_hint(&self) -> (r: SizeHint)
        ensures
            r.0 == yielded_items(self@).len(),
            r.1 == Some(r.0),
    {
        let n: usize = self.count_items(0);
        proof {
            assert(self@.skip(0) =~= self@);
        }
        (n, Some(n))
    }

    /// Count the values yielded from entry `i` on.
    fn count_items(&self, i: usize) -> (n: usize)
        requires
            i <= self@.len(),
        ensures
            n == yielded_items(self@.skip(i as int)).len(),
        decreases self@.len() - i,
    {
        if i == self.script.len() {
            proof {
                assert(self@.skip(i as int) =~= Seq::<Step<T>>::empty());
            }
            0
        } else {
            proof {
                assert(self@.skip(i as int).skip(1) =~= self@.skip(i as int + 1));
                lemma_yielded_items_len(self@.skip(i as int + 1));
            }
            match &self.script[i] {
                Step::Item(_) => 1 + self.count_items(i + 1),
                Step::Pending => self.count_items(i + 1),
                Step::Ended => 0,
            }
        }
    }

    /// Drain the source: poll it until it reports end-of-sequence,
    /// collecting every value in order.
    pub fn drain(self) -> (out: Vec<T>)
        requires
            ready_script(self@),
        ensures
            out@ == yielded_items(self@),
    {
        let mut src = self;
        let ghost orig = src@;
        let mut out: Vec<T> = Vec::new();
        proof {
            assert(out@ + yielded_items(orig) =~= yielded_items(orig));
        }
        loop
            invariant
                orig == self@,
                ready_script(src@),
                yielded_items(orig) == out@ + yielded_items(src@),
            decreases src@.len(),
        {
            let ghost prev = src@;
            let r = src.poll();
            match r {
                Step::Item(v) => {
                    out.push(v);
                    proof {
                        assert(out@ + yielded_items(src@) =~= yielded_items(orig));
                    }
                }
                Step::Pending => {
                    proof {
                        assert(false);
                    }
                }
                Step::Ended => {
                    proof {
                        assert(out@ =~= yielded_items(orig));
                    }
                    return out;
                }
            }
        }
    }
}

} // verus!
