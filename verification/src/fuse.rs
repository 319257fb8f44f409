use crate::size_hint::SizeHint;
use crate::source::source_step;
use crate::source::ready_script;
use crate::source::yielded_items;
use crate::source::ScriptSource;
use crate::step::Step;
use vstd::prelude::*;

verus! {

/// The state of a fused source as contracts see it: the remaining script
/// of the wrapped source, and whether end-of-sequence has already been
/// reported once.
#[verifier::ext_equal]
pub struct FuseView<T> {
    pub script: Seq<Step<T>>,
    pub done: bool,
}

/// One poll of a fused source: once end-of-sequence has been reported, the
/// wrapped source is left untouched and the answer is end-of-sequence
/// again; otherwise the wrapped source is polled and an end-of-sequence
/// answer is recorded.
pub open spec fn fuse_step<T>(f: FuseView<T>) -> (FuseView<T>, Step<T>) {
    if f.done {
        (f, Step::Ended)
    } else {
        let (s, r) = source_step(f.script);
        (FuseView { script: s, done: r is Ended }, r)
    }
}

/// The values a fused source will still yield.
pub open spec fn fused_items<T>(f: FuseView<T>) -> Seq<T> {
    if f.done {
        Seq::empty()
    } else {
        yielded_items(f.script)
    }
}

/// Whether a fused source will never answer `Pending`.
pub open spec fn ready_fused<T>(f: FuseView<T>) -> bool {
    f.done || ready_script(f.script)
}

/// A wrapper that makes end-of-sequence final: after the wrapped source
/// first reports it, every further poll reports it again without invoking
/// the wrapped source — a finished producer is never re-entered.
pub struct Fuse<T> {
    src: ScriptSource<T>,
    done: bool,
}

impl<T> View for Fuse<T> {
    type V = FuseView<T>;

    closed spec fn view(&self) -> FuseView<T> {
        FuseView { script: self.src@, done: self.done }
    }
}

impl<T> Fuse<T> {
    /// Wrap a source; no end-of-sequence has been reported yet.
    pub fn new(src: ScriptSource<T>) -> (f: Self)
        ensures
            f@ == (FuseView { script: src@, done: false }),
    {
        Fuse { src, done: false }
    }

    /// Poll the fused source.
    pub fn poll(&mut self) -> (r: Step<T>)
        ensures
            final(self)@ == fuse_step(old(self)@).0,
            r == fuse_step(old(self)@).1,
    {
        if self.done {
            Step::Ended
        } else {
            let r = self.src.poll();
            match r {
                Step::Ended => {
                    self.done = true;
                    Step::Ended
                },
                other => other,
            }
        }
    }

    /// The size hint of a fused source: exact, since the script is known.
    pub fn size_hint(&self) -> (r: SizeHint)
        ensures
            r.0 == fused_items(self@).len(),
            r.1 == Some(r.0),
    {
        if self.done {
            (0, Some(0))
        } else {
            self.src.size_hint()
        }
    }
}

} // verus!
