//! Stream combinators with verified cores.
//!
//! A stream is an asynchronous sequence of values that a consumer polls one
//! element at a time; each poll answers with a value, with "not ready yet",
//! or with end-of-sequence.  This crate models that three-valued protocol
//! explicitly ([`Step`]), gives sources whose whole behaviour is a known
//! script of poll outcomes ([`ScriptSource`]), a fusing wrapper that makes
//! end-of-sequence final ([`Fuse`]), and the interleave adaptor that merges
//! two sources by strict alternation ([`Interleave`]).  Every operation
//! carries a contract that pins its result down exactly.

pub mod fuse;
pub mod interleave;
pub mod size_hint;
pub mod source;
pub mod step;

pub use fuse::Fuse;
pub use interleave::interleave;
pub use interleave::Interleave;
pub use source::ScriptSource;
pub use step::Step;
