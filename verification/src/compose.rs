//! Composition: running arguments, one after another, into one class string.

use crate::arg::ClsxArg;
use crate::model::{class_string, pushed};
use vstd::prelude::*;

verus! {

/// `String::with_capacity`: an empty string with room for `capacity` bytes.
///
/// This contract is not proved. The standard library documents that the
/// string returned is empty, and that the call panics when the capacity
/// exceeds `isize::MAX` bytes, which the precondition rules out.
pub assume_specification[ String::with_capacity ](capacity: usize) -> (text: String)
    requires
        capacity <= isize::MAX,
    ensures
        text@ == Seq::<char>::empty(),
;

/// The room, in bytes, that a new composition sets aside for each argument.
pub const BYTES_PER_ARGUMENT: usize = 8;

/// A class string under construction. Arguments are added from left to right
/// with [`Clsx::arg`]; [`Clsx::finish`] hands out the text.
pub struct Clsx {
    out: String,
}

impl View for Clsx {
    type V = Seq<char>;

    /// The text composed so far.
    closed spec fn view(&self) -> Seq<char> {
        self.out@
    }
}

impl Clsx {
    /// Starts a composition of `count` arguments with nothing written. The
    /// count only sizes the buffer, at [`BYTES_PER_ARGUMENT`] for each
    /// argument; a composition may take more or fewer arguments than it
    /// announced, and a count too large to size a buffer is ignored.
    pub fn new(count: usize) -> (composer: Clsx)
        ensures
            composer@ == Seq::<char>::empty(),
    {
        let out = if count <= isize::MAX as usize / BYTES_PER_ARGUMENT {
            String::with_capacity(count * BYTES_PER_ARGUMENT)
        } else {
            String::new()
        };
        Clsx { out }
    }

    /// Adds one argument: the names that `arg` contributes are written after
    /// what was composed before.
    pub fn arg<T: ClsxArg + ?Sized>(self, arg: &T) -> (next: Clsx)
        requires
            arg.ready(),
        ensures
            exists|names: Seq<Seq<char>>|
                #[trigger] arg.contributes(names) && next@ == pushed(self@, class_string(names)),
    {
        let mut out = self.out;
        arg.append_to(&mut out);
        Clsx { out }
    }

    /// Ends the composition and returns the text composed.
    pub fn finish(self) -> (out: String)
        ensures
            out@ == self@,
    {
        self.out
    }
}

} // verus!
