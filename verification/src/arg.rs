//! The contribution protocol: what each shape of value adds to a class string.

use crate::buffer::push_with_space_if_needed;
use crate::decimal::{decimal_text, push_signed, push_unsigned};
use crate::model::{class_string, lemma_class_string_concat, lemma_class_string_empty,
    lemma_class_string_push, lemma_class_string_single, lemma_pushed_associative, pushed};
use vstd::prelude::*;

verus! {

/// A value that can contribute class names to a class string.
///
/// An implementation writes its names at the end of the buffer, each after a
/// single space when the buffer already holds something, and skips empty
/// names. It never changes what the buffer held before.
pub trait ClsxArg {
    /// Whether every producer that this value holds may be called. It is
    /// `true` for every value that holds no closure, and by default.
    open spec fn ready(&self) -> bool {
        true
    }

    /// Whether `names` is a list of names that this value may contribute, in
    /// the order in which it writes them. Most shapes admit exactly one list;
    /// a flag map admits every order of its names. By default every list is
    /// admitted, which leaves only what holds of every implementation: the
    /// buffer keeps what it held, and names are written after it.
    open spec fn contributes(&self, names: Seq<Seq<char>>) -> bool {
        true
    }

    /// Appends this value's class names to `out`.
    fn append_to(&self, out: &mut String)
        requires
            self.ready(),
        ensures
            exists|names: Seq<Seq<char>>|
                #[trigger] self.contributes(names) && final(out)@ == pushed(
                    old(out)@,
                    class_string(names),
                ),
    ;
}

impl ClsxArg for &str {
    open spec fn contributes(&self, names: Seq<Seq<char>>) -> bool {
        names == seq![self@]
    }

    /// Writes the text itself, unless it is empty.
    fn append_to(&self, out: &mut String)
        ensures
            final(out)@ == pushed(old(out)@, self@),
    {
        push_with_space_if_needed(out, self);
        proof {
            lemma_class_string_single(self@);
            assert(self.contributes(seq![self@]));
        }
    }
}

impl ClsxArg for String {
    open spec fn contributes(&self, names: Seq<Seq<char>>) -> bool {
        names == seq![self@]
    }

    /// Writes the text itself, unless it is empty.
    fn append_to(&self, out: &mut String)
        ensures
            final(out)@ == pushed(old(out)@, self@),
    {
        push_with_space_if_needed(out, self.as_str());
        proof {
            lemma_class_string_single(self@);
            assert(self.contributes(seq![self@]));
        }
    }
}

impl ClsxArg for &String {
    open spec fn contributes(&self, names: Seq<Seq<char>>) -> bool {
        names == seq![self@]
    }

    /// Writes the text itself, unless it is empty.
    fn append_to(&self, out: &mut String)
        ensures
            final(out)@ == pushed(old(out)@, self@),
    {
        push_with_space_if_needed(out, self.as_str());
        proof {
            lemma_class_string_single(self@);
            assert(self.contributes(seq![self@]));
        }
    }
}

impl ClsxArg for &&str {
    open spec fn contributes(&self, names: Seq<Seq<char>>) -> bool {
        names == seq![self@]
    }

    /// Writes the text itself, unless it is empty.
    fn append_to(&self, out: &mut String)
        ensures
            final(out)@ == pushed(old(out)@, self@),
    {
        push_with_space_if_needed(out, self);
        proof {
            lemma_class_string_single(self@);
            assert(self.contributes(seq![self@]));
        }
    }
}

impl ClsxArg for &&&str {
    open spec fn contributes(&self, names: Seq<Seq<char>>) -> bool {
        names == seq![self@]
    }

    /// Writes the text itself, unless it is empty.
    fn append_to(&self, out: &mut String)
        ensures
            final(out)@ == pushed(old(out)@, self@),
    {
        push_with_space_if_needed(out, self);
        proof {
            lemma_class_string_single(self@);
            assert(self.contributes(seq![self@]));
        }
    }
}

impl ClsxArg for bool {
    open spec fn contributes(&self, names: Seq<Seq<char>>) -> bool {
        names == Seq::<Seq<char>>::empty()
    }

    /// Writes nothing, whether the flag is set or not.
    fn append_to(&self, out: &mut String)
        ensures
            final(out)@ == old(out)@,
    {
        proof {
            lemma_class_string_empty();
            assert(self.contributes(Seq::empty()));
        }
    }
}

impl ClsxArg for i8 {
    open spec fn contributes(&self, names: Seq<Seq<char>>) -> bool {
        names == seq![decimal_text(*self as int)]
    }

    /// Writes the number as decimal text, always: zero is written as `0`.
    fn append_to(&self, out: &mut String)
        ensures
            old(out)@.len() == 0 ==> final(out)@ == decimal_text(*self as int),
            old(out)@.len() > 0 ==> final(out)@ == old(out)@ + seq![' '] + decimal_text(
                *self as int,
            ),
    {
        push_signed(out, *self as i64);
        proof {
            lemma_class_string_single(decimal_text(*self as int));
            assert(self.contributes(seq![decimal_text(*self as int)]));
        }
    }
}

impl ClsxArg for i16 {
    open spec fn contributes(&self, names: Seq<Seq<char>>) -> bool {
        names == seq![decimal_text(*self as int)]
    }

    /// Writes the number as decimal text, always: zero is written as `0`.
    fn append_to(&self, out: &mut String)
        ensures
            old(out)@.len() == 0 ==> final(out)@ == decimal_text(*self as int),
            old(out)@.len() > 0 ==> final(out)@ == old(out)@ + seq![' '] + decimal_text(
                *self as int,
            ),
    {
        push_signed(out, *self as i64);
        proof {
            lemma_class_string_single(decimal_text(*self as int));
            assert(self.contributes(seq![decimal_text(*self as int)]));
        }
    }
}

impl ClsxArg for i32 {
    open spec fn contributes(&self, names: Seq<Seq<char>>) -> bool {
        names == seq![decimal_text(*self as int)]
    }

    /// Writes the number as decimal text, always: zero is written as `0`.
    fn append_to(&self, out: &mut String)
        ensures
            old(out)@.len() == 0 ==> final(out)@ == decimal_text(*self as int),
            old(out)@.len() > 0 ==> final(out)@ == old(out)@ + seq![' '] + decimal_text(
                *self as int,
            ),
    {
        push_signed(out, *self as i64);
        proof {
            lemma_class_string_single(decimal_text(*self as int));
            assert(self.contributes(seq![decimal_text(*self as int)]));
        }
    }
}

impl ClsxArg for i64 {
    open spec fn contributes(&self, names: Seq<Seq<char>>) -> bool {
        names == seq![decimal_text(*self as int)]
    }

    /// Writes the number as decimal text, always: zero is written as `0`.
    fn append_to(&self, out: &mut String)
        ensures
            old(out)@.len() == 0 ==> final(out)@ == decimal_text(*self as int),
            old(out)@.len() > 0 ==> final(out)@ == old(out)@ + seq![' '] + decimal_text(
                *self as int,
            ),
    {
        push_signed(out, *self as i64);
        proof {
            lemma_class_string_single(decimal_text(*self as int));
            assert(self.contributes(seq![decimal_text(*self as int)]));
        }
    }
}

impl ClsxArg for isize {
    open spec fn contributes(&self, names: Seq<Seq<char>>) -> bool {
        names == seq![decimal_text(*self as int)]
    }

    /// Writes the number as decimal text, always: zero is written as `0`.
    fn append_to(&self, out: &mut String)
        ensures
            old(out)@.len() == 0 ==> final(out)@ == decimal_text(*self as int),
            old(out)@.len() > 0 ==> final(out)@ == old(out)@ + seq![' '] + decimal_text(
                *self as int,
            ),
    {
        push_signed(out, *self as i64);
        proof {
            lemma_class_string_single(decimal_text(*self as int));
            assert(self.contributes(seq![decimal_text(*self as int)]));
        }
    }
}

impl ClsxArg for u8 {
    open spec fn contributes(&self, names: Seq<Seq<char>>) -> bool {
        names == seq![decimal_text(*self as int)]
    }

    /// Writes the number as decimal text, always: zero is written as `0`.
    fn append_to(&self, out: &mut String)
        ensures
            old(out)@.len() == 0 ==> final(out)@ == decimal_text(*self as int),
            old(out)@.len() > 0 ==> final(out)@ == old(out)@ + seq![' '] + decimal_text(
                *self as int,
            ),
    {
        push_unsigned(out, *self as u64);
        proof {
            lemma_class_string_single(decimal_text(*self as int));
            assert(self.contributes(seq![decimal_text(*self as int)]));
        }
    }
}

impl ClsxArg for u16 {
    open spec fn contributes(&self, names: Seq<Seq<char>>) -> bool {
        names == seq![decimal_text(*self as int)]
    }

    /// Writes the number as decimal text, always: zero is written as `0`.
    fn append_to(&self, out: &mut String)
        ensures
            old(out)@.len() == 0 ==> final(out)@ == decimal_text(*self as int),
            old(out)@.len() > 0 ==> final(out)@ == old(out)@ + seq![' '] + decimal_text(
                *self as int,
            ),
    {
        push_unsigned(out, *self as u64);
        proof {
            lemma_class_string_single(decimal_text(*self as int));
            assert(self.contributes(seq![decimal_text(*self as int)]));
        }
    }
}

impl ClsxArg for u32 {
    open spec fn contributes(&self, names: Seq<Seq<char>>) -> bool {
        names == seq![decimal_text(*self as int)]
    }

    /// Writes the number as decimal text, always: zero is written as `0`.
    fn append_to(&self, out: &mut String)
        ensures
            old(out)@.len() == 0 ==> final(out)@ == decimal_text(*self as int),
            old(out)@.len() > 0 ==> final(out)@ == old(out)@ + seq![' '] + decimal_text(
                *self as int,
            ),
    {
        push_unsigned(out, *self as u64);
        proof {
            lemma_class_string_single(decimal_text(*self as int));
            assert(self.contributes(seq![decimal_text(*self as int)]));
        }
    }
}

impl ClsxArg for u64 {
    open spec fn contributes(&self, names: Seq<Seq<char>>) -> bool {
        names == seq![decimal_text(*self as int)]
    }

    /// Writes the number as decimal text, always: zero is written as `0`.
    fn append_to(&self, out: &mut String)
        ensures
            old(out)@.len() == 0 ==> final(out)@ == decimal_text(*self as int),
            old(out)@.len() > 0 ==> final(out)@ == old(out)@ + seq![' '] + decimal_text(
                *self as int,
            ),
    {
        push_unsigned(out, *self as u64);
        proof {
            lemma_class_string_single(decimal_text(*self as int));
            assert(self.contributes(seq![decimal_text(*self as int)]));
        }
    }
}

impl ClsxArg for usize {
    open spec fn contributes(&self, names: Seq<Seq<char>>) -> bool {
        names == seq![decimal_text(*self as int)]
    }

    /// Writes the number as decimal text, always: zero is written as `0`.
    fn append_to(&self, out: &mut String)
        ensures
            old(out)@.len() == 0 ==> final(out)@ == decimal_text(*self as int),
            old(out)@.len() > 0 ==> final(out)@ == old(out)@ + seq![' '] + decimal_text(
                *self as int,
            ),
    {
        push_unsigned(out, *self as u64);
        proof {
            lemma_class_string_single(decimal_text(*self as int));
            assert(self.contributes(seq![decimal_text(*self as int)]));
        }
    }
}

impl<T: ClsxArg> ClsxArg for Option<T> {
    open spec fn ready(&self) -> bool {
        match self {
            Some(val) => val.ready(),
            None => true,
        }
    }

    open spec fn contributes(&self, names: Seq<Seq<char>>) -> bool {
        match self {
            Some(val) => val.contributes(names),
            None => names == Seq::<Seq<char>>::empty(),
        }
    }

    /// Writes what the wrapped value writes, and nothing when there is none.
    fn append_to(&self, out: &mut String)
        ensures
            self is None ==> final(out)@ == old(out)@,
    {
        if let Some(val) = self {
            val.append_to(out);
            proof {
                let names = choose|names: Seq<Seq<char>>|
                    #[trigger] val.contributes(names) && out@ == pushed(
                        old(out)@,
                        class_string(names),
                    );
                assert(self.contributes(names));
            }
        } else {
            proof {
                lemma_class_string_empty();
                assert(self.contributes(Seq::empty()));
            }
        }
    }
}

/// Whether `parts` gives, for each of `items` in turn, a list of names that
/// the item may contribute.
pub open spec fn each_contributes<T: ClsxArg>(items: Seq<T>, parts: Seq<Seq<Seq<char>>>) -> bool {
    &&& parts.len() == items.len()
    &&& forall|i: int| 0 <= i < items.len() ==> (#[trigger] items[i]).contributes(parts[i])
}

/// Whether `names` is what a sequence of `items` may contribute: the names of
/// its items, one item after another, nested sequences flattened.
pub open spec fn sequence_contributes<T: ClsxArg>(items: Seq<T>, names: Seq<Seq<char>>) -> bool {
    exists|parts: Seq<Seq<Seq<char>>>| #[trigger]
        each_contributes(items, parts) && names == parts.flatten()
}

/// Whether every one of `items` is ready.
pub open spec fn each_ready<T: ClsxArg>(items: Seq<T>) -> bool {
    forall|i: int| 0 <= i < items.len() ==> (#[trigger] items[i]).ready()
}

/// Appends the class names of each of `items` to `out`, from left to right.
pub fn append_each<T: ClsxArg>(items: &[T], out: &mut String)
    requires
        each_ready(items@),
    ensures
        exists|names: Seq<Seq<char>>|
            #[trigger] sequence_contributes(items@, names) && final(out)@ == pushed(
                old(out)@,
                class_string(names),
            ),
{
    let ghost mut parts: Seq<Seq<Seq<char>>> = Seq::empty();
    proof {
        lemma_class_string_empty();
    }
    let mut i: usize = 0;
    while i < items.len()
        invariant
            i <= items@.len(),
            each_ready(items@),
            parts.len() == i,
            forall|j: int| 0 <= j < i ==> (#[trigger] items@[j]).contributes(parts[j]),
            out@ == pushed(old(out)@, class_string(parts.flatten())),
        decreases items@.len() - i,
    {
        let ghost before = out@;
        items[i].append_to(out);
        proof {
            let item = items@[i as int];
            let names = choose|names: Seq<Seq<char>>|
                #[trigger] item.contributes(names) && out@ == pushed(before, class_string(names));
            let flat = parts.flatten();
            parts.lemma_flatten_push(names);
            lemma_class_string_concat(flat, names);
            lemma_pushed_associative(old(out)@, class_string(flat), class_string(names));
            parts = parts.push(names);
        }
        i += 1;
    }
    proof {
        assert(each_contributes(items@, parts));
        assert(sequence_contributes(items@, parts.flatten()));
    }
}

impl<T: ClsxArg> ClsxArg for Vec<T> {
    open spec fn ready(&self) -> bool {
        each_ready(self@)
    }

    open spec fn contributes(&self, names: Seq<Seq<char>>) -> bool {
        sequence_contributes(self@, names)
    }

    /// Writes what each element writes, from left to right.
    fn append_to(&self, out: &mut String) {
        append_each(self.as_slice(), out);
        proof {
            let names = choose|names: Seq<Seq<char>>|
                #[trigger] sequence_contributes(self@, names) && out@ == pushed(
                    old(out)@,
                    class_string(names),
                );
            assert(self.contributes(names));
        }
    }
}

impl<T: ClsxArg> ClsxArg for &[T] {
    open spec fn ready(&self) -> bool {
        each_ready(self@)
    }

    open spec fn contributes(&self, names: Seq<Seq<char>>) -> bool {
        sequence_contributes(self@, names)
    }

    /// Writes what each element writes, from left to right.
    fn append_to(&self, out: &mut String) {
        append_each(self, out);
        proof {
            let names = choose|names: Seq<Seq<char>>|
                #[trigger] sequence_contributes(self@, names) && out@ == pushed(
                    old(out)@,
                    class_string(names),
                );
            assert(self.contributes(names));
        }
    }
}

impl<T: ClsxArg, const N: usize> ClsxArg for [T; N] {
    open spec fn ready(&self) -> bool {
        each_ready(self@)
    }

    open spec fn contributes(&self, names: Seq<Seq<char>>) -> bool {
        sequence_contributes(self@, names)
    }

    /// Writes what each element writes, from left to right.
    fn append_to(&self, out: &mut String) {
        append_each(self.as_slice(), out);
        proof {
            let names = choose|names: Seq<Seq<char>>|
                #[trigger] sequence_contributes(self@, names) && out@ == pushed(
                    old(out)@,
                    class_string(names),
                );
            assert(self.contributes(names));
        }
    }
}

impl ClsxArg for (bool, &str) {
    open spec fn contributes(&self, names: Seq<Seq<char>>) -> bool {
        names == if self.0 {
            seq![self.1@]
        } else {
            Seq::<Seq<char>>::empty()
        }
    }

    /// Writes the text when the condition holds and the text is not empty.
    fn append_to(&self, out: &mut String)
        ensures
            self.0 ==> final(out)@ == pushed(old(out)@, self.1@),
            !self.0 ==> final(out)@ == old(out)@,
    {
        if self.0 && !self.1.is_empty() {
            push_with_space_if_needed(out, self.1);
        }
        proof {
            lemma_class_string_empty();
            lemma_class_string_single(self.1@);
            if self.0 {
                assert(self.contributes(seq![self.1@]));
            } else {
                assert(self.contributes(Seq::empty()));
            }
        }
    }
}

impl ClsxArg for (bool, String) {
    open spec fn contributes(&self, names: Seq<Seq<char>>) -> bool {
        names == if self.0 {
            seq![self.1@]
        } else {
            Seq::<Seq<char>>::empty()
        }
    }

    /// Writes the text when the condition holds and the text is not empty.
    fn append_to(&self, out: &mut String)
        ensures
            self.0 ==> final(out)@ == pushed(old(out)@, self.1@),
            !self.0 ==> final(out)@ == old(out)@,
    {
        if self.0 && !self.1.as_str().is_empty() {
            push_with_space_if_needed(out, self.1.as_str());
        }
        proof {
            lemma_class_string_empty();
            lemma_class_string_single(self.1@);
            if self.0 {
                assert(self.contributes(seq![self.1@]));
            } else {
                assert(self.contributes(Seq::empty()));
            }
        }
    }
}

impl<F, R> ClsxArg for F where F: Fn() -> R, R: ClsxArg {
    open spec fn ready(&self) -> bool {
        &&& call_requires(*self, ())
        &&& forall|produced: R| call_ensures(*self, (), produced) ==> produced.ready()
    }

    open spec fn contributes(&self, names: Seq<Seq<char>>) -> bool {
        exists|produced: R| call_ensures(*self, (), produced) && #[trigger] produced.contributes(names)
    }

    /// Calls the producer once and writes what the produced value writes.
    fn append_to(&self, out: &mut String) {
        let produced = (self)();
        produced.append_to(out);
        proof {
            let names = choose|names: Seq<Seq<char>>|
                #[trigger] produced.contributes(names) && out@ == pushed(
                    old(out)@,
                    class_string(names),
                );
            assert(self.contributes(names));
        }
    }
}

/// What a producer is ready for and what it contributes, spelled out: it is
/// ready when it may be called and whatever it produces is ready, and it
/// contributes what some value that it may produce contributes.
///
/// A caller that holds a closure proves `ready` of it through this lemma.
pub proof fn lemma_producer<F: Fn() -> R, R: ClsxArg>(producer: &F)
    ensures
        producer.ready() <==> (call_requires(*producer, ()) && forall|produced: R|
            call_ensures(*producer, (), produced) ==> produced.ready()),
        forall|names: Seq<Seq<char>>|
            (#[trigger] producer.contributes(names)) <==> (exists|produced: R|
                call_ensures(*producer, (), produced) && #[trigger] produced.contributes(names)),
{
}

} // verus!
