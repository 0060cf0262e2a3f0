//! Laws of composition: what holds of every run, whatever the arguments.

use crate::arg::{each_contributes, sequence_contributes, ClsxArg};
use crate::model::{class_string, joined, kept, lemma_class_string_empty, lemma_class_string_push,
    lemma_flatten_singletons, lemma_pushed_associative, pushed};
use vstd::prelude::*;

verus! {

/// The buffer `buf` after each of `texts` is written to it in turn.
pub open spec fn written(buf: Seq<char>, texts: Seq<Seq<char>>) -> Seq<char>
    decreases texts.len(),
{
    if texts.len() == 0 {
        buf
    } else {
        pushed(written(buf, texts.drop_last()), texts.last())
    }
}

/// Writing names one by one appends their class string: what the buffer held
/// stays, and the non-empty names follow it, in order, each after one space.
pub proof fn lemma_written_is_class_string(buf: Seq<char>, texts: Seq<Seq<char>>)
    ensures
        written(buf, texts) == pushed(buf, class_string(texts)),
    decreases texts.len(),
{
    if texts.len() == 0 {
        assert(texts =~= Seq::empty());
        lemma_class_string_empty();
    } else {
        let front = texts.drop_last();
        assert(texts =~= front.push(texts.last()));
        lemma_written_is_class_string(buf, front);
        lemma_class_string_push(front, texts.last());
        lemma_pushed_associative(buf, class_string(front), texts.last());
    }
}

/// Composing text arguments alone, from nothing, gives the non-empty texts
/// joined by single spaces, in the order of the arguments.
pub proof fn lemma_texts_joined(texts: Seq<Seq<char>>)
    ensures
        written(Seq::empty(), texts) == joined(kept(texts)),
{
    lemma_written_is_class_string(Seq::empty(), texts);
}

/// A sequence of texts contributes exactly those texts, in order.
pub proof fn lemma_text_sequence(texts: Seq<&str>, names: Seq<Seq<char>>)
    requires
        sequence_contributes(texts, names),
    ensures
        names == texts.map_values(|text: &str| text@),
{
    let parts = choose|parts: Seq<Seq<Seq<char>>>| #[trigger]
        each_contributes(texts, parts) && names == parts.flatten();
    let views = texts.map_values(|text: &str| text@);
    assert forall|i: int| 0 <= i < parts.len() implies #[trigger] parts[i] == seq![views[i]] by {
        assert(texts[i].contributes(parts[i]));
    }
    lemma_flatten_singletons(parts, views);
}

/// Whether `arg` admits at most one list of names, so that what it writes
/// depends on nothing but the argument.
pub open spec fn determined<T: ClsxArg + ?Sized>(arg: &T) -> bool {
    forall|first: Seq<Seq<char>>, second: Seq<Seq<char>>|
        #[trigger] arg.contributes(first) && #[trigger] arg.contributes(second) ==> first == second
}

/// Composing is repeatable: a determined argument written twice to equal
/// buffers leaves equal buffers.
pub proof fn lemma_repeatable<T: ClsxArg + ?Sized>(
    arg: &T,
    buf: Seq<char>,
    first: Seq<Seq<char>>,
    second: Seq<Seq<char>>,
)
    requires
        determined(arg),
        arg.contributes(first),
        arg.contributes(second),
    ensures
        pushed(buf, class_string(first)) == pushed(buf, class_string(second)),
{
}

/// An option is determined when the value it may hold is.
pub proof fn lemma_option_determined<T: ClsxArg>(arg: Option<T>)
    requires
        arg matches Some(val) ==> determined(&val),
    ensures
        determined(&arg),
{
}

/// A sequence is determined when each of its items is.
pub proof fn lemma_sequence_determined<T: ClsxArg>(items: Seq<T>)
    requires
        forall|i: int| 0 <= i < items.len() ==> determined(&#[trigger] items[i]),
    ensures
        forall|first: Seq<Seq<char>>, second: Seq<Seq<char>>|
            #[trigger] sequence_contributes(items, first) && #[trigger] sequence_contributes(
                items,
                second,
            ) ==> first == second,
{
    assert forall|first: Seq<Seq<char>>, second: Seq<Seq<char>>|
        #[trigger] sequence_contributes(items, first) && #[trigger] sequence_contributes(
            items,
            second,
        ) implies first == second by {
        let a = choose|parts: Seq<Seq<Seq<char>>>| #[trigger]
            each_contributes(items, parts) && first == parts.flatten();
        let b = choose|parts: Seq<Seq<Seq<char>>>| #[trigger]
            each_contributes(items, parts) && second == parts.flatten();
        assert forall|i: int| 0 <= i < a.len() implies a[i] == b[i] by {
            assert(determined(&items[i]));
            assert(items[i].contributes(a[i]));
            assert(items[i].contributes(b[i]));
        }
        assert(a =~= b);
    }
}

} // verus!
