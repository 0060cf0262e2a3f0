//! The mathematical model of class strings, and the laws that hold of it.

use vstd::prelude::*;

verus! {

/// The buffer `buf` after `text` is written to it: an empty `text` changes
/// nothing, and a single space separates the two when both are non-empty.
pub open spec fn pushed(buf: Seq<char>, text: Seq<char>) -> Seq<char> {
    if text.len() == 0 {
        buf
    } else if buf.len() == 0 {
        text
    } else {
        buf + seq![' '] + text
    }
}

/// The names that are written at all: the non-empty ones, in order.
pub open spec fn kept(names: Seq<Seq<char>>) -> Seq<Seq<char>> {
    names.filter(|name: Seq<char>| name.len() > 0)
}

/// The names written one after another with a single space between neighbours.
pub open spec fn joined(names: Seq<Seq<char>>) -> Seq<char>
    decreases names.len(),
{
    if names.len() == 0 {
        Seq::empty()
    } else if names.len() == 1 {
        names[0]
    } else {
        joined(names.drop_last()) + seq![' '] + names.last()
    }
}

/// The class string of a list of names: the non-empty names, in order, joined
/// by single spaces.
pub open spec fn class_string(names: Seq<Seq<char>>) -> Seq<char> {
    joined(kept(names))
}

/// A text without stray separators: it neither starts nor ends with a space
/// and holds no two spaces in a row.
pub open spec fn is_tidy(text: Seq<char>) -> bool {
    &&& text.len() > 0 ==> text[0] != ' ' && text[text.len() - 1] != ' '
    &&& forall|i: int| 0 <= i && i + 1 < text.len() ==> !(text[i] == ' ' && #[trigger] text[i + 1] == ' ')
}

/// The empty text is the identity of `pushed`, on both sides.
pub proof fn lemma_pushed_identity(text: Seq<char>)
    ensures
        pushed(text, Seq::empty()) == text,
        pushed(Seq::empty(), text) == text,
{
}

/// Writing never removes or moves what the buffer held: the old content is
/// the start of the new.
pub proof fn lemma_pushed_keeps_content(buf: Seq<char>, text: Seq<char>)
    ensures
        buf.len() <= pushed(buf, text).len(),
        pushed(buf, text).subrange(0, buf.len() as int) == buf,
{
}

/// Writing is associative: it does not matter how a run of writes is grouped.
pub proof fn lemma_pushed_associative(a: Seq<char>, b: Seq<char>, c: Seq<char>)
    ensures
        pushed(pushed(a, b), c) == pushed(a, pushed(b, c)),
{
    if a.len() > 0 && b.len() > 0 && c.len() > 0 {
        assert((a + seq![' '] + b) + seq![' '] + c =~= a + seq![' '] + (b + seq![' '] + c));
    }
}

/// Joining at least one name, none of them empty, gives a non-empty text.
pub proof fn lemma_joined_nonempty(names: Seq<Seq<char>>)
    requires
        names.len() > 0,
        forall|i: int| 0 <= i < names.len() ==> (#[trigger] names[i]).len() > 0,
    ensures
        joined(names).len() > 0,
{
}

/// Every name that is kept is non-empty.
pub proof fn lemma_kept_nonempty(names: Seq<Seq<char>>)
    ensures
        forall|i: int| 0 <= i < kept(names).len() ==> (#[trigger] kept(names)[i]).len() > 0,
{
    let pred = |name: Seq<char>| name.len() > 0;
    assert forall|i: int| 0 <= i < kept(names).len() implies (#[trigger] kept(names)[i]).len() > 0 by {
        names.lemma_filter_pred(pred, i);
    }
}

/// The class string of no names is empty.
pub proof fn lemma_class_string_empty()
    ensures
        class_string(Seq::empty()) == Seq::<char>::empty(),
{
    reveal(Seq::filter);
}

/// The class string of a single name is that name.
pub proof fn lemma_class_string_single(name: Seq<char>)
    ensures
        class_string(seq![name]) == name,
{
    lemma_class_string_empty();
    assert(seq![name] =~= Seq::<Seq<char>>::empty().push(name));
    lemma_class_string_push(Seq::empty(), name);
}

/// A class string grows one name at a time exactly as a buffer does: the
/// class string of `names` followed by `name` is the class string of `names`
/// with `name` written to it.
pub proof fn lemma_class_string_push(names: Seq<Seq<char>>, name: Seq<char>)
    ensures
        class_string(names.push(name)) == pushed(class_string(names), name),
{
    let pred = |name: Seq<char>| name.len() > 0;
    let before = kept(names);
    names.lemma_filter_push(name, pred);
    if name.len() > 0 {
        let after = before.push(name);
        assert(kept(names.push(name)) == after);
        if before.len() > 0 {
            assert(after.drop_last() =~= before);
            lemma_kept_nonempty(names);
            lemma_joined_nonempty(before);
        }
    }
}

/// The class string of two lists of names in a row is the class string of the
/// first with that of the second written to it.
pub proof fn lemma_class_string_concat(first: Seq<Seq<char>>, second: Seq<Seq<char>>)
    ensures
        class_string(first + second) == pushed(class_string(first), class_string(second)),
    decreases second.len(),
{
    if second.len() == 0 {
        assert(first + second =~= first);
        assert(second =~= Seq::empty());
        lemma_class_string_empty();
    } else {
        let front = second.drop_last();
        let name = second.last();
        assert(second =~= front.push(name));
        assert(first + second =~= (first + front).push(name));
        lemma_class_string_concat(first, front);
        lemma_class_string_push(first + front, name);
        lemma_class_string_push(front, name);
        lemma_pushed_associative(class_string(first), class_string(front), name);
    }
}

/// Writing one tidy text to another leaves a tidy text.
pub proof fn lemma_pushed_tidy(buf: Seq<char>, text: Seq<char>)
    requires
        is_tidy(buf),
        is_tidy(text),
    ensures
        is_tidy(pushed(buf, text)),
{
    if buf.len() > 0 && text.len() > 0 {
        let whole = buf + seq![' '] + text;
        assert forall|i: int| 0 <= i && i + 1 < whole.len() implies !(whole[i] == ' '
            && #[trigger] whole[i + 1] == ' ') by {
            if i + 1 < buf.len() {
                assert(whole[i] == buf[i] && whole[i + 1] == buf[i + 1]);
            } else if i + 1 == buf.len() {
                assert(whole[i] == buf[buf.len() - 1]);
            } else if i == buf.len() {
                assert(whole[i + 1] == text[0]);
            } else {
                let j: int = i - buf.len() - 1;
                assert(whole[i] == text[j] && whole[i + 1] == text[j + 1]);
            }
        }
        assert(whole[0] == buf[0]);
        assert(whole[whole.len() - 1] == text[text.len() - 1]);
    }
}

/// No stray separators: the class string of tidy names neither starts nor
/// ends with a space, and holds no two spaces in a row, whichever of the
/// names are empty.
pub proof fn lemma_class_string_tidy(names: Seq<Seq<char>>)
    requires
        forall|i: int| 0 <= i < names.len() ==> is_tidy(#[trigger] names[i]),
    ensures
        is_tidy(class_string(names)),
    decreases names.len(),
{
    if names.len() == 0 {
        assert(names =~= Seq::empty());
        lemma_class_string_empty();
    } else {
        let front = names.drop_last();
        assert(names =~= front.push(names.last()));
        assert forall|i: int| 0 <= i < front.len() implies is_tidy(#[trigger] front[i]) by {
            assert(front[i] == names[i]);
        }
        lemma_class_string_tidy(front);
        lemma_class_string_push(front, names.last());
        lemma_pushed_tidy(class_string(front), names.last());
    }
}

/// A list of lists of names in which every list holds exactly one name
/// flattens to those names.
pub proof fn lemma_flatten_singletons(parts: Seq<Seq<Seq<char>>>, names: Seq<Seq<char>>)
    requires
        parts.len() == names.len(),
        forall|i: int| 0 <= i < parts.len() ==> #[trigger] parts[i] == seq![names[i]],
    ensures
        parts.flatten() == names,
    decreases parts.len(),
{
    if parts.len() == 0 {
        assert(names =~= Seq::empty());
    } else {
        let front = parts.drop_last();
        assert(parts =~= front.push(parts.last()));
        front.lemma_flatten_push(parts.last());
        lemma_flatten_singletons(front, names.drop_last());
        assert(names =~= names.drop_last() + seq![names.last()]);
    }
}

} // verus!
