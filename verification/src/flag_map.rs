//! Flag maps: class names switched on and off by a boolean.

use crate::arg::ClsxArg;
use crate::buffer::push_with_space_if_needed;
use crate::model::{class_string, lemma_class_string_empty, lemma_class_string_push,
    lemma_pushed_associative, pushed};
use std::collections::HashMap;
use vstd::prelude::*;

verus! {

/// Whether `flags` holds a key that reads `name` and is switched on.
pub open spec fn switched_on(flags: Map<String, bool>, name: Seq<char>) -> bool {
    exists|key: String| #[trigger] flags.contains_key(key) && flags[key] && key@ == name
}

/// Whether one of the first `upto` entries reads `name` and is switched on.
pub open spec fn listed_on(entries: Seq<(&String, &bool)>, upto: int, name: Seq<char>) -> bool {
    exists|j: int| 0 <= j < upto && (#[trigger] entries[j]).0@ == name && *entries[j].1
}

/// The entries of a flag map, in the order in which the map hands them out.
///
/// This is `HashMap::iter`, collected into a vector. Its contract is not
/// proved; it states what the standard library documents of a walk over a
/// map: every key of the map is visited with its value, nothing else is
/// visited, and no two visited keys read the same. Nothing is said of the
/// order, which differs from one map to the next.
#[verifier::external_body]
fn flag_entries<'a>(flags: &'a HashMap<String, bool>) -> (entries: Vec<(&'a String, &'a bool)>)
    ensures
        forall|i: int, j: int|
            0 <= i < j < entries@.len() ==> (#[trigger] entries@[i]).0@ != (
            #[trigger] entries@[j]).0@,
        forall|i: int|
            0 <= i < entries@.len() ==> (flags@.contains_key(*(#[trigger] entries@[i]).0)
                && flags@[*entries@[i].0] == *entries@[i].1),
        forall|key: String|
            (#[trigger] flags@.contains_key(key)) ==> (exists|i: int|
                0 <= i < entries@.len() && *(#[trigger] entries@[i]).0 == key),
{
    flags.iter().collect()
}

impl ClsxArg for HashMap<String, bool> {
    /// The names are the non-empty keys that are switched on, each once, in
    /// any order.
    open spec fn contributes(&self, names: Seq<Seq<char>>) -> bool {
        &&& names.no_duplicates()
        &&& forall|name: Seq<char>|
            (#[trigger] names.contains(name)) <==> (name.len() > 0 && switched_on(self@, name))
    }

    /// Writes every non-empty key whose flag is set, in the order in which
    /// the map hands out its entries.
    fn append_to(&self, out: &mut String) {
        let entries = flag_entries(self);
        let ghost mut names: Seq<Seq<char>> = Seq::empty();
        proof {
            lemma_class_string_empty();
        }
        let mut i: usize = 0;
        while i < entries.len()
            invariant
                i <= entries@.len(),
                forall|a: int, b: int|
                    0 <= a < b < entries@.len() ==> (#[trigger] entries@[a]).0@ != (
                    #[trigger] entries@[b]).0@,
                names.no_duplicates(),
                forall|name: Seq<char>|
                    (#[trigger] names.contains(name)) <==> (name.len() > 0 && listed_on(
                        entries@,
                        i as int,
                        name,
                    )),
                out@ == pushed(old(out)@, class_string(names)),
            decreases entries@.len() - i,
        {
            let (class_name, flag) = entries[i];
            let ghost seen = names;
            if *flag && !class_name.as_str().is_empty() {
                push_with_space_if_needed(out, class_name.as_str());
                proof {
                    lemma_class_string_push(names, class_name@);
                    lemma_pushed_associative(old(out)@, class_string(names), class_name@);
                    if names.contains(class_name@) {
                        let j = choose|j: int|
                            0 <= j < i && (#[trigger] entries@[j]).0@ == class_name@
                                && *entries@[j].1;
                        assert(entries@[j].0@ != entries@[i as int].0@);
                    }
                    names = names.push(class_name@);
                }
            }
            proof {
                assert forall|name: Seq<char>|
                    (#[trigger] names.contains(name)) <==> (name.len() > 0 && listed_on(
                        entries@,
                        i + 1,
                        name,
                    )) by {
                    if names.contains(name) {
                        let k = choose|k: int| 0 <= k < names.len() && names[k] == name;
                        if k < seen.len() {
                            assert(seen[k] == name);
                            assert(seen.contains(name));
                            let j = choose|j: int|
                                0 <= j < i && (#[trigger] entries@[j]).0@ == name
                                    && *entries@[j].1;
                            assert(0 <= j < i + 1);
                        } else {
                            assert(name == class_name@);
                            assert(entries@[i as int].0@ == name && *entries@[i as int].1);
                        }
                    }
                    if name.len() > 0 && listed_on(entries@, i + 1, name) {
                        let j = choose|j: int|
                            0 <= j < i + 1 && (#[trigger] entries@[j]).0@ == name
                                && *entries@[j].1;
                        if j < i {
                            assert(listed_on(entries@, i as int, name));
                            assert(seen.contains(name));
                            let k = choose|k: int| 0 <= k < seen.len() && seen[k] == name;
                            assert(names[k] == name);
                        } else {
                            assert(name == class_name@ && *flag);
                            assert(names[names.len() - 1] == name);
                        }
                    }
                }
            }
            i += 1;
        }
        proof {
            assert forall|name: Seq<char>|
                (#[trigger] names.contains(name)) <==> (name.len() > 0 && switched_on(
                    self@,
                    name,
                )) by {
                if names.contains(name) {
                    let j = choose|j: int|
                        0 <= j < entries@.len() && (#[trigger] entries@[j]).0@ == name
                            && *entries@[j].1;
                    assert(self@.contains_key(*entries@[j].0));
                }
                if name.len() > 0 && switched_on(self@, name) {
                    let key = choose|key: String| #[trigger]
                        self@.contains_key(key) && self@[key] && key@ == name;
                    let j = choose|j: int|
                        0 <= j < entries@.len() && *(#[trigger] entries@[j]).0 == key;
                    assert(listed_on(entries@, entries@.len() as int, name));
                }
            }
            assert(self.contributes(names));
        }
    }
}

/// Two lists that a flag map may contribute hold the same names, each once:
/// they differ at most in their order.
pub proof fn lemma_flag_map_same_names(
    flags: HashMap<String, bool>,
    first: Seq<Seq<char>>,
    second: Seq<Seq<char>>,
)
    requires
        flags.contributes(first),
        flags.contributes(second),
    ensures
        first.to_set() == second.to_set(),
        first.len() == second.len(),
{
    assert forall|name: Seq<char>| first.to_set().contains(name) <==> second.to_set().contains(
        name,
    ) by {
        assert(first.contains(name) <==> second.contains(name));
    }
    assert(first.to_set() =~= second.to_set());
    first.unique_seq_to_set();
    second.unique_seq_to_set();
}

/// A flag map in which exactly one non-empty key is switched on contributes
/// that key and nothing else.
pub proof fn lemma_single_flag(flags: HashMap<String, bool>, name: Seq<char>, names: Seq<Seq<char>>)
    requires
        flags.contributes(names),
        forall|other: Seq<char>|
            (other.len() > 0 && #[trigger] switched_on(flags@, other)) <==> other == name,
    ensures
        names == seq![name],
{
    let on = switched_on(flags@, name);
    assert(on && name.len() > 0);
    assert(names.contains(name));
    assert forall|i: int| 0 <= i < names.len() implies #[trigger] names[i] == name by {
        assert(names.contains(names[i]));
    }
    if names.len() > 1 {
        assert(names[0] == names[1]);
    }
    assert(names =~= seq![name]);
}

} // verus!
