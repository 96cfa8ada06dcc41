//! Lists of names that hold each name at most once, such as the credentials
//! a player has earned.
use vstd::prelude::*;

verus! {

/// The character sequences of a list of strings.
pub open spec fn views(v: Seq<String>) -> Seq<Seq<char>> {
    v.map_values(|s: String| s@)
}

/// `names` with `name` appended unless it is already present.
pub open spec fn remember_spec(names: Seq<Seq<char>>, name: Seq<char>) -> Seq<Seq<char>> {
    if names.contains(name) {
        names
    } else {
        names.push(name)
    }
}

/// `names` after remembering each of `more`, in order.
pub open spec fn remember_all_spec(names: Seq<Seq<char>>, more: Seq<Seq<char>>) -> Seq<Seq<char>>
    decreases more.len(),
{
    if more.len() == 0 {
        names
    } else {
        remember_spec(remember_all_spec(names, more.drop_last()), more.last())
    }
}

/// No name occurs twice.
pub open spec fn distinct(names: Seq<Seq<char>>) -> bool {
    forall|i: int, j: int| 0 <= i < j < names.len() ==> names[i] != names[j]
}

/// Whether `list` holds a string equal to `name`.
pub fn contains_name(list: &Vec<String>, name: &String) -> (r: bool)
    ensures
        r == views(list@).contains(name@),
{
    let n = list.len();
    for i in 0..n
        invariant
            n == list@.len(),
            forall|k: int| 0 <= k < i ==> list@[k]@ != name@,
    {
        if list[i] == *name {
            assert(views(list@)[i as int] == name@);
            return true;
        }
    }
    proof {
        if views(list@).contains(name@) {
            let k = choose|k: int| 0 <= k < views(list@).len() && views(list@)[k] == name@;
            assert(list@[k]@ == name@);
        }
    }
    false
}

/// Appends `name` to `list` unless an equal name is already there.
pub fn remember(list: &mut Vec<String>, name: String)
    ensures
        views(final(list)@) == remember_spec(views(old(list)@), name@),
{
    if !contains_name(list, &name) {
        let ghost before = list@;
        list.push(name);
        assert(views(list@) =~= views(before).push(name@));
    }
}

/// Remembering a name that was just remembered changes nothing.
pub proof fn lemma_remember_idempotent(names: Seq<Seq<char>>, name: Seq<char>)
    ensures
        remember_spec(remember_spec(names, name), name) == remember_spec(names, name),
        remember_spec(names, name).contains(name),
{
    if !names.contains(name) {
        assert(names.push(name)[names.len() as int] == name);
    }
}

/// Remembering keeps a list free of repeats and keeps what it held.
pub proof fn lemma_remember_keeps_distinct(names: Seq<Seq<char>>, name: Seq<char>)
    requires
        distinct(names),
    ensures
        distinct(remember_spec(names, name)),
        names.is_prefix_of(remember_spec(names, name)),
{
    if !names.contains(name) {
        let r = names.push(name);
        assert forall|i: int, j: int| 0 <= i < j < r.len() implies r[i] != r[j] by {
            if j == names.len() {
                assert(names[i] == r[i]);
            }
        }
    }
}

/// Remembering a whole list keeps the result free of repeats, keeps the
/// earlier names first, and holds every name remembered.
pub proof fn lemma_remember_all(names: Seq<Seq<char>>, more: Seq<Seq<char>>)
    requires
        distinct(names),
    ensures
        distinct(remember_all_spec(names, more)),
        names.is_prefix_of(remember_all_spec(names, more)),
        forall|i: int| 0 <= i < more.len() ==> remember_all_spec(names, more).contains(#[trigger] more[i]),
        forall|x: Seq<char>| remember_all_spec(names, more).contains(x) ==> names.contains(x) || more.contains(x),
    decreases more.len(),
{
    if more.len() > 0 {
        let prev = remember_all_spec(names, more.drop_last());
        lemma_remember_all(names, more.drop_last());
        lemma_remember_keeps_distinct(prev, more.last());
        lemma_remember_idempotent(prev, more.last());
        let r = remember_spec(prev, more.last());
        assert forall|i: int| 0 <= i < more.len() implies r.contains(#[trigger] more[i]) by {
            if i < more.len() - 1 {
                assert(more.drop_last()[i] == more[i]);
                let k = choose|k: int| 0 <= k < prev.len() && prev[k] == more[i];
                assert(prev.is_prefix_of(r));
                assert(r[k] == more[i]);
            }
        }
        assert forall|x: Seq<char>| r.contains(x) implies names.contains(x) || more.contains(x) by {
            if prev.contains(x) {
                if more.drop_last().contains(x) {
                    let k = choose|k: int| 0 <= k < more.drop_last().len() && more.drop_last()[k] == x;
                    assert(more[k] == x);
                }
            } else {
                assert(x == more.last());
                assert(more[more.len() - 1] == x);
            }
        }
        assert(names.is_prefix_of(r));
    }
}

} // verus!
