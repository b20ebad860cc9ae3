//! Backend failover: when the active proxy backend has accumulated more
//! consecutive connect errors than the configured maximum, rotate to the
//! next backend in the configured list, round-robin.

use vstd::prelude::*;

verus! {

/// Whether `index` is the position of the active backend: the first entry
/// of `names` equal to `current`.
pub open spec fn spec_is_first_match(names: Seq<String>, current: Seq<char>, index: int) -> bool {
    &&& 0 <= index < names.len()
    &&& names[index]@ == current
    &&& forall|j: int| 0 <= j < index ==> names[j]@ != current
}

/// Whether `current` names no configured backend at all.
pub open spec fn spec_no_match(names: Seq<String>, current: Seq<char>) -> bool {
    forall|i: int| 0 <= i < names.len() ==> names[i]@ != current
}

/// The position of the first backend named `current`, or 0 when none is —
/// a renamed or removed entry must not halt traffic, so the rotation then
/// starts over from the head of the list.
pub fn position_or_zero(names: &Vec<String>, current: &String) -> (r: usize)
    ensures
        r < names@.len() || r == 0,
        forall|i: int|
            #[trigger] spec_is_first_match(names@, current@, i) ==> r
                == i,
        spec_no_match(names@, current@) ==> r == 0,
{
    let n = names.len();
    let mut i: usize = 0;
    while i < n
        invariant
            n == names@.len(),
            i <= n,
            forall|j: int| 0 <= j < i ==> names@[j]@ != current@,
        decreases n - i,
    {
        if names[i] == *current {
            return i;
        }
        i = i + 1;
    }
    0
}

/// The index after `index`, wrapping past the end of a list of length `n`.
pub open spec fn spec_next_index(index: int, n: int) -> int {
    (index + 1) % n
}

/// The backend the controller rotates to: one past the active backend's
/// position (taken as 0 when its name is not configured), modulo the number
/// of configured backends.
///
/// The two quantified clauses state the rotation law in full: from the
/// active backend's position the index advances by exactly one, wrapping to
/// the head past the end; an unknown active name is treated as position 0.
pub fn next_backend_index(names: &Vec<String>, current: &String) -> (r: usize)
    requires
        names@.len() > 0,
    ensures
        r < names@.len(),
        forall|i: int|
            #[trigger] spec_is_first_match(names@, current@, i) ==> r
                == spec_next_index(i, names@.len() as int),
        spec_no_match(names@, current@) ==> r == spec_next_index(
            0,
            names@.len() as int,
        ),
{
    let n = names.len();
    let pos = position_or_zero(names, current);
    assert(pos < n);
    (pos + 1) % n
}

/// Law: with an active name that is not configured, the rotation behaves as
/// if the active position were 0, so the next index is `1 % n` — with more
/// than one backend, the second entry; with a single backend, that backend
/// itself.
pub proof fn lemma_unknown_name_rotates_from_head(names: Seq<String>, current: Seq<char>)
    requires
        names.len() > 0,
        spec_no_match(names, current),
    ensures
        spec_next_index(0, names.len() as int) == 1int % (names.len() as int),
        names.len() > 1 ==> spec_next_index(0, names.len() as int) == 1,
        names.len() == 1 ==> spec_next_index(0, names.len() as int) == 0,
{
    let n = names.len() as int;
    if n > 1 {
        assert(1int % n == 1) by (nonlinear_arith)
            requires
                n > 1,
        ;
    } else {
        assert(1int % 1int == 0) by (nonlinear_arith);
    }
}

/// Law: rotation always advances by exactly one position modulo the list
/// length; in particular the last backend wraps to the first.
pub proof fn lemma_rotation_advances_by_one(index: int, n: int)
    requires
        n > 0,
        0 <= index < n,
    ensures
        index < n - 1 ==> spec_next_index(index, n) == index + 1,
        index == n - 1 ==> spec_next_index(index, n) == 0,
{
    if index < n - 1 {
        assert((index + 1) % n == index + 1) by (nonlinear_arith)
            requires
                n > 0 && 0 <= index + 1 < n,
        ;
    } else {
        assert(n % n == 0) by (nonlinear_arith)
            requires
                n > 0,
        ;
    }
}

} // verus!
