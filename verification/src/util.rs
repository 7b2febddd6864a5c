//! Small helpers on lists of names.

use vstd::prelude::*;
use crate::chars::views;

verus! {

/// The first `n` names without repetitions: each name stands where it
/// first occurs.
pub open spec fn dedup(names: Seq<Seq<char>>, n: int) -> Seq<Seq<char>>
    decreases n,
{
    if n <= 0 {
        Seq::empty()
    } else {
        let before = dedup(names, n - 1);
        if before.contains(names[n - 1]) {
            before
        } else {
            before.push(names[n - 1])
        }
    }
}

/// Tells whether `name` is among `names`.
fn holds(names: &Vec<String>, name: &String) -> (found: bool)
    ensures
        found == views(names@).contains(name@),
{
    let mut k: usize = 0;
    while k < names.len()
        invariant
            k <= names.len(),
            forall|j: int| 0 <= j < k ==> views(names@)[j] != name@,
        decreases names.len() - k,
    {
        if names[k] == *name {
            proof {
                assert(views(names@)[k as int] == name@);
            }
            return true;
        }
        k += 1;
    }
    false
}

/// The names without repetitions, in the order in which they first occur.
pub fn dedup_preserve_order(job_names: Vec<String>) -> (result: Vec<String>)
    ensures
        views(result@) == dedup(views(job_names@), job_names@.len() as int),
{
    let mut result: Vec<String> = Vec::new();
    let mut i: usize = 0;
    while i < job_names.len()
        invariant
            i <= job_names.len(),
            views(result@) =~= dedup(views(job_names@), i as int),
        decreases job_names.len() - i,
    {
        if !holds(&result, &job_names[i]) {
            let ghost before = views(result@);
            result.push(job_names[i].clone());
            proof {
                assert(views(result@) =~= before.push(views(job_names@)[i as int]));
            }
        }
        i += 1;
    }
    result
}

/// No name stands twice among the names without repetitions, and each of
/// them is one of the names given.
pub proof fn lemma_dedup_distinct(names: Seq<Seq<char>>, n: int)
    requires
        0 <= n <= names.len(),
    ensures
        forall|a: int, b: int|
            0 <= a < b < dedup(names, n).len() ==> dedup(names, n)[a] != dedup(names, n)[b],
        forall|a: int|
            0 <= a < dedup(names, n).len() ==> names.take(n).contains(
                #[trigger] dedup(names, n)[a],
            ),
        forall|j: int| 0 <= j < n ==> dedup(names, n).contains(#[trigger] names[j]),
    decreases n,
{
    if n > 0 {
        lemma_dedup_distinct(names, n - 1);
        let before = dedup(names, n - 1);
        let after = dedup(names, n);
        let last = names[n - 1];
        assert(names.take(n)[n - 1] == last);
        assert forall|a: int| 0 <= a < after.len() implies names.take(n).contains(
            #[trigger] after[a],
        ) by {
            if a < before.len() {
                assert(names.take(n - 1).contains(before[a]));
                let j = choose|j: int|
                    0 <= j < names.take(n - 1).len() && #[trigger] names.take(n - 1)[j] == before[a];
                assert(names.take(n)[j] == before[a]);
            }
        }
        assert forall|j: int| 0 <= j < n implies after.contains(#[trigger] names[j]) by {
            if j < n - 1 {
                assert(before.contains(names[j]));
                let a = choose|a: int| 0 <= a < before.len() && #[trigger] before[a] == names[j];
                assert(after[a] == names[j]);
            } else if before.contains(last) {
            } else {
                assert(after[after.len() - 1] == last);
            }
        }
    }
}

} // verus!
