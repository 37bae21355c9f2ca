//! The directory layout made at start-up: the parent directory and one
//! directory per bucket inside it.

use vstd::prelude::*;
use crate::text::{join_path, joined};

verus! {

/// Every directory the service needs, parent first, then one per bucket in
/// the configured order.
pub open spec fn bucket_dirs(parent: Seq<char>, buckets: Seq<Seq<char>>) -> Seq<Seq<char>> {
    seq![parent] + buckets.map_values(|b: Seq<char>| joined(parent, b))
}

/// Lists the directories to make for `parent` and its `buckets`.
pub fn buckets_setup(parent: &str, buckets: &Vec<String>) -> (dirs: Vec<String>)
    ensures
        dirs@.map_values(|d: String| d@) == bucket_dirs(
            parent@,
            buckets@.map_values(|b: String| b@),
        ),
{
    let mut dirs: Vec<String> = Vec::new();
    dirs.push(String::from_str(parent));
    let n = buckets.len();
    let ghost names = buckets@.map_values(|b: String| b@);
    let mut i: usize = 0;
    while i < n
        invariant
            n == buckets@.len(),
            names == buckets@.map_values(|b: String| b@),
            i <= n,
            dirs@.len() == i + 1,
            dirs@[0]@ == parent@,
            forall|j: int| 0 <= j < i ==> (#[trigger] dirs@[j + 1])@ == joined(parent@, names[j]),
        decreases n - i,
    {
        dirs.push(join_path(parent, buckets[i].as_str()));
        i = i + 1;
    }
    proof {
        let want = bucket_dirs(parent@, names);
        let got = dirs@.map_values(|d: String| d@);
        assert forall|j: int| 0 <= j < got.len() implies got[j] == want[j] by {
            if j > 0 {
                assert(dirs@[(j - 1) + 1] == dirs@[j]);
            }
        }
        assert(got =~= want);
    }
    dirs
}

/// How many entries are `false`.
pub open spec fn count_false(s: Seq<bool>) -> nat
    decreases s.len(),
{
    if s.len() == 0 {
        0
    } else {
        count_false(s.drop_last()) + if s.last() {
            0nat
        } else {
            1nat
        }
    }
}

/// How many directories set-up makes (or tries to): those not already
/// present as directories (`present[i]` for the `i`-th one).
pub fn newly_created(present: &Vec<bool>) -> (count: usize)
    ensures
        count == count_false(present@),
{
    let n = present.len();
    let mut count: usize = 0;
    let mut i: usize = 0;
    while i < n
        invariant
            n == present@.len(),
            i <= n,
            count == count_false(present@.subrange(0, i as int)),
            count <= i,
        decreases n - i,
    {
        assert(present@.subrange(0, i + 1).drop_last() =~= present@.subrange(0, i as int));
        if !present[i] {
            count = count + 1;
        }
        i = i + 1;
    }
    assert(present@.subrange(0, n as int) =~= present@);
    count
}

} // verus!
