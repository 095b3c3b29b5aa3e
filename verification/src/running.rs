//! The front end's table of running clouds: each cloud name with the port
//! it was started on.
use vstd::prelude::*;
use crate::cloud::is_first_index;
use crate::clouds_config::names_unique;
use crate::orchestrator::running_names;
use crate::text::{copy_str, str_eq};

verus! {

/// The port recorded for `name`: that of its first entry.
pub open spec fn port_in(r: Seq<(String, u16)>, name: Seq<char>) -> Option<u16> {
    let names = running_names(r);
    if names.contains(name) {
        Some(r[choose|i: int| is_first_index(names, name, i)].1)
    } else {
        None
    }
}

/// The table as a map from names to ports.
pub open spec fn running_map(r: Seq<(String, u16)>) -> Map<Seq<char>, u16> {
    Map::new(|n: Seq<char>| running_names(r).contains(n), |n: Seq<char>| port_in(r, n)->Some_0)
}

/// The first entry of a name gives its port.
pub proof fn lemma_port_at(r: Seq<(String, u16)>, name: Seq<char>, i: int)
    requires
        is_first_index(running_names(r), name, i),
    ensures
        port_in(r, name) == Some(r[i].1),
{
    let names = running_names(r);
    assert(names[i] == name);
    let k = choose|j: int| is_first_index(names, name, j);
    assert(k == i) by {
        if k < i {
            assert(names[k] != name);
        } else if k > i {
            assert(names[i] != name);
        }
    }
}

/// Position of the first entry named `name`.
pub fn running_index(r: &Vec<(String, u16)>, name: &str) -> (res: Option<usize>)
    ensures
        res matches Some(i) ==> is_first_index(running_names(r@), name@, i as int),
        res is None ==> !running_names(r@).contains(name@),
{
    let mut i: usize = 0;
    while i < r.len()
        invariant
            i <= r.len(),
            forall|j: int| 0 <= j < i ==> #[trigger] r@[j].0@ != name@,
        decreases r.len() - i,
    {
        if str_eq(r[i].0.as_str(), name) {
            return Some(i);
        }
        i = i + 1;
    }
    assert forall|j: int| 0 <= j < running_names(r@).len() implies running_names(r@)[j] != name@ by {
        assert(r@[j].0@ != name@);
    }
    None
}

/// The port recorded for `name`.
pub fn running_port(r: &Vec<(String, u16)>, name: &str) -> (res: Option<u16>)
    ensures
        res == port_in(r@, name@),
{
    match running_index(r, name) {
        Some(i) => {
            proof {
                lemma_port_at(r@, name@, i as int);
            }
            Some(r[i].1)
        },
        None => None,
    }
}

/// Records that `name` runs on `port`, replacing an earlier port.
pub fn record_running(r: &mut Vec<(String, u16)>, name: &str, port: u16)
    ensures
        names_unique(running_names(old(r)@)) ==> names_unique(running_names(final(r)@)) && running_map(final(r)@)
            == running_map(old(r)@).insert(name@, port),
        port_in(final(r)@, name@) == Some(port),
{
    let ghost o = r@;
    match running_index(r, name) {
        Some(i) => {
            r.set(i, (copy_str(name), port));
            proof {
                assert(running_names(r@) =~= running_names(o).update(i as int, name@));
                assert(running_names(r@) =~= running_names(o));
                assert(is_first_index(running_names(r@), name@, i as int));
                lemma_port_at(r@, name@, i as int);
                if names_unique(running_names(o)) {
                    assert forall|n: Seq<char>| running_names(r@).contains(n) && n != name@ implies port_in(r@, n)
                        == port_in(o, n) by {
                        let k = choose|k: int| 0 <= k < running_names(r@).len() && running_names(r@)[k] == n;
                        assert(k != i);
                        assert(forall|q: int| 0 <= q < k ==> running_names(o)[q] != n);
                        assert(is_first_index(running_names(o), n, k));
                        lemma_port_at(r@, n, k);
                        lemma_port_at(o, n, k);
                    }
                    assert(running_map(r@) =~= running_map(o).insert(name@, port));
                }
            }
        },
        None => {
            r.push((copy_str(name), port));
            proof {
                let n0 = o.len() as int;
                assert(running_names(r@) =~= running_names(o).push(name@));
                assert(is_first_index(running_names(r@), name@, n0));
                lemma_port_at(r@, name@, n0);
                if names_unique(running_names(o)) {
                    assert forall|a: int, b: int|
                        0 <= a < b < running_names(r@).len() implies running_names(r@)[a] != running_names(
                            r@,
                        )[b] by {
                        if b == n0 {
                            assert(running_names(o)[a] == o[a].0@);
                        }
                    }
                    assert forall|n: Seq<char>| running_names(o).contains(n) implies port_in(r@, n) == port_in(o, n) by {
                        let k = choose|k: int| 0 <= k < running_names(o).len() && running_names(o)[k] == n;
                        assert(forall|q: int| 0 <= q < k ==> running_names(o)[q] != n);
                        lemma_port_at(r@, n, k);
                        lemma_port_at(o, n, k);
                    }
                    assert forall|n: Seq<char>| running_names(r@).contains(n) implies running_names(o).contains(n)
                        || n == name@ by {
                        let k = choose|k: int| 0 <= k < running_names(r@).len() && running_names(r@)[k] == n;
                        if k < n0 {
                            assert(running_names(o)[k] == n);
                        }
                    }
                    assert forall|n: Seq<char>| running_names(o).contains(n) implies running_names(r@).contains(n) by {
                        let k = choose|k: int| 0 <= k < running_names(o).len() && running_names(o)[k] == n;
                        assert(running_names(r@)[k] == n);
                    }
                    assert(running_names(r@).contains(name@)) by {
                        assert(running_names(r@)[n0] == name@);
                    }
                    assert(running_map(r@) =~= running_map(o).insert(name@, port));
                }
            }
        },
    }
}

/// Forgets the first entry named `name`.
pub fn forget_running(r: &mut Vec<(String, u16)>, name: &str)
    ensures
        names_unique(running_names(old(r)@)) ==> names_unique(running_names(final(r)@)) && running_map(final(r)@)
            == running_map(old(r)@).remove(name@),
        running_names(old(r)@).contains(name@) ==> exists|i: int|
            is_first_index(running_names(old(r)@), name@, i) && final(r)@ == old(r)@.remove(i),
        !running_names(old(r)@).contains(name@) ==> final(r)@ == old(r)@,
{
    let ghost o = r@;
    match running_index(r, name) {
        Some(i) => {
            r.remove(i);
            proof {
                assert(running_names(r@) =~= running_names(o).remove(i as int));
                if names_unique(running_names(o)) {
                    assert forall|a: int, b: int|
                        0 <= a < b < running_names(r@).len() implies running_names(r@)[a] != running_names(
                            r@,
                        )[b] by {
                        let a2 = if a < i { a } else { a + 1 };
                        let b2 = if b < i { b } else { b + 1 };
                        assert(running_names(o)[a2] != running_names(o)[b2]);
                    }
                    assert forall|n: Seq<char>| running_names(r@).contains(n) implies n != name@ && port_in(r@, n)
                        == port_in(o, n) by {
                        let k = choose|k: int| 0 <= k < running_names(r@).len() && running_names(r@)[k] == n;
                        let k2 = if k < i { k } else { k + 1 };
                        assert(running_names(o)[k2] == n);
                        assert(k2 != i);
                        assert(forall|q: int| 0 <= q < k2 ==> q == i || running_names(o)[q] != n);
                        assert(forall|q: int| 0 <= q < k ==> running_names(r@)[q] != n);
                        assert(is_first_index(running_names(o), n, k2));
                        lemma_port_at(r@, n, k);
                        lemma_port_at(o, n, k2);
                    }
                    assert forall|n: Seq<char>| running_names(o).contains(n) && n != name@ implies running_names(
                        r@,
                    ).contains(n) by {
                        let k = choose|k: int| 0 <= k < running_names(o).len() && running_names(o)[k] == n;
                        assert(k != i);
                        let k2 = if k < i { k } else { k - 1 };
                        assert(running_names(r@)[k2] == n);
                    }
                    assert(running_map(r@) =~= running_map(o).remove(name@));
                }
            }
        },
        None => {
            proof {
                assert(running_map(o) =~= running_map(o).remove(name@));
            }
        },
    }
}

} // verus!
