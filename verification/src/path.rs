//! The path resolver: from a node to its name, to the name of its parent,
//! and so on to the root.
//!
//! The thread record of a node is filed under the node's own ID and an empty
//! name. It gives the node's name and the ID of its parent, so a path is
//! found by going from thread record to thread record until no record is
//! filed under the next key.

use vstd::prelude::*;
use crate::catalog::{cnid_key, cnid_to_key, CatalogLeafRecord, LeafRecordModel};
use crate::error::HfsError;
use crate::index::CatalogIndex;
use crate::text::{string_from_utf16_lossy, utf16_lossy};

verus! {

/// The catalog as the resolver sees it: a map from key to record.
pub type CatalogMap = Map<Seq<u8>, LeafRecordModel>;

/// The names on the way from the record under `key` to the root, the name
/// nearest to `key` first, each as UTF-16 code units. At most `fuel` thread
/// records are followed.
///
/// The way ends at a key under which nothing is filed. It fails with
/// `UnexpectedRecordKind` at a key under which a folder or file record is
/// filed, and with `PathCycleDetected` at a thread record that is reached
/// when `fuel` is used up.
pub open spec fn chain_names(map: CatalogMap, key: Seq<u8>, fuel: nat) -> Result<
    Seq<Seq<u16>>,
    HfsError,
>
    decreases fuel,
{
    if !map.contains_key(key) {
        Ok(Seq::empty())
    } else {
        match map[key] {
            LeafRecordModel::Folder(_) => Err(HfsError::UnexpectedRecordKind),
            LeafRecordModel::File(_) => Err(HfsError::UnexpectedRecordKind),
            LeafRecordModel::FolderThread(thread) | LeafRecordModel::FileThread(thread) => {
                if fuel == 0 {
                    Err(HfsError::PathCycleDetected)
                } else {
                    match chain_names(map, cnid_key(thread.parent_id), (fuel - 1) as nat) {
                        Ok(rest) => Ok(seq![thread.node_name] + rest),
                        Err(e) => Err(e),
                    }
                }
            },
        }
    }
}

/// The number of thread records on the way from `key` to the first key that
/// has none, at most `fuel`.
pub open spec fn thread_depth(map: CatalogMap, key: Seq<u8>, fuel: nat) -> nat
    decreases fuel,
{
    if !map.contains_key(key) || fuel == 0 {
        0
    } else {
        match map[key] {
            LeafRecordModel::FolderThread(thread) | LeafRecordModel::FileThread(thread) => 1
                + thread_depth(map, cnid_key(thread.parent_id), (fuel - 1) as nat),
            _ => 0,
        }
    }
}

/// The names as text, in the opposite order.
pub open spec fn path_of_names(names: Seq<Seq<u16>>) -> Seq<Seq<char>> {
    Seq::new(names.len(), |i: int| utf16_lossy(names[names.len() - 1 - i]))
}

/// The path of the node whose thread record is filed under `key`, from the
/// root down, each component as text.
pub open spec fn resolved_path(map: CatalogMap, key: Seq<u8>, bound: nat) -> Result<
    Seq<Seq<char>>,
    HfsError,
> {
    match chain_names(map, key, bound) {
        Ok(names) => Ok(path_of_names(names)),
        Err(e) => Err(e),
    }
}

/// The texts that the strings hold.
pub open spec fn texts_of(path: Seq<String>) -> Seq<Seq<char>> {
    Seq::new(path.len(), |i: int| path[i]@)
}

/// Whether `r` is the path that `resolved_path` gives, the components taken
/// by their views.
pub open spec fn is_resolved_path(
    map: CatalogMap,
    key: Seq<u8>,
    bound: nat,
    r: Result<Vec<String>, HfsError>,
) -> bool {
    match r {
        Ok(path) => resolved_path(map, key, bound) == Ok::<Seq<Seq<char>>, HfsError>(
            texts_of(path@),
        ),
        Err(e) => resolved_path(map, key, bound) == Err::<Seq<Seq<char>>, HfsError>(e),
    }
}

/// A path has as many components as there are thread records on the way from
/// the node to the root: its length is the depth at which the node lies.
pub proof fn lemma_path_length_is_depth(map: CatalogMap, key: Seq<u8>, bound: nat)
    requires
        chain_names(map, key, bound) is Ok,
    ensures
        chain_names(map, key, bound)->Ok_0.len() == thread_depth(map, key, bound),
        resolved_path(map, key, bound)->Ok_0.len() == thread_depth(map, key, bound),
    decreases bound,
{
    if map.contains_key(key) {
        match map[key] {
            LeafRecordModel::FolderThread(thread) | LeafRecordModel::FileThread(thread) => {
                lemma_path_length_is_depth(map, cnid_key(thread.parent_id), (bound - 1) as nat);
            },
            _ => {},
        }
    }
}

/// A way that comes to its end within a bound comes to the same end within
/// every greater bound: only a way that does not end fails for want of fuel.
pub proof fn lemma_resolved_way_needs_no_more_fuel(
    map: CatalogMap,
    key: Seq<u8>,
    fuel: nat,
    more: nat,
)
    requires
        fuel <= more,
        chain_names(map, key, fuel) != Err::<Seq<Seq<u16>>, HfsError>(
            HfsError::PathCycleDetected,
        ),
    ensures
        chain_names(map, key, more) == chain_names(map, key, fuel),
    decreases fuel,
{
    if map.contains_key(key) {
        match map[key] {
            LeafRecordModel::FolderThread(thread) | LeafRecordModel::FileThread(thread) => {
                if fuel > 0 {
                    lemma_resolved_way_needs_no_more_fuel(
                        map,
                        cnid_key(thread.parent_id),
                        (fuel - 1) as nat,
                        (more - 1) as nat,
                    );
                }
            },
            _ => {},
        }
    }
}

/// The key that is reached from `key` after `steps` thread records.
pub open spec fn way_key(map: CatalogMap, key: Seq<u8>, steps: nat) -> Seq<u8>
    decreases steps,
{
    if steps == 0 || !map.contains_key(key) {
        key
    } else {
        match map[key] {
            LeafRecordModel::FolderThread(thread) | LeafRecordModel::FileThread(thread) => way_key(
                map,
                cnid_key(thread.parent_id),
                (steps - 1) as nat,
            ),
            _ => key,
        }
    }
}

/// A way that fails for want of fuel has a record filed under every key that
/// it reaches.
proof fn lemma_unended_way_stays_in_map(map: CatalogMap, key: Seq<u8>, fuel: nat, steps: nat)
    requires
        steps <= fuel,
        chain_names(map, key, fuel) == Err::<Seq<Seq<u16>>, HfsError>(
            HfsError::PathCycleDetected,
        ),
    ensures
        map.contains_key(way_key(map, key, steps)),
    decreases fuel,
{
    if steps > 0 {
        match map[key] {
            LeafRecordModel::FolderThread(thread) | LeafRecordModel::FileThread(thread) => {
                lemma_unended_way_stays_in_map(
                    map,
                    cnid_key(thread.parent_id),
                    (fuel - 1) as nat,
                    (steps - 1) as nat,
                );
            },
            _ => {},
        }
    }
}

/// Where the bound is no less than the number of keys in the map, only a
/// cycle brings `PathCycleDetected` about: the way comes to some key twice.
pub proof fn lemma_cycle_failure_means_repeated_key(map: CatalogMap, key: Seq<u8>, bound: nat)
    requires
        map.dom().finite(),
        map.dom().len() <= bound,
        chain_names(map, key, bound) == Err::<Seq<Seq<u16>>, HfsError>(
            HfsError::PathCycleDetected,
        ),
    ensures
        exists|i: nat, j: nat|
            i < j <= bound && #[trigger] way_key(map, key, i) == #[trigger] way_key(map, key, j),
{
    let keys = Seq::new(bound + 1, |i: int| way_key(map, key, i as nat));
    if keys.no_duplicates() {
        keys.unique_seq_to_set();
        assert forall|k: Seq<u8>| keys.to_set().contains(k) implies map.dom().contains(k) by {
            let i = choose|i: int| 0 <= i < keys.len() && keys[i] == k;
            lemma_unended_way_stays_in_map(map, key, bound, i as nat);
        }
        vstd::set_lib::lemma_len_subset(keys.to_set(), map.dom());
        assert(false);
    } else {
        let (i, j) = choose|i: int, j: int|
            0 <= i < keys.len() && 0 <= j < keys.len() && i != j && keys[i] == keys[j];
        if i < j {
            assert(way_key(map, key, i as nat) == way_key(map, key, j as nat));
        } else {
            assert(way_key(map, key, j as nat) == way_key(map, key, i as nat));
        }
    }
}

/// Resolving the same key in the same index twice gives the same path, or
/// the same failure, twice.
pub proof fn lemma_path_is_stable(
    map: CatalogMap,
    key: Seq<u8>,
    bound: nat,
    first: Result<Vec<String>, HfsError>,
    second: Result<Vec<String>, HfsError>,
)
    requires
        is_resolved_path(map, key, bound, first),
        is_resolved_path(map, key, bound, second),
    ensures
        first is Ok <==> second is Ok,
        first is Ok ==> texts_of(first->Ok_0@) == texts_of(second->Ok_0@),
        first is Err ==> first->Err_0 == second->Err_0,
{
}

/// A node without a thread record has the empty path: nothing is filed under
/// its key, so there is no name to give and no parent to go to.
pub proof fn lemma_missing_thread_gives_empty_path(map: CatalogMap, key: Seq<u8>, bound: nat)
    requires
        !map.contains_key(key),
    ensures
        resolved_path(map, key, bound) == Ok::<Seq<Seq<char>>, HfsError>(Seq::empty()),
{
    assert(path_of_names(Seq::<Seq<u16>>::empty()) =~= Seq::<Seq<char>>::empty());
}

/// The strings of `path` in the opposite order.
fn reversed(path: Vec<String>) -> (out: Vec<String>)
    ensures
        out@.len() == path@.len(),
        forall|i: int| 0 <= i < out@.len() ==> out@[i] == path@[path@.len() - 1 - i],
{
    let mut rest = path;
    let mut out: Vec<String> = Vec::with_capacity(rest.len());
    while rest.len() > 0
        invariant
            rest@.len() + out@.len() == path@.len(),
            forall|i: int| 0 <= i < rest@.len() ==> rest@[i] == path@[i],
            forall|i: int| 0 <= i < out@.len() ==> out@[i] == path@[path@.len() - 1 - i],
        decreases rest@.len(),
    {
        match rest.pop() {
            Some(component) => {
                out.push(component);
            },
            None => {},
        }
    }
    out
}

/// Finds the path of the node whose thread record is filed under `start`,
/// from the root down.
///
/// Every thread record on the way gives one component, its name as text,
/// and the key of the next record: the ID of the parent with an empty name.
/// The way ends where nothing is filed under the next key, so a node without
/// a thread record has the empty path.
///
/// Fails with `UnexpectedRecordKind` where a folder or file record is filed
/// under a key of the way, and with `PathCycleDetected` where the way holds
/// more thread records than the index has records, which only a cycle brings
/// about: the way then comes to some key twice.
pub fn path_for_key(map: &CatalogIndex, start: Vec<u8>) -> (r: Result<Vec<String>, HfsError>)
    ensures
        is_resolved_path(map@, start@, map.count(), r),
        r == Err::<Vec<String>, HfsError>(HfsError::PathCycleDetected) ==> exists|i: nat, j: nat|
            i < j <= map.count() && #[trigger] way_key(map@, start@, i) == #[trigger] way_key(
                map@,
                start@,
                j,
            ),
{
    let bound: usize = map.len();
    let mut path: Vec<String> = Vec::new();
    let mut key: Vec<u8> = start;
    let mut steps: usize = 0;
    let ghost mut names: Seq<Seq<u16>> = Seq::empty();
    assert(names + Seq::<Seq<u16>>::empty() =~= names);
    loop
        invariant
            bound == map.count(),
            map@.dom().finite(),
            map@.dom().len() == bound,
            steps <= bound,
            path@.len() == names.len(),
            forall|i: int| 0 <= i < names.len() ==> (#[trigger] path@[i])@ == utf16_lossy(names[i]),
            chain_names(map@, start@, bound as nat) == match chain_names(
                map@,
                key@,
                (bound - steps) as nat,
            ) {
                Ok(rest) => Ok::<Seq<Seq<u16>>, HfsError>(names + rest),
                Err(e) => Err::<Seq<Seq<u16>>, HfsError>(e),
            },
        decreases bound - steps,
    {
        match map.get(key.as_slice()) {
            None => {
                let ordered = reversed(path);
                proof {
                    assert(names + Seq::<Seq<u16>>::empty() =~= names);
                    assert(texts_of(ordered@) =~= path_of_names(names));
                }
                return Ok(ordered);
            },
            Some(record) => {
                let thread = match record {
                    CatalogLeafRecord::Folder(_) => {
                        return Err(HfsError::UnexpectedRecordKind);
                    },
                    CatalogLeafRecord::File(_) => {
                        return Err(HfsError::UnexpectedRecordKind);
                    },
                    CatalogLeafRecord::FolderThread(t) => t,
                    CatalogLeafRecord::FileThread(t) => t,
                };
                if steps == bound {
                    proof {
                        lemma_cycle_failure_means_repeated_key(map@, start@, bound as nat);
                    }
                    return Err(HfsError::PathCycleDetected);
                }
                let name = string_from_utf16_lossy(thread.node_name.unicode.as_slice());
                proof {
                    let t = thread@;
                    let rest = chain_names(
                        map@,
                        cnid_key(t.parent_id),
                        (bound - steps - 1) as nat,
                    );
                    if rest is Ok {
                        assert(names + (seq![t.node_name] + rest->Ok_0) =~= names.push(
                            t.node_name,
                        ) + rest->Ok_0);
                    }
                    names = names.push(t.node_name);
                }
                path.push(name);
                key = cnid_to_key(thread.parent_id);
                steps += 1;
            },
        }
    }
}

} // verus!
