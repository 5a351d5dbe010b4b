//! Start-up reconciliation of the project registry with the projects
//! directory: every store on disk whose id the registry does not list is an
//! orphan and goes.

use vstd::prelude::*;

verus! {

/// One entry of the projects directory.
#[derive(Debug, Clone, PartialEq, Eq)]
pub struct DiskEntry {
    /// File or directory name, without any directory part.
    pub name: String,
    /// Whether the entry is a directory.
    pub is_dir: bool,
}

/// The project id that a legacy store file stands for: its name without the
/// `.db` extension, if it has that extension and a non-empty stem.
pub open spec fn db_file_stem(name: Seq<char>) -> Option<Seq<char>> {
    if name.len() > 3 && name.subrange(name.len() - 3, name.len() as int) == seq!['.', 'd', 'b'] {
        Some(name.subrange(0, name.len() - 3))
    } else {
        None
    }
}

/// The project id that entry `e` holds a store for: a directory is named by
/// its id, a legacy `.db` file by its stem; other files hold no store.
pub open spec fn store_id(e: DiskEntry) -> Option<Seq<char>> {
    if e.is_dir {
        Some(e.name@)
    } else {
        db_file_stem(e.name@)
    }
}

/// Whether `key` is one of the registry's ids.
pub open spec fn registered(ids: Seq<String>, key: Seq<char>) -> bool {
    exists|i: int| 0 <= i < ids.len() && ids[i]@ == key
}

/// An entry that holds a store for a project the registry does not list.
pub open spec fn is_orphan(ids: Seq<String>, e: DiskEntry) -> bool {
    match store_id(e) {
        Some(k) => !registered(ids, k),
        None => false,
    }
}

/// The orphans among `entries`, in their order.
pub open spec fn orphans(ids: Seq<String>, entries: Seq<DiskEntry>) -> Seq<DiskEntry> {
    entries.filter(|e: DiskEntry| is_orphan(ids, e))
}

/// The stem of a legacy store file name, as `db_file_stem` gives it.
pub fn db_stem(name: &str) -> (r: Option<String>)
    ensures
        r is None <==> db_file_stem(name@) is None,
        r matches Some(s) ==> db_file_stem(name@) == Some(s@),
{
    let n = name.unicode_len();
    if n > 3 && name.get_char(n - 3) == '.' && name.get_char(n - 2) == 'd' && name.get_char(n - 1)
        == 'b' {
        assert(name@.subrange(n - 3, n as int) =~= seq!['.', 'd', 'b']);
        Some(String::from_str(name.substring_char(0, n - 3)))
    } else {
        proof {
            if n > 3 {
                let tail = name@.subrange(n - 3, n as int);
                assert(tail[0] == name@[n - 3]);
                assert(tail[1] == name@[n - 2]);
                assert(tail[2] == name@[n - 1]);
                assert(seq!['.', 'd', 'b'][0] == '.');
                assert(seq!['.', 'd', 'b'][1] == 'd');
                assert(seq!['.', 'd', 'b'][2] == 'b');
            }
        }
        None
    }
}

/// Whether `key` is one of `ids`.
pub fn is_registered(ids: &Vec<String>, key: &String) -> (r: bool)
    ensures
        r == registered(ids@, key@),
{
    let mut i: usize = 0;
    while i < ids.len()
        invariant
            i <= ids.len(),
            forall|j: int| 0 <= j < i ==> ids@[j]@ != key@,
        decreases ids.len() - i,
    {
        if ids[i] == *key {
            return true;
        }
        i = i + 1;
    }
    false
}

/// Whether entry `e` is an orphan with respect to `ids`.
pub fn entry_is_orphan(ids: &Vec<String>, e: &DiskEntry) -> (r: bool)
    ensures
        r == is_orphan(ids@, *e),
{
    if e.is_dir {
        !is_registered(ids, &e.name)
    } else {
        match db_stem(e.name.as_str()) {
            Some(stem) => !is_registered(ids, &stem),
            None => false,
        }
    }
}

/// The entries of the projects directory to remove, given the registry's
/// ids: exactly the orphans, in the order listed.
pub fn select_orphans(ids: &Vec<String>, entries: &Vec<DiskEntry>) -> (r: Vec<DiskEntry>)
    ensures
        r@ == orphans(ids@, entries@),
{
    let mut r: Vec<DiskEntry> = Vec::new();
    let mut i: usize = 0;
    while i < entries.len()
        invariant
            i <= entries.len(),
            r@ == orphans(ids@, entries@.subrange(0, i as int)),
        decreases entries.len() - i,
    {
        let e = &entries[i];
        let orphan = entry_is_orphan(ids, e);
        proof {
            let prefix = entries@.subrange(0, i + 1);
            assert(prefix.drop_last() =~= entries@.subrange(0, i as int));
            assert(prefix.last() == entries@[i as int]);
            reveal(Seq::filter);
        }
        if orphan {
            r.push(DiskEntry { name: e.name.clone(), is_dir: e.is_dir });
        }
        i = i + 1;
    }
    assert(entries@.subrange(0, entries.len() as int) =~= entries@);
    r
}

/// Reconciliation removes exactly the orphans: each entry it selects is on
/// disk and holds a store of an unregistered id, and each entry on disk that
/// holds an unregistered id's store is selected. An entry that holds a
/// registered project's store is never selected.
pub proof fn lemma_orphans_exact(ids: Seq<String>, entries: Seq<DiskEntry>)
    ensures
        forall|e: DiskEntry| #[trigger]
            orphans(ids, entries).contains(e) <==> entries.contains(e) && is_orphan(ids, e),
        forall|e: DiskEntry|
            #![trigger orphans(ids, entries).contains(e)]
            store_id(e) matches Some(k) && registered(ids, k) ==> !orphans(ids, entries).contains(
                e,
            ),
{
    let pred = |e: DiskEntry| is_orphan(ids, e);
    assert(orphans(ids, entries) == entries.filter(pred));
    assert forall|e: DiskEntry| #[trigger]
        orphans(ids, entries).contains(e) <==> entries.contains(e) && is_orphan(ids, e) by {
        if orphans(ids, entries).contains(e) {
            let k = choose|k: int|
                0 <= k < entries.filter(pred).len() && entries.filter(pred)[k] == e;
            entries.lemma_filter_pred(pred, k);
            entries.lemma_filter_contains_rev(pred, e);
        }
        if entries.contains(e) && is_orphan(ids, e) {
            let j = choose|j: int| 0 <= j < entries.len() && entries[j] == e;
            entries.lemma_filter_contains(pred, j);
        }
    }
}

} // verus!
