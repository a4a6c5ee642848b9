//! The recently-opened-files history.
//!
//! A bounded list of entries, kept sorted by most recent use. Opening a
//! file either refreshes its entry or appends a new one; the list is then
//! re-sorted (a stable insertion sort, specified exactly) and truncated to
//! its capacity. The host layer persists the record.

use crate::text::str_eq;
use vstd::prelude::*;
use vstd::string::StringExecFns;

verus! {

/// One remembered file.
pub struct HistoryEntry {
    /// The file's path.
    pub path: String,
    /// When the file was last opened, in milliseconds since the epoch.
    pub last_opened: i64,
    /// How many times the file has been opened.
    pub open_count: u32,
}

/// The whole history record.
pub struct FileHistory {
    /// Format version of the persisted record.
    pub version: String,
    /// Capacity: the list never grows beyond this many entries.
    pub max_entries: usize,
    /// The entries, most recently opened first.
    pub entries: Vec<HistoryEntry>,
}

/// The mathematical value of one entry.
pub struct EntryVal {
    /// View of the path.
    pub path: Seq<char>,
    /// When the file was last opened.
    pub last_opened: i64,
    /// How many times the file has been opened.
    pub open_count: u32,
}

/// The value of an entry.
pub open spec fn entry_val(e: HistoryEntry) -> EntryVal {
    EntryVal { path: e.path@, last_opened: e.last_opened, open_count: e.open_count }
}

/// The values of an entry list.
pub open spec fn entry_values(s: Seq<HistoryEntry>) -> Seq<EntryVal> {
    s.map_values(|e: HistoryEntry| entry_val(e))
}

/// Entries ordered most recently opened first.
pub open spec fn sorted_desc(s: Seq<EntryVal>) -> bool {
    forall|i: int, j: int| 0 <= i <= j < s.len() ==> s[i].last_opened >= s[j].last_opened
}

/// The first index at or after `i` whose entry is older than `x`, or the
/// length when there is none: where an entry with timestamp `x` belongs.
pub open spec fn first_older(s: Seq<EntryVal>, x: i64, i: int) -> int
    decreases s.len() - i,
{
    if i >= s.len() || s[i].last_opened < x {
        i
    } else {
        first_older(s, x, i + 1)
    }
}

/// Inserting into a sorted list at the position where older entries begin.
pub open spec fn insert_desc(s: Seq<EntryVal>, e: EntryVal) -> Seq<EntryVal> {
    s.insert(first_older(s, e.last_opened, 0), e)
}

/// The stable sort, most recent first: each entry inserted in turn.
pub open spec fn sort_desc(s: Seq<EntryVal>) -> Seq<EntryVal>
    decreases s.len(),
{
    if s.len() == 0 {
        Seq::empty()
    } else {
        insert_desc(sort_desc(s.drop_last()), s.last())
    }
}

/// The first index at or after `i` holding `path`, or the length when the
/// path is not remembered.
pub open spec fn find_path(s: Seq<EntryVal>, path: Seq<char>, i: int) -> int
    decreases s.len() - i,
{
    if i >= s.len() || s[i].path == path {
        i
    } else {
        find_path(s, path, i + 1)
    }
}

/// The raised open count: one more, saturating at the type's maximum.
pub open spec fn bump_count(c: u32) -> u32 {
    if c < 0xffffffff {
        (c + 1) as u32
    } else {
        c
    }
}

/// The entry list after an open of `path` at `now`: the first entry with
/// that path refreshed (timestamp replaced, count raised by one), or a
/// fresh entry appended when the path is new.
pub open spec fn touch(s: Seq<EntryVal>, path: Seq<char>, now: i64) -> Seq<EntryVal> {
    let i = find_path(s, path, 0);
    if i < s.len() {
        s.update(
            i,
            EntryVal { path: s[i].path, last_opened: now, open_count: bump_count(s[i].open_count) },
        )
    } else {
        s.push(EntryVal { path: path, last_opened: now, open_count: 1 })
    }
}

/// Everything before the insertion point is at least as recent as `x`.
proof fn lemma_first_older_prefix(s: Seq<EntryVal>, x: i64, i: int)
    requires
        0 <= i <= s.len(),
    ensures
        i <= first_older(s, x, i) <= s.len(),
        forall|k: int| i <= k < first_older(s, x, i) ==> s[k].last_opened >= x,
        first_older(s, x, i) < s.len() ==> s[first_older(s, x, i)].last_opened < x,
    decreases s.len() - i,
{
    if !(i >= s.len() || s[i].last_opened < x) {
        lemma_first_older_prefix(s, x, i + 1);
    }
}

/// Inserting at the computed position keeps the list sorted.
proof fn lemma_insert_desc_sorted(s: Seq<EntryVal>, e: EntryVal)
    requires
        sorted_desc(s),
    ensures
        sorted_desc(insert_desc(s, e)),
        insert_desc(s, e).len() == s.len() + 1,
{
    lemma_first_older_prefix(s, e.last_opened, 0);
    let idx = first_older(s, e.last_opened, 0);
    let r = s.insert(idx, e);
    s.insert_ensures(idx, e);
    assert forall|i: int, j: int| 0 <= i <= j < r.len() implies r[i].last_opened
        >= r[j].last_opened by {
        if i < idx {
            assert(r[i] == s[i]);
        } else if i > idx {
            assert(r[i] == s[i - 1]);
        }
        if j < idx {
            assert(r[j] == s[j]);
        } else if j > idx {
            assert(r[j] == s[j - 1]);
        }
    }
}

/// The stable sort sorts.
proof fn lemma_sort_desc_sorted(s: Seq<EntryVal>)
    ensures
        sorted_desc(sort_desc(s)),
        sort_desc(s).len() == s.len(),
    decreases s.len(),
{
    if s.len() > 0 {
        lemma_sort_desc_sorted(s.drop_last());
        lemma_insert_desc_sorted(sort_desc(s.drop_last()), s.last());
    }
}

/// The search for a path never leaves the list.
proof fn lemma_find_path_bounds(s: Seq<EntryVal>, path: Seq<char>, i: int)
    requires
        0 <= i <= s.len(),
    ensures
        i <= find_path(s, path, i) <= s.len(),
    decreases s.len() - i,
{
    if !(i >= s.len() || s[i].path == path) {
        lemma_find_path_bounds(s, path, i + 1);
    }
}

/// Mapping to values commutes with appending an entry.
proof fn lemma_entry_values_push(s: Seq<HistoryEntry>, e: HistoryEntry)
    ensures
        entry_values(s.push(e)) =~= entry_values(s).push(entry_val(e)),
{
}

/// An exact copy of an entry.
fn clone_entry(e: &HistoryEntry) -> (r: HistoryEntry)
    ensures
        r == *e,
{
    HistoryEntry { path: e.path.clone(), last_opened: e.last_opened, open_count: e.open_count }
}

/// Inserts an entry into a sorted list at the position where older entries
/// begin.
fn insert_sorted(v: &mut Vec<HistoryEntry>, e: HistoryEntry)
    ensures
        entry_values(final(v)@) == insert_desc(entry_values(old(v)@), entry_val(e)),
{
    let ghost s = entry_values(v@);
    let x = e.last_opened;
    let mut j: usize = 0;
    while j < v.len() && v[j].last_opened >= x
        invariant
            s == entry_values(v@),
            0 <= j <= s.len(),
            first_older(s, x, 0) == first_older(s, x, j as int),
        decreases s.len() - j,
    {
        j = j + 1;
    }
    proof {
        assert(first_older(s, x, j as int) == j);
    }
    v.insert(j, e);
    proof {
        assert(entry_values(v@) =~= s.insert(j as int, entry_val(e)));
    }
}

/// Sorts the entries, most recently opened first, stably.
pub fn sort_entries(entries: Vec<HistoryEntry>) -> (r: Vec<HistoryEntry>)
    ensures
        entry_values(r@) == sort_desc(entry_values(entries@)),
        sorted_desc(entry_values(r@)),
{
    let mut out: Vec<HistoryEntry> = Vec::new();
    let mut i: usize = 0;
    while i < entries.len()
        invariant
            i <= entries@.len(),
            entry_values(out@) == sort_desc(entry_values(entries@).take(i as int)),
        decreases entries@.len() - i,
    {
        proof {
            let vals = entry_values(entries@);
            assert(vals.take(i + 1).drop_last() =~= vals.take(i as int));
            assert(vals.take(i + 1).last() == entry_val(entries@[i as int]));
        }
        let e = clone_entry(&entries[i]);
        insert_sorted(&mut out, e);
        i = i + 1;
    }
    proof {
        assert(entry_values(entries@).take(entries@.len() as int) =~= entry_values(entries@));
        lemma_sort_desc_sorted(entry_values(entries@));
    }
    out
}

/// Records an open of `path` at `now`: refreshes or appends the entry,
/// re-sorts most recent first, and truncates to capacity.
pub fn add_to_history(h: FileHistory, path: &str, now: i64) -> (r: FileHistory)
    ensures
        r.version@ == h.version@,
        r.max_entries == h.max_entries,
        entry_values(r.entries@) == sort_desc(touch(entry_values(h.entries@), path@, now)).take(
            if h.max_entries <= touch(entry_values(h.entries@), path@, now).len() {
                h.max_entries as int
            } else {
                touch(entry_values(h.entries@), path@, now).len() as int
            },
        ),
        sorted_desc(entry_values(r.entries@)),
        r.entries@.len() <= h.max_entries,
{
    let FileHistory { version, max_entries, entries } = h;
    let ghost s = entry_values(entries@);
    let ghost touched_spec = touch(s, path@, now);
    proof {
        lemma_find_path_bounds(s, path@, 0);
    }
    let mut touched: Vec<HistoryEntry> = Vec::new();
    let mut i: usize = 0;
    let mut found: bool = false;
    while i < entries.len()
        invariant
            i <= s.len(),
            s == entry_values(entries@),
            touched_spec == touch(s, path@, now),
            0 <= find_path(s, path@, 0) <= s.len(),
            found == (find_path(s, path@, 0) < i as int),
            !found ==> find_path(s, path@, 0) == find_path(s, path@, i as int),
            found ==> entry_values(touched@) =~= touched_spec.take(i as int),
            !found ==> entry_values(touched@) =~= s.take(i as int),
        decreases s.len() - i,
    {
        let e = &entries[i];
        let ghost tv = touched@;
        if !found && str_eq(e.path.as_str(), path) {
            proof {
                assert(find_path(s, path@, i as int) == i);
                assert(touched_spec == s.update(
                    i as int,
                    EntryVal {
                        path: s[i as int].path,
                        last_opened: now,
                        open_count: bump_count(s[i as int].open_count),
                    },
                ));
            }
            let bumped: u32 = if e.open_count < 0xffffffff {
                e.open_count + 1
            } else {
                e.open_count
            };
            let refreshed = HistoryEntry {
                path: e.path.clone(),
                last_opened: now,
                open_count: bumped,
            };
            proof {
                assert(entry_val(refreshed) == touched_spec[i as int]);
                lemma_entry_values_push(tv, refreshed);
                assert(entry_values(tv) =~= touched_spec.take(i as int));
                assert(touched_spec.take(i + 1) =~= touched_spec.take(i as int).push(
                    touched_spec[i as int],
                ));
            }
            touched.push(refreshed);
            found = true;
            proof {
                assert(entry_values(touched@) =~= touched_spec.take(i + 1));
            }
        } else {
            proof {
                if !found {
                    assert(s[i as int].path != path@);
                    lemma_find_path_bounds(s, path@, i + 1);
                }
                lemma_entry_values_push(tv, entries@[i as int]);
                if found {
                    assert(touched_spec.take(i + 1) =~= touched_spec.take(i as int).push(
                        touched_spec[i as int],
                    ));
                    assert(touched_spec[i as int] == s[i as int]);
                } else {
                    assert(s.take(i + 1) =~= s.take(i as int).push(s[i as int]));
                }
                assert(entry_val(entries@[i as int]) == s[i as int]);
            }
            touched.push(clone_entry(e));
            proof {
                if found {
                    assert(entry_values(touched@) =~= touched_spec.take(i + 1));
                } else {
                    assert(entry_values(touched@) =~= s.take(i + 1));
                }
            }
        }
        i = i + 1;
    }
    if !found {
        proof {
            assert(find_path(s, path@, i as int) == s.len());
        }
        let fresh = HistoryEntry { path: String::from_str(path), last_opened: now, open_count: 1 };
        touched.push(fresh);
        proof {
            assert(s.take(s.len() as int) =~= s);
            assert(entry_values(touched@) =~= touched_spec);
        }
    } else {
        proof {
            assert(touched_spec.len() == s.len());
            assert(entry_values(touched@) =~= touched_spec);
        }
    }
    let sorted = sort_entries(touched);
    let ghost full = sort_desc(touched_spec);
    let mut kept: Vec<HistoryEntry> = Vec::new();
    let mut k: usize = 0;
    while k < sorted.len() && k < max_entries
        invariant
            entry_values(sorted@) == full,
            k <= full.len(),
            k <= max_entries,
            entry_values(kept@) =~= full.take(k as int),
            sorted_desc(full),
        decreases full.len() - k,
    {
        proof {
            lemma_entry_values_push(kept@, sorted@[k as int]);
            assert(full.take(k + 1) =~= full.take(k as int).push(full[k as int]));
            assert(entry_val(sorted@[k as int]) == full[k as int]);
        }
        kept.push(clone_entry(&sorted[k]));
        k = k + 1;
    }
    proof {
        if max_entries <= full.len() {
            assert(entry_values(kept@) =~= full.take(max_entries as int));
        } else {
            assert(entry_values(kept@) =~= full.take(full.len() as int));
        }
        lemma_sort_desc_sorted(touched_spec);
    }
    FileHistory { version, max_entries, entries: kept }
}

/// Removes every entry holding `path`.
pub fn remove_from_history(h: FileHistory, path: &str) -> (r: FileHistory)
    ensures
        r.version@ == h.version@,
        r.max_entries == h.max_entries,
        r.entries@ == h.entries@.filter(|e: HistoryEntry| e.path@ != path@),
{
    let FileHistory { version, max_entries, entries } = h;
    let ghost s = entries@;
    let mut kept: Vec<HistoryEntry> = Vec::new();
    let mut i: usize = 0;
    while i < entries.len()
        invariant
            i <= s.len(),
            entries@ == s,
            kept@ == s.take(i as int).filter(|e: HistoryEntry| e.path@ != path@),
        decreases s.len() - i,
    {
        proof {
            assert(s.take(i + 1).drop_last() =~= s.take(i as int));
            assert(s.take(i + 1).last() == s[i as int]);
            reveal(Seq::filter);
        }
        let e = &entries[i];
        if !str_eq(e.path.as_str(), path) {
            kept.push(clone_entry(e));
        }
        i = i + 1;
    }
    proof {
        assert(s.take(s.len() as int) =~= s);
    }
    FileHistory { version, max_entries, entries: kept }
}

/// The empty history a missing record stands for.
pub fn default_history() -> (r: FileHistory)
    ensures
        r.version@ == "1.0"@,
        r.max_entries == 20,
        r.entries@ == Seq::<HistoryEntry>::empty(),
{
    FileHistory { version: String::from_str("1.0"), max_entries: 20, entries: Vec::new() }
}

} // verus!
