//! The orders listings come back in: the entries that belong to something, sorted by
//! their id numbers. Sorting is stable, as `sort_by_key` is, so entries with equal
//! numbers keep the order they were found in.

use vstd::prelude::*;

use crate::text::{chars_of, string_views};

verus! {

/// Whether entry `a` comes before entry `b`: by number (ascending, or descending when
/// `descending`), and by position where the numbers are equal.
pub open spec fn precedes(keys: Seq<u64>, descending: bool, a: int, b: int) -> bool {
    if keys[a] == keys[b] {
        a < b
    } else if descending {
        keys[a] > keys[b]
    } else {
        keys[a] < keys[b]
    }
}

/// `out` lists, by position, exactly the entries that `chosen` marks, each once, in the
/// order `precedes` gives.
pub open spec fn is_ordered_selection(
    out: Seq<usize>,
    keys: Seq<u64>,
    chosen: Seq<bool>,
    descending: bool,
) -> bool {
    &&& forall|k: int| 0 <= k < out.len() ==> (#[trigger] out[k]) < keys.len() && chosen[out[k] as int]
    &&& forall|i: int| 0 <= i < keys.len() && #[trigger] chosen[i] ==> out.contains(i as usize)
    &&& forall|k: int, l: int|
        0 <= k < l < out.len() ==> precedes(keys, descending, #[trigger] out[k] as int, #[trigger] out[l] as int)
}

/// `precedes` orders distinct positions totally.
proof fn lemma_precedes_total(keys: Seq<u64>, descending: bool, a: int, b: int)
    ensures
        a != b ==> (precedes(keys, descending, a, b) || precedes(keys, descending, b, a)),
        !(precedes(keys, descending, a, b) && precedes(keys, descending, b, a)),
{
}

/// `precedes` is transitive.
proof fn lemma_precedes_transitive(keys: Seq<u64>, descending: bool, a: int, b: int, c: int)
    ensures
        precedes(keys, descending, a, b) && precedes(keys, descending, b, c) ==> precedes(
            keys,
            descending,
            a,
            c,
        ),
{
}

fn precedes_exec(keys: &Vec<u64>, descending: bool, a: usize, b: usize) -> (r: bool)
    requires
        a < keys@.len(),
        b < keys@.len(),
    ensures
        r == precedes(keys@, descending, a as int, b as int),
{
    if keys[a] == keys[b] {
        a < b
    } else if descending {
        keys[a] > keys[b]
    } else {
        keys[a] < keys[b]
    }
}

/// The positions of the entries that `chosen` marks, ordered by their `keys` (ascending,
/// or descending when `descending`), ties kept in the order found.
pub fn ordered_selection(keys: &Vec<u64>, chosen: &Vec<bool>, descending: bool) -> (out: Vec<usize>)
    requires
        keys@.len() == chosen@.len(),
    ensures
        is_ordered_selection(out@, keys@, chosen@, descending),
{
    let mut out: Vec<usize> = Vec::new();
    let mut i: usize = 0;
    while i < keys.len()
        invariant
            i <= keys@.len() == chosen@.len(),
            forall|k: int| 0 <= k < out@.len() ==> (#[trigger] out@[k]) < i && chosen@[out@[k] as int],
            forall|j: int| 0 <= j < i && #[trigger] chosen@[j] ==> out@.contains(j as usize),
            forall|k: int, l: int|
                0 <= k < l < out@.len() ==> precedes(keys@, descending, #[trigger] out@[k] as int, #[trigger] out@[l] as int),
        decreases keys@.len() - i,
    {
        if chosen[i] {
            let mut k: usize = 0;
            while k < out.len() && !precedes_exec(keys, descending, i, out[k])
                invariant
                    k <= out@.len(),
                    i < keys@.len(),
                    forall|m: int| 0 <= m < out@.len() ==> (#[trigger] out@[m]) < i,
                    forall|m: int| 0 <= m < k ==> precedes(keys@, descending, #[trigger] out@[m] as int, i as int),
                decreases out@.len() - k,
            {
                proof {
                    lemma_precedes_total(keys@, descending, out@[k as int] as int, i as int);
                }
                k = k + 1;
            }
            let ghost before = out@;
            proof {
                if k < before.len() {
                    assert forall|m: int| k <= m < before.len() implies precedes(keys@, descending, i as int, #[trigger] before[m] as int) by {
                        if m > k {
                            lemma_precedes_transitive(keys@, descending, i as int, before[k as int] as int, before[m] as int);
                        }
                    }
                }
            }
            out.insert(k, i);
            assert(out@ =~= before.insert(k as int, i));
            assert forall|a: int, b: int|
                0 <= a < b < out@.len() implies precedes(keys@, descending, #[trigger] out@[a] as int, #[trigger] out@[b] as int) by {
                if b < k {
                } else if a < k && b == k {
                } else if a < k {
                    assert(out@[b] == before[b - 1]);
                } else if a == k {
                    assert(out@[b] == before[b - 1]);
                } else {
                    assert(out@[a] == before[a - 1]);
                    assert(out@[b] == before[b - 1]);
                }
            }
            assert forall|j: int| 0 <= j < i + 1 && #[trigger] chosen@[j] implies out@.contains(j as usize) by {
                if j == i {
                    assert(out@[k as int] == i);
                } else {
                    let w = choose|w: int| 0 <= w < before.len() && before[w] == j as usize;
                    if w < k {
                        assert(out@[w] == j as usize);
                    } else {
                        assert(out@[w + 1] == j as usize);
                    }
                }
            }
            assert forall|m: int| 0 <= m < out@.len() implies (#[trigger] out@[m]) < i + 1 && chosen@[out@[m] as int] by {
                if m < k {
                } else if m > k {
                    assert(out@[m] == before[m - 1]);
                }
            }
        }
        i = i + 1;
    }
    out
}


/// One entry of a listing: its id number, and the id number of what it belongs to (an
/// organization, a project, a board or a repo).
#[derive(Clone, Copy, Debug, PartialEq, Eq, Structural)]
pub struct OwnedEntry {
    pub number: u64,
    pub owner: u64,
}

/// The id numbers of the entries.
pub open spec fn entry_numbers(entries: Seq<OwnedEntry>) -> Seq<u64> {
    entries.map_values(|e: OwnedEntry| e.number)
}

/// Which entries belong to `owner`.
pub open spec fn owned_by(entries: Seq<OwnedEntry>, owner: u64) -> Seq<bool> {
    entries.map_values(|e: OwnedEntry| e.owner == owner)
}

fn split_entries(entries: &Vec<OwnedEntry>, owner: u64) -> (r: (Vec<u64>, Vec<bool>))
    ensures
        r.0@ == entry_numbers(entries@),
        r.1@ == owned_by(entries@, owner),
{
    let mut keys: Vec<u64> = Vec::new();
    let mut chosen: Vec<bool> = Vec::new();
    let mut i: usize = 0;
    while i < entries.len()
        invariant
            i <= entries@.len(),
            keys@ =~= entry_numbers(entries@).take(i as int),
            chosen@ =~= owned_by(entries@, owner).take(i as int),
        decreases entries@.len() - i,
    {
        keys.push(entries[i].number);
        chosen.push(entries[i].owner == owner);
        i = i + 1;
    }
    assert(entry_numbers(entries@).take(entries@.len() as int) =~= entry_numbers(entries@));
    assert(owned_by(entries@, owner).take(entries@.len() as int) =~= owned_by(entries@, owner));
    (keys, chosen)
}

/// All entries, by position, in ascending id order: how organizations, users and role
/// assignments are listed.
pub fn in_id_order(numbers: &Vec<u64>) -> (out: Vec<usize>)
    ensures
        is_ordered_selection(out@, numbers@, Seq::new(numbers@.len(), |i: int| true), false),
{
    let mut chosen: Vec<bool> = Vec::new();
    let mut i: usize = 0;
    while i < numbers.len()
        invariant
            i <= numbers@.len(),
            chosen@ =~= Seq::new(i as nat, |k: int| true),
        decreases numbers@.len() - i,
    {
        chosen.push(true);
        i = i + 1;
    }
    ordered_selection(numbers, &chosen, false)
}

/// The entries that belong to `owner`, by position, in ascending id order: how agents,
/// projects, teams and VMs of an organization, boards, pipelines, repos and works of a
/// project, and tasks of a board are listed.
pub fn owned_in_id_order(entries: &Vec<OwnedEntry>, owner: u64) -> (out: Vec<usize>)
    ensures
        is_ordered_selection(out@, entry_numbers(entries@), owned_by(entries@, owner), false),
{
    let (keys, chosen) = split_entries(entries, owner);
    ordered_selection(&keys, &chosen, false)
}

/// A listing under a parent: `None` when the parent (an organization, a project, a board)
/// does not exist, otherwise the entries that belong to it, by position, in ascending id
/// order.
pub fn list_under(parent_exists: bool, entries: &Vec<OwnedEntry>, owner: u64) -> (r: Option<Vec<usize>>)
    ensures
        match r {
            None => !parent_exists,
            Some(out) => parent_exists && is_ordered_selection(out@, entry_numbers(entries@), owned_by(entries@, owner), false),
        },
{
    if !parent_exists {
        None
    } else {
        Some(owned_in_id_order(entries, owner))
    }
}

/// The entries that belong to `owner`, by position, newest (highest id) first: how the
/// pull requests of a repo are listed.
pub fn owned_newest_first(entries: &Vec<OwnedEntry>, owner: u64) -> (out: Vec<usize>)
    ensures
        is_ordered_selection(out@, entry_numbers(entries@), owned_by(entries@, owner), true),
{
    let (keys, chosen) = split_entries(entries, owner);
    ordered_selection(&keys, &chosen, true)
}

/// A newest-first listing under a parent: `None` when the parent (a repo) does not exist,
/// otherwise the entries that belong to it, by position, newest (highest id) first: how
/// the pull requests of a repo are listed.
pub fn list_newest_under(parent_exists: bool, entries: &Vec<OwnedEntry>, owner: u64) -> (r: Option<Vec<usize>>)
    ensures
        match r {
            None => !parent_exists,
            Some(out) => parent_exists && is_ordered_selection(out@, entry_numbers(entries@), owned_by(entries@, owner), true),
        },
{
    if !parent_exists {
        None
    } else {
        Some(owned_newest_first(entries, owner))
    }
}

/// Where a task stands.
#[derive(Clone, Copy, Debug, PartialEq, Eq, Structural)]
pub enum TaskState {
    Created,
    Assigned,
    InProgress,
    Blocked,
    Escalated,
    Completed,
    Failed,
}

/// What the held-task question reads of a task: its id number, the team it is assigned
/// to, and its state.
#[derive(Clone, Copy, Debug, PartialEq, Eq, Structural)]
pub struct TaskEntry {
    pub number: u64,
    pub assignee: Option<u64>,
    pub state: TaskState,
}

/// Whether `team` holds `task`: it is assigned to the team and assigned, in progress or
/// blocked. Escalated tasks released the team; completed and failed ones are settled.
pub open spec fn is_held_by(task: TaskEntry, team: u64) -> bool {
    &&& task.assignee == Some(team)
    &&& (task.state == TaskState::Assigned || task.state == TaskState::InProgress || task.state
        == TaskState::Blocked)
}

/// The position of the task `team` is holding — the oldest (lowest id, first found on a
/// tie) if, through a fault elsewhere, it holds several — or `None` when it holds none.
pub fn held_task(tasks: &Vec<TaskEntry>, team: u64) -> (r: Option<usize>)
    ensures
        match r {
            None => forall|j: int| 0 <= j < tasks@.len() ==> !is_held_by(#[trigger] tasks@[j], team),
            Some(i) => {
                &&& i < tasks@.len()
                &&& is_held_by(tasks@[i as int], team)
                &&& forall|j: int|
                    0 <= j < tasks@.len() && is_held_by(#[trigger] tasks@[j], team) ==> tasks@[i as int].number
                        < tasks@[j].number || (tasks@[i as int].number == tasks@[j].number && i <= j)
            },
        },
{
    let mut best: Option<usize> = None;
    let mut i: usize = 0;
    while i < tasks.len()
        invariant
            i <= tasks@.len(),
            match best {
                None => forall|j: int| 0 <= j < i ==> !is_held_by(#[trigger] tasks@[j], team),
                Some(b) => {
                    &&& b < i
                    &&& is_held_by(tasks@[b as int], team)
                    &&& forall|j: int|
                        0 <= j < i && is_held_by(#[trigger] tasks@[j], team) ==> tasks@[b as int].number
                            < tasks@[j].number || (tasks@[b as int].number == tasks@[j].number && b
                            <= j)
                },
            },
        decreases tasks@.len() - i,
    {
        let t = tasks[i];
        let held = t.assignee == Some(team) && (t.state == TaskState::Assigned || t.state
            == TaskState::InProgress || t.state == TaskState::Blocked);
        if held {
            match best {
                None => {
                    best = Some(i);
                },
                Some(b) => {
                    if t.number < tasks[b].number {
                        best = Some(i);
                    }
                },
            }
        }
        i = i + 1;
    }
    best
}


/// Law of listings: the listings of two different owners share no entry, and every entry
/// is in the listing of its own owner — listing each owner partitions the entries.
pub proof fn lemma_listings_partition(
    entries: Seq<OwnedEntry>,
    a: u64,
    b: u64,
    out_a: Seq<usize>,
    out_b: Seq<usize>,
)
    requires
        a != b,
        is_ordered_selection(out_a, entry_numbers(entries), owned_by(entries, a), false),
        is_ordered_selection(out_b, entry_numbers(entries), owned_by(entries, b), false),
    ensures
        forall|k: int, l: int| 0 <= k < out_a.len() && 0 <= l < out_b.len() ==> #[trigger] out_a[k] != #[trigger] out_b[l],
        forall|i: int| 0 <= i < entries.len() && entries[i].owner == a ==> out_a.contains(i as usize),
{
    assert forall|k: int, l: int| 0 <= k < out_a.len() && 0 <= l < out_b.len() implies #[trigger] out_a[k] != #[trigger] out_b[l] by {
        assert(owned_by(entries, a)[out_a[k] as int]);
        assert(owned_by(entries, b)[out_b[l] as int]);
    }
    assert forall|i: int| 0 <= i < entries.len() && entries[i].owner == a implies out_a.contains(i as usize) by {
        assert(owned_by(entries, a)[i]);
    }
}


/// Whether `a` sorts before `b` as `str` orders them: by code point, character by
/// character, a proper prefix first.
pub open spec fn lex_lt(a: Seq<char>, b: Seq<char>) -> bool
    decreases a.len(),
{
    if a.len() == 0 {
        b.len() > 0
    } else if b.len() == 0 {
        false
    } else if a[0] != b[0] {
        a[0] < b[0]
    } else {
        lex_lt(a.drop_first(), b.drop_first())
    }
}

proof fn lemma_lex_irreflexive(a: Seq<char>)
    ensures
        !lex_lt(a, a),
    decreases a.len(),
{
    if a.len() > 0 {
        lemma_lex_irreflexive(a.drop_first());
    }
}

proof fn lemma_lex_irreflexive_total(a: Seq<char>, b: Seq<char>)
    ensures
        !(lex_lt(a, b) && lex_lt(b, a)),
        a != b ==> lex_lt(a, b) || lex_lt(b, a),
        !lex_lt(a, a),
    decreases a.len(),
{
    lemma_lex_irreflexive(a);
    if a.len() > 0 && b.len() > 0 {
        lemma_lex_irreflexive_total(a.drop_first(), b.drop_first());
        if a[0] == b[0] && a != b {
            assert(a.drop_first() != b.drop_first()) by {
                if a.drop_first() == b.drop_first() {
                    assert(a =~= seq![a[0]] + a.drop_first());
                    assert(b =~= seq![b[0]] + b.drop_first());
                }
            }
        }
    } else if a.len() == 0 && b.len() == 0 {
        assert(a =~= b);
    }
}

proof fn lemma_lex_transitive(a: Seq<char>, b: Seq<char>, c: Seq<char>)
    requires
        lex_lt(a, b),
        lex_lt(b, c),
    ensures
        lex_lt(a, c),
    decreases a.len(),
{
    if a.len() > 0 && b.len() > 0 && c.len() > 0 && a[0] == b[0] && b[0] == c[0] {
        lemma_lex_transitive(a.drop_first(), b.drop_first(), c.drop_first());
    }
}

/// Whether entry `a` comes before entry `b` by title, and by position where the titles
/// are equal.
pub open spec fn title_precedes(titles: Seq<Seq<char>>, a: int, b: int) -> bool {
    lex_lt(titles[a], titles[b]) || (titles[a] == titles[b] && a < b)
}

/// `out` lists every position of `titles` once, ordered by title, ties kept in the order
/// found.
pub open spec fn is_title_order(out: Seq<usize>, titles: Seq<Seq<char>>) -> bool {
    &&& forall|k: int| 0 <= k < out.len() ==> (#[trigger] out[k]) < titles.len()
    &&& forall|i: usize| i < titles.len() ==> #[trigger] out.contains(i)
    &&& forall|k: int, l: int| 0 <= k < l < out.len() ==> title_precedes(titles, #[trigger] out[k] as int, #[trigger] out[l] as int)
}

fn chars_lt(a: &Vec<char>, b: &Vec<char>) -> (r: bool)
    ensures
        r == lex_lt(a@, b@),
{
    let mut i: usize = 0;
    assert(a@.skip(0) =~= a@);
    assert(b@.skip(0) =~= b@);
    while i < a.len() && i < b.len() && a[i] == b[i]
        invariant
            i <= a@.len(),
            i <= b@.len(),
            lex_lt(a@, b@) == lex_lt(a@.skip(i as int), b@.skip(i as int)),
        decreases a@.len() - i,
    {
        assert(a@.skip(i as int).drop_first() =~= a@.skip(i + 1));
        assert(b@.skip(i as int).drop_first() =~= b@.skip(i + 1));
        i = i + 1;
    }
    if i == a.len() {
        i < b.len()
    } else if i == b.len() {
        false
    } else {
        a[i] < b[i]
    }
}

fn title_precedes_exec(titles: &Vec<Vec<char>>, a: usize, b: usize) -> (r: bool)
    requires
        a < titles@.len(),
        b < titles@.len(),
    ensures
        r == title_precedes(crate::text::char_vec_views(titles@), a as int, b as int),
{
    if chars_lt(&titles[a], &titles[b]) {
        true
    } else if chars_lt(&titles[b], &titles[a]) {
        proof {
            lemma_lex_irreflexive_total(titles@[a as int]@, titles@[b as int]@);
        }
        false
    } else {
        proof {
            lemma_lex_irreflexive_total(titles@[a as int]@, titles@[b as int]@);
        }
        a < b
    }
}

/// All entries, by position, ordered by title (ties kept in the order found): how meetings
/// are listed.
pub fn in_title_order(titles: &Vec<String>) -> (out: Vec<usize>)
    ensures
        is_title_order(out@, string_views(titles@)),
{
    let mut keys: Vec<Vec<char>> = Vec::new();
    let mut j: usize = 0;
    while j < titles.len()
        invariant
            j <= titles@.len(),
            crate::text::char_vec_views(keys@) =~= string_views(titles@).take(j as int),
        decreases titles@.len() - j,
    {
        let ghost before = crate::text::char_vec_views(keys@);
        keys.push(chars_of(titles[j].as_str()));
        assert(crate::text::char_vec_views(keys@) =~= before.push(titles@[j as int]@));
        assert(string_views(titles@).take(j + 1) =~= string_views(titles@).take(j as int).push(titles@[j as int]@));
        j = j + 1;
    }
    assert(string_views(titles@).take(titles@.len() as int) =~= string_views(titles@));
    let ghost ts = string_views(titles@);
    let mut out: Vec<usize> = Vec::new();
    let mut i: usize = 0;
    while i < keys.len()
        invariant
            i <= keys@.len() == ts.len(),
            crate::text::char_vec_views(keys@) == ts,
            forall|k: int| 0 <= k < out@.len() ==> (#[trigger] out@[k]) < i,
            forall|m: usize| m < i ==> #[trigger] out@.contains(m),
            forall|k: int, l: int| 0 <= k < l < out@.len() ==> title_precedes(ts, #[trigger] out@[k] as int, #[trigger] out@[l] as int),
        decreases keys@.len() - i,
    {
        let mut k: usize = 0;
        while k < out.len() && !title_precedes_exec(&keys, i, out[k])
            invariant
                k <= out@.len(),
                i < keys@.len() == ts.len(),
                crate::text::char_vec_views(keys@) == ts,
                forall|m: int| 0 <= m < out@.len() ==> (#[trigger] out@[m]) < i,
                forall|m: int| 0 <= m < k ==> title_precedes(ts, #[trigger] out@[m] as int, i as int),
                forall|m: usize| m < i ==> #[trigger] out@.contains(m),
                forall|a: int, b: int| 0 <= a < b < out@.len() ==> title_precedes(ts, #[trigger] out@[a] as int, #[trigger] out@[b] as int),
            decreases out@.len() - k,
        {
            proof {
                lemma_lex_irreflexive_total(ts[out@[k as int] as int], ts[i as int]);
            }
            k = k + 1;
        }
        let ghost before = out@;
        proof {
            if k < before.len() {
                assert forall|m: int| k <= m < before.len() implies title_precedes(ts, i as int, #[trigger] before[m] as int) by {
                    if m > k {
                        let x = ts[i as int];
                        let y = ts[before[k as int] as int];
                        let z = ts[before[m] as int];
                        if lex_lt(x, y) && lex_lt(y, z) {
                            lemma_lex_transitive(x, y, z);
                        }
                    }
                }
            }
        }
        out.insert(k, i);
        assert(out@ =~= before.insert(k as int, i));
        assert forall|a: int, b: int| 0 <= a < b < out@.len() implies title_precedes(ts, #[trigger] out@[a] as int, #[trigger] out@[b] as int) by {
            if b < k {
            } else if a < k && b == k {
            } else if a < k {
                assert(out@[b] == before[b - 1]);
            } else if a == k {
                assert(out@[b] == before[b - 1]);
            } else {
                assert(out@[a] == before[a - 1]);
                assert(out@[b] == before[b - 1]);
            }
        }
        assert forall|m: usize| m < i + 1 implies #[trigger] out@.contains(m) by {
            if m == i {
                assert(out@[k as int] == i);
            } else {
                assert(before.contains(m));
                let w = choose|w: int| 0 <= w < before.len() && before[w] == m;
                if w < k {
                    assert(out@[w] == m);
                } else {
                    assert(out@[w + 1] == m);
                }
            }
        }
        assert forall|m: int| 0 <= m < out@.len() implies (#[trigger] out@[m]) < i + 1 by {
            if m > k {
                assert(out@[m] == before[m - 1]);
            }
        }
        i = i + 1;
    }
    out
}

} // verus!
