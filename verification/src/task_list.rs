//! The tasks-list screen: sort order over the task table, the list cursor,
//! and the plain-value pieces each row is built from.

use vstd::prelude::*;
use crate::task::{TaskState, TaskStatus, PROGRESS_DONE};
use crate::event::{Key, KeyInput};

verus! {

/// Sort fields of the task list.
#[derive(Debug, Clone, Copy, PartialEq, Eq, Structural)]
pub enum SortField {
    Id,
    Name,
    Status,
    Progress,
    Backend,
    Duration,
    CpuUsage,
    MemoryUsage,
}

/// Lexicographic order on character sequences, by scalar value; a prefix
/// sorts before its extensions.
pub open spec fn lex_le(a: Seq<char>, b: Seq<char>) -> bool
    decreases a.len(),
{
    if a.len() == 0 {
        true
    } else if b.len() == 0 {
        false
    } else if (a[0] as u32) == (b[0] as u32) {
        lex_le(a.drop_first(), b.drop_first())
    } else {
        (a[0] as u32) < (b[0] as u32)
    }
}

/// Lexicographic order is total.
pub proof fn lemma_lex_le_total(a: Seq<char>, b: Seq<char>)
    ensures
        lex_le(a, b) || lex_le(b, a),
    decreases a.len(),
{
    if a.len() > 0 && b.len() > 0 && (a[0] as u32) == (b[0] as u32) {
        lemma_lex_le_total(a.drop_first(), b.drop_first());
    }
}

/// Lexicographic order is transitive.
pub proof fn lemma_lex_le_trans(a: Seq<char>, b: Seq<char>, c: Seq<char>)
    requires
        lex_le(a, b),
        lex_le(b, c),
    ensures
        lex_le(a, c),
    decreases a.len(),
{
    if a.len() > 0 && b.len() > 0 && c.len() > 0 && (a[0] as u32) == (b[0] as u32) && (
    b[0] as u32) == (c[0] as u32) {
        lemma_lex_le_trans(a.drop_first(), b.drop_first(), c.drop_first());
    }
}

/// Whether `a` sorts at or before `b` lexicographically, comparing character
/// by character.
pub fn str_le(a: &String, b: &String) -> (r: bool)
    ensures
        r == lex_le(a@, b@),
{
    let an = a.as_str().unicode_len();
    let bn = b.as_str().unicode_len();
    let mut i: usize = 0;
    proof {
        assert(a@.skip(0) =~= a@);
        assert(b@.skip(0) =~= b@);
    }
    loop
        invariant
            0 <= i <= an,
            i <= bn,
            an == a@.len(),
            bn == b@.len(),
            lex_le(a@, b@) == lex_le(a@.skip(i as int), b@.skip(i as int)),
        decreases an - i,
    {
        if i >= an {
            proof {
                assert(a@.skip(i as int).len() == 0);
            }
            return true;
        }
        if i >= bn {
            proof {
                assert(b@.skip(i as int).len() == 0);
                assert(a@.skip(i as int).len() > 0);
            }
            return false;
        }
        let ca = a.as_str().get_char(i);
        let cb = b.as_str().get_char(i);
        proof {
            assert(a@.skip(i as int)[0] == a@[i as int]);
            assert(b@.skip(i as int)[0] == b@[i as int]);
        }
        if (ca as u32) != (cb as u32) {
            return (ca as u32) < (cb as u32);
        }
        proof {
            assert(a@.skip(i as int).drop_first() =~= a@.skip(i + 1));
            assert(b@.skip(i as int).drop_first() =~= b@.skip(i + 1));
        }
        i += 1;
    }
}

/// Rank of a status in the sort order of the list: the alphabetical order of
/// the display labels.
pub open spec fn spec_status_rank(st: TaskStatus) -> u8 {
    match st {
        TaskStatus::Cancelled => 0,
        TaskStatus::Completed => 1,
        TaskStatus::Created => 2,
        TaskStatus::Failed => 3,
        TaskStatus::Queued => 4,
        TaskStatus::Running => 5,
    }
}

/// Rank of a status in the sort order of the list.
pub fn status_rank(st: TaskStatus) -> (r: u8)
    ensures
        r == spec_status_rank(st),
{
    match st {
        TaskStatus::Cancelled => 0,
        TaskStatus::Completed => 1,
        TaskStatus::Created => 2,
        TaskStatus::Failed => 3,
        TaskStatus::Queued => 4,
        TaskStatus::Running => 5,
    }
}

/// Progress used for sorting: zero when none was reported yet.
pub open spec fn spec_progress_or_zero(t: TaskState) -> u32 {
    match t.progress {
        Some(p) => p,
        None => 0,
    }
}

/// Whether `a` sorts at or before `b` on the given field, ascending. Duration
/// is measured against `now_ms` for tasks that have not ended.
pub open spec fn spec_task_le_asc(field: SortField, a: TaskState, b: TaskState, now_ms: i64) -> bool {
    match field {
        SortField::Id => a.id <= b.id,
        SortField::Name => lex_le(a.name@, b.name@),
        SortField::Status => spec_status_rank(a.status) <= spec_status_rank(b.status),
        SortField::Progress => spec_progress_or_zero(a) <= spec_progress_or_zero(b),
        SortField::Backend => lex_le(a.backend@, b.backend@),
        SortField::Duration => a.spec_elapsed(now_ms) <= b.spec_elapsed(now_ms),
        SortField::CpuUsage => a.cpu_usage <= b.cpu_usage,
        SortField::MemoryUsage => a.memory_usage <= b.memory_usage,
    }
}

/// The order the list shows: the field order when ascending, its mirror when
/// descending.
pub open spec fn spec_task_le(
    field: SortField,
    ascending: bool,
    a: TaskState,
    b: TaskState,
    now_ms: i64,
) -> bool {
    if ascending {
        spec_task_le_asc(field, a, b, now_ms)
    } else {
        spec_task_le_asc(field, b, a, now_ms)
    }
}

/// The sort order is total.
pub proof fn lemma_task_le_total(
    field: SortField,
    ascending: bool,
    a: TaskState,
    b: TaskState,
    now_ms: i64,
)
    ensures
        spec_task_le(field, ascending, a, b, now_ms) || spec_task_le(
            field,
            ascending,
            b,
            a,
            now_ms,
        ),
{
    match field {
        SortField::Name => {
            lemma_lex_le_total(a.name@, b.name@);
        },
        SortField::Backend => {
            lemma_lex_le_total(a.backend@, b.backend@);
        },
        _ => {},
    }
}

/// The sort order is transitive.
pub proof fn lemma_task_le_trans(
    field: SortField,
    ascending: bool,
    a: TaskState,
    b: TaskState,
    c: TaskState,
    now_ms: i64,
)
    requires
        spec_task_le(field, ascending, a, b, now_ms),
        spec_task_le(field, ascending, b, c, now_ms),
    ensures
        spec_task_le(field, ascending, a, c, now_ms),
{
    match field {
        SortField::Name => {
            if ascending {
                lemma_lex_le_trans(a.name@, b.name@, c.name@);
            } else {
                lemma_lex_le_trans(c.name@, b.name@, a.name@);
            }
        },
        SortField::Backend => {
            if ascending {
                lemma_lex_le_trans(a.backend@, b.backend@, c.backend@);
            } else {
                lemma_lex_le_trans(c.backend@, b.backend@, a.backend@);
            }
        },
        _ => {},
    }
}

/// Whether `a` sorts at or before `b` in the order the list shows.
pub fn task_le(field: SortField, ascending: bool, a: &TaskState, b: &TaskState, now_ms: i64) -> (r:
    bool)
    ensures
        r == spec_task_le(field, ascending, *a, *b, now_ms),
{
    let (x, y) = if ascending {
        (a, b)
    } else {
        (b, a)
    };
    match field {
        SortField::Id => x.id <= y.id,
        SortField::Name => str_le(&x.name, &y.name),
        SortField::Status => status_rank(x.status) <= status_rank(y.status),
        SortField::Progress => {
            let px = match x.progress {
                Some(p) => p,
                None => 0,
            };
            let py = match y.progress {
                Some(p) => p,
                None => 0,
            };
            px <= py
        },
        SortField::Backend => str_le(&x.backend, &y.backend),
        SortField::Duration => {
            let dx: i128 = match x.end_time {
                Some(end) => end as i128 - x.start_time as i128,
                None => now_ms as i128 - x.start_time as i128,
            };
            let dy: i128 = match y.end_time {
                Some(end) => end as i128 - y.start_time as i128,
                None => now_ms as i128 - y.start_time as i128,
            };
            dx <= dy
        },
        SortField::CpuUsage => x.cpu_usage <= y.cpu_usage,
        SortField::MemoryUsage => x.memory_usage <= y.memory_usage,
    }
}

/// Inserting an element anywhere adds exactly it to the multiset.
proof fn lemma_insert_multiset<T>(s: Seq<T>, j: int, x: T)
    requires
        0 <= j <= s.len(),
    ensures
        s.insert(j, x).to_multiset() == s.to_multiset().insert(x),
{
    broadcast use vstd::seq_lib::group_to_multiset_ensures;

    let t = s.insert(j, x);
    assert(t.remove(j) =~= s);
    assert(t[j] == x);
    assert(t.remove(j).to_multiset() =~= t.to_multiset().remove(x));
    assert(t.to_multiset().count(x) > 0) by {
        assert(t.contains(x));
    }
    assert(t.to_multiset().remove(x).insert(x) =~= t.to_multiset());
}

/// A tie under the sort order: each row sorts at or before the other.
pub open spec fn spec_task_tie(
    field: SortField,
    ascending: bool,
    a: TaskState,
    b: TaskState,
    now_ms: i64,
) -> bool {
    spec_task_le(field, ascending, a, b, now_ms) && spec_task_le(field, ascending, b, a, now_ms)
}

/// `perm` maps each output row to the input row it came from: a bijection on
/// the indices under which the output is pointwise the input, and which keeps
/// the input order of tied rows — the arrangement is a stable sort.
pub open spec fn is_stable_arrangement(
    orig: Seq<TaskState>,
    sorted: Seq<TaskState>,
    perm: Seq<int>,
    field: SortField,
    ascending: bool,
    now_ms: i64,
) -> bool {
    &&& perm.len() == orig.len()
    &&& sorted.len() == orig.len()
    &&& forall|j: int| 0 <= j < perm.len() ==> 0 <= #[trigger] perm[j] < orig.len()
    &&& forall|j: int, k: int| 0 <= j < k < perm.len() ==> perm[j] != perm[k]
    &&& forall|j: int| 0 <= j < perm.len() ==> sorted[j] == orig[#[trigger] perm[j]]
    &&& forall|j: int, k: int|
        0 <= j < k < perm.len() && spec_task_tie(field, ascending, sorted[j], sorted[k], now_ms)
            ==> perm[j] < perm[k]
}

/// Sorts the task table in place by the given field and direction: afterwards
/// the rows hold exactly the same tasks, in the order the list shows, and the
/// sort is stable — tied rows keep their input order.
pub fn sort_tasks(tasks: &mut Vec<TaskState>, field: SortField, ascending: bool, now_ms: i64)
    ensures
        final(tasks)@.len() == old(tasks)@.len(),
        final(tasks)@.to_multiset() == old(tasks)@.to_multiset(),
        forall|p: int, q: int|
            0 <= p < q < final(tasks)@.len() ==> spec_task_le(
                field,
                ascending,
                final(tasks)@[p],
                final(tasks)@[q],
                now_ms,
            ),
        exists|perm: Seq<int>|
            is_stable_arrangement(old(tasks)@, final(tasks)@, perm, field, ascending, now_ms),
{
    let n = tasks.len();
    let ghost mut perm: Seq<int> = Seq::new(n as nat, |j: int| j);
    let mut i: usize = 1;
    while i < n
        invariant
            1 <= i <= n || n == 0,
            n == tasks@.len(),
            tasks@.to_multiset() == old(tasks)@.to_multiset(),
            perm.len() == n,
            forall|m: int| 0 <= m < n ==> 0 <= #[trigger] perm[m] < n,
            forall|m: int, k: int| 0 <= m < k < n ==> perm[m] != perm[k],
            forall|m: int| 0 <= m < n ==> tasks@[m] == old(tasks)@[#[trigger] perm[m]],
            forall|m: int| i <= m < n ==> #[trigger] perm[m] == m,
            forall|p: int, q: int|
                0 <= p < q < i && q < n && spec_task_tie(
                    field,
                    ascending,
                    tasks@[p],
                    tasks@[q],
                    now_ms,
                ) ==> perm[p] < perm[q],
            forall|p: int, q: int|
                0 <= p < q < i && q < n ==> spec_task_le(
                    field,
                    ascending,
                    tasks@[p],
                    tasks@[q],
                    now_ms,
                ),
        decreases n - i,
    {
        let ghost before = tasks@;
        let ghost before_perm = perm;
        proof {
            // every prefix row came from an input row before i: the suffix
            // holds the identity, so by injectivity nothing else can
            assert forall|m: int| 0 <= m < i implies #[trigger] before_perm[m] < i by {
                if before_perm[m] >= i {
                    assert(before_perm[before_perm[m]] == before_perm[m]);
                }
            }
        }
        let x = tasks.remove(i);
        proof {
            broadcast use vstd::seq_lib::group_to_multiset_ensures;

            assert(before.remove(i as int).to_multiset() =~= before.to_multiset().remove(x));
            perm = perm.remove(i as int);
        }
        let mut j: usize = 0;
        while j < i && task_le(field, ascending, &tasks[j], &x, now_ms)
            invariant
                0 <= j <= i,
                i < n,
                n == tasks@.len() + 1,
                forall|k: int| 0 <= k < j ==> spec_task_le(field, ascending, tasks@[k], x, now_ms),
            decreases i - j,
        {
            j += 1;
        }
        proof {
            if j < i {
                lemma_task_le_total(field, ascending, tasks@[j as int], x, now_ms);
            }
        }
        let ghost removed = tasks@;
        tasks.insert(j, x);
        proof {
            lemma_insert_multiset(removed, j as int, x);
            perm = perm.insert(j as int, i as int);
            let cur = tasks@;
            // provenance of every row after the shift
            assert(before_perm[i as int] == i as int);
            assert(before[i as int] == old(tasks)@[before_perm[i as int]]);
            assert(x == before[i as int]);
            assert(x == old(tasks)@[i as int]);
            assert forall|m: int| 0 <= m < n implies cur[m] == old(tasks)@[
                #[trigger] perm[m]
            ] && 0 <= perm[m] < n by {
                if m < j {
                    assert(cur[m] == removed[m] && perm[m] == before_perm[m]);
                } else if m == j {
                    assert(cur[m] == x && perm[m] == i);
                } else if m <= i {
                    assert(cur[m] == removed[m - 1] && perm[m] == before_perm[m - 1]);
                } else {
                    assert(cur[m] == removed[m - 1] && perm[m] == before_perm[m]);
                }
            }
            assert forall|m: int, k: int| 0 <= m < k < n implies perm[m] != perm[k] by {
                if m == j || k == j {
                    let other = if m == j {
                        k
                    } else {
                        m
                    };
                    assert(perm[other] != i as int) by {
                        if other < j {
                            assert(perm[other] == before_perm[other]);
                        } else if other <= i {
                            assert(perm[other] == before_perm[other - 1]);
                        } else {
                            assert(perm[other] == before_perm[other]);
                        }
                    }
                }
            }
            assert forall|m: int| i + 1 <= m < n implies #[trigger] perm[m] == m by {
                assert(perm[m] == before_perm[m]);
            }
            // stability: the new row goes after every tie already placed, and
            // nothing tied with it can sit beyond the insertion point
            assert forall|p: int, q: int|
                0 <= p < q < i + 1 && spec_task_tie(
                    field,
                    ascending,
                    cur[p],
                    cur[q],
                    now_ms,
                ) implies perm[p] < perm[q] by {
                if q < j {
                    assert(cur[p] == before[p] && cur[q] == before[q]);
                    assert(perm[p] == before_perm[p] && perm[q] == before_perm[q]);
                } else if q == j {
                    assert(cur[p] == before[p] && cur[q] == x);
                    assert(perm[p] == before_perm[p] && perm[q] == i);
                    assert(before_perm[p] < i);
                } else if p == j {
                    // a tie here is impossible: the row at the insertion
                    // point sorts strictly after the new row
                    assert(cur[q] == removed[q - 1]);
                    assert(j < i);
                    assert(!spec_task_le(field, ascending, removed[j as int], x, now_ms));
                    if q - 1 > j {
                        lemma_task_le_trans(
                            field,
                            ascending,
                            removed[j as int],
                            removed[q - 1],
                            x,
                            now_ms,
                        );
                    }
                } else if p < j {
                    assert(cur[p] == removed[p] && cur[q] == removed[q - 1]);
                    assert(removed[p] == before[p] && removed[q - 1] == before[q - 1]);
                    assert(perm[p] == before_perm[p] && perm[q] == before_perm[q - 1]);
                } else {
                    assert(cur[p] == removed[p - 1] && cur[q] == removed[q - 1]);
                    assert(removed[p - 1] == before[p - 1] && removed[q - 1] == before[q - 1]);
                    assert(perm[p] == before_perm[p - 1] && perm[q] == before_perm[q - 1]);
                }
            }
            assert forall|p: int, q: int|
                0 <= p < q < i + 1 implies spec_task_le(
                field,
                ascending,
                cur[p],
                cur[q],
                now_ms,
            ) by {
                if q < j {
                    assert(cur[p] == before[p] && cur[q] == before[q]);
                } else if q == j {
                    assert(cur[q] == x);
                    assert(cur[p] == removed[p]);
                } else {
                    // q > j: cur[q] == removed[q - 1], which was at or after j
                    assert(cur[q] == removed[q - 1]);
                    if p < j {
                        assert(cur[p] == removed[p]);
                        if j < i {
                            assert(spec_task_le(field, ascending, x, removed[j as int], now_ms));
                        }
                        assert(spec_task_le(field, ascending, removed[p], removed[q - 1], now_ms));
                    } else if p == j {
                        assert(cur[p] == x);
                        assert(spec_task_le(field, ascending, x, removed[j as int], now_ms));
                        if q - 1 > j {
                            assert(spec_task_le(
                                field,
                                ascending,
                                removed[j as int],
                                removed[q - 1],
                                now_ms,
                            ));
                            lemma_task_le_trans(
                                field,
                                ascending,
                                x,
                                removed[j as int],
                                removed[q - 1],
                                now_ms,
                            );
                        }
                    } else {
                        assert(cur[p] == removed[p - 1]);
                        assert(spec_task_le(field, ascending, removed[p - 1], removed[q - 1], now_ms));
                    }
                }
            }
        }
        i += 1;
    }
    proof {
        assert(is_stable_arrangement(old(tasks)@, tasks@, perm, field, ascending, now_ms));
    }
}

/// View state of the tasks list: the sort order and the table cursor.
#[derive(Debug, Clone, Copy, PartialEq, Eq, Structural)]
pub struct TaskListView {
    pub sort_field: SortField,
    pub sort_ascending: bool,
    pub cursor: Option<usize>,
}

impl Default for TaskListView {
    /// Sorted by id, ascending, no cursor.
    fn default() -> (r: TaskListView)
        ensures
            r.sort_field == SortField::Id,
            r.sort_ascending,
            r.cursor is None,
    {
        TaskListView { sort_field: SortField::Id, sort_ascending: true, cursor: None }
    }
}

impl TaskListView {
    /// Same as the default view.
    pub fn new() -> (r: TaskListView)
        ensures
            r.sort_field == SortField::Id,
            r.sort_ascending,
            r.cursor is None,
    {
        TaskListView::default()
    }

    /// The same view sorted by the given field and direction.
    pub fn sort_by(self, field: SortField, ascending: bool) -> (r: TaskListView)
        ensures
            r.sort_field == field,
            r.sort_ascending == ascending,
            r.cursor == self.cursor,
    {
        TaskListView { sort_field: field, sort_ascending: ascending, ..self }
    }

    /// Sorting by the field already shown flips the direction; a new field
    /// starts ascending.
    pub fn toggle_sort(&mut self, field: SortField)
        ensures
            old(self).sort_field == field ==> *final(self) == (TaskListView {
                sort_ascending: !old(self).sort_ascending,
                ..*old(self)
            }),
            old(self).sort_field != field ==> *final(self) == (TaskListView {
                sort_field: field,
                sort_ascending: true,
                ..*old(self)
            }),
    {
        if self.sort_field == field {
            self.sort_ascending = !self.sort_ascending;
        } else {
            self.sort_field = field;
            self.sort_ascending = true;
        }
    }

    /// Moves the cursor one row down, saturating; the render layer clips it
    /// to the row count.
    pub fn next(&mut self)
        ensures
            *final(self) == (TaskListView {
                cursor: match old(self).cursor {
                    Some(i) => Some(if i < usize::MAX { (i + 1) as usize } else { i }),
                    None => Some(0),
                },
                ..*old(self)
            }),
    {
        self.cursor = match self.cursor {
            Some(i) => Some(if i < usize::MAX { i + 1 } else { i }),
            None => Some(0),
        };
    }

    /// Moves the cursor one row up, stopping at the first row.
    pub fn previous(&mut self)
        ensures
            *final(self) == (TaskListView {
                cursor: match old(self).cursor {
                    Some(i) => Some(if i > 0 { (i - 1) as usize } else { 0 }),
                    None => Some(0),
                },
                ..*old(self)
            }),
    {
        self.cursor = match self.cursor {
            Some(i) => Some(if i > 0 { i - 1 } else { 0 }),
            None => Some(0),
        };
    }

    /// Puts the cursor on the first row.
    pub fn first(&mut self)
        ensures
            *final(self) == (TaskListView { cursor: Some(0usize), ..*old(self) }),
    {
        self.cursor = Some(0);
    }

    /// Puts the cursor on the last of `row_count` rows, or the first row of
    /// an empty table.
    pub fn last(&mut self, row_count: usize)
        ensures
            *final(self) == (TaskListView {
                cursor: Some(if row_count > 0 {
                    (row_count - 1) as usize
                } else {
                    0usize
                }),
                ..*old(self)
            }),
    {
        self.cursor = Some(if row_count > 0 {
            row_count - 1
        } else {
            0
        });
    }

    /// Where one key takes this view, with `row_count` rows on show: arrows
    /// and home and end move the cursor, the digit keys pick a sort field,
    /// and the invert key flips the direction.
    pub open spec fn spec_step(self, key: KeyInput, row_count: usize) -> TaskListView {
        if key.key == Key::Down || key.key == Key::Char('j') {
            TaskListView {
                cursor: match self.cursor {
                    Some(i) => Some(if i < usize::MAX { (i + 1) as usize } else { i }),
                    None => Some(0),
                },
                ..self
            }
        } else if key.key == Key::Up || key.key == Key::Char('k') {
            TaskListView {
                cursor: match self.cursor {
                    Some(i) => Some(if i > 0 { (i - 1) as usize } else { 0 }),
                    None => Some(0),
                },
                ..self
            }
        } else if key.key == Key::Home || key.key == Key::Char('g') {
            TaskListView { cursor: Some(0usize), ..self }
        } else if key.key == Key::End || key.key == Key::Char('G') {
            TaskListView {
                cursor: Some(if row_count > 0 {
                    (row_count - 1) as usize
                } else {
                    0usize
                }),
                ..self
            }
        } else if key.key == Key::Char('1') {
            self.spec_toggled(SortField::Id)
        } else if key.key == Key::Char('2') {
            self.spec_toggled(SortField::Name)
        } else if key.key == Key::Char('3') {
            self.spec_toggled(SortField::Status)
        } else if key.key == Key::Char('4') {
            self.spec_toggled(SortField::Progress)
        } else if key.key == Key::Char('5') {
            self.spec_toggled(SortField::Duration)
        } else if key.key == Key::Char('6') {
            self.spec_toggled(SortField::Backend)
        } else if key.key == Key::Char('7') {
            self.spec_toggled(SortField::CpuUsage)
        } else if key.key == Key::Char('8') {
            self.spec_toggled(SortField::MemoryUsage)
        } else if key.key == Key::Char('i') {
            TaskListView { sort_ascending: !self.sort_ascending, ..self }
        } else {
            self
        }
    }

    /// The view after picking a sort field.
    pub open spec fn spec_toggled(self, field: SortField) -> TaskListView {
        if self.sort_field == field {
            TaskListView { sort_ascending: !self.sort_ascending, ..self }
        } else {
            TaskListView { sort_field: field, sort_ascending: true, ..self }
        }
    }

    /// Routes one key within the tasks list, with `row_count` rows on show.
    pub fn handle_key_event(&mut self, key: KeyInput, row_count: usize)
        ensures
            *final(self) == old(self).spec_step(key, row_count),
    {
        if key.key == Key::Down || key.key == Key::Char('j') {
            self.next();
        } else if key.key == Key::Up || key.key == Key::Char('k') {
            self.previous();
        } else if key.key == Key::Home || key.key == Key::Char('g') {
            self.first();
        } else if key.key == Key::End || key.key == Key::Char('G') {
            self.last(row_count);
        } else if key.key == Key::Char('1') {
            self.toggle_sort(SortField::Id);
        } else if key.key == Key::Char('2') {
            self.toggle_sort(SortField::Name);
        } else if key.key == Key::Char('3') {
            self.toggle_sort(SortField::Status);
        } else if key.key == Key::Char('4') {
            self.toggle_sort(SortField::Progress);
        } else if key.key == Key::Char('5') {
            self.toggle_sort(SortField::Duration);
        } else if key.key == Key::Char('6') {
            self.toggle_sort(SortField::Backend);
        } else if key.key == Key::Char('7') {
            self.toggle_sort(SortField::CpuUsage);
        } else if key.key == Key::Char('8') {
            self.toggle_sort(SortField::MemoryUsage);
        } else if key.key == Key::Char('i') {
            self.sort_ascending = !self.sort_ascending;
        }
    }
}

/// A duration broken into the pieces a row shows: seconds under a minute,
/// minutes and seconds under an hour, else hours and minutes.
#[derive(Debug, Clone, Copy, PartialEq, Eq, Structural)]
pub enum DurationText {
    Seconds(i64),
    MinutesSeconds(i64, i64),
    HoursMinutes(i64, i64),
}

/// Negative durations (a clock that jumped) display as zero.
pub open spec fn spec_duration_text(ms: i64) -> DurationText {
    let s = if ms < 0 {
        0
    } else {
        ms / 1000
    };
    if s < 60 {
        DurationText::Seconds(s as i64)
    } else if s < 3600 {
        DurationText::MinutesSeconds((s / 60) as i64, (s % 60) as i64)
    } else {
        DurationText::HoursMinutes((s / 3600) as i64, ((s % 3600) / 60) as i64)
    }
}

/// Breaks a duration in milliseconds into display pieces.
pub fn format_duration(ms: i64) -> (r: DurationText)
    ensures
        r == spec_duration_text(ms),
{
    let s: i64 = if ms < 0 {
        0
    } else {
        ms / 1000
    };
    if s < 60 {
        DurationText::Seconds(s)
    } else if s < 3600 {
        DurationText::MinutesSeconds(s / 60, s % 60)
    } else {
        DurationText::HoursMinutes(s / 3600, (s % 3600) / 60)
    }
}

/// How many cells of a `width`-cell progress bar are filled at `progress_bp`
/// basis points: the truncated share, never more than the bar itself.
pub fn progress_cells(progress_bp: u32, width: usize) -> (r: usize)
    requires
        progress_bp <= PROGRESS_DONE,
    ensures
        r == width * progress_bp / (PROGRESS_DONE as int),
        r <= width,
{
    proof {
        assert(width * progress_bp <= u128::MAX) by (nonlinear_arith)
            requires
                width <= u64::MAX,
                progress_bp <= 10000,
        ;
    }
    let wide: u128 = width as u128 * progress_bp as u128 / PROGRESS_DONE as u128;
    proof {
        assert(width * progress_bp / (PROGRESS_DONE as int) <= width) by (nonlinear_arith)
            requires
                progress_bp <= PROGRESS_DONE,
                width >= 0,
                PROGRESS_DONE == 10000,
        ;
    }
    wide as usize
}

} // verus!
