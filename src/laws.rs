use vstd::prelude::*;
use crate::todo::TodoView;
use crate::store::{
    is_first, contains_id, first_index, replace_first, set_completed, set_deleted, set_title,
    with_added, with_deleted_flag, active_of, trash_of, numbered, ids_unique, lemma_first_unique,
    MAX_ID,
};

verus! {

/// Where some task has id `id`, a first such task exists, and `first_index`
/// names it; where none has, `first_index` is -1.
pub proof fn lemma_first_index(s: Seq<TodoView>, id: int)
    ensures
        contains_id(s, id) <==> 0 <= first_index(s, id),
        contains_id(s, id) ==> is_first(s, id, first_index(s, id)),
        !contains_id(s, id) ==> first_index(s, id) == -1,
{
    if contains_id(s, id) {
        let i = choose|i: int| 0 <= i < s.len() && s[i].id == id;
        lemma_first_exists(s, id, i);
        let k = choose|k: int| is_first(s, id, k);
        lemma_first_unique(s, id, k);
    } else {
        assert(!exists|i: int| is_first(s, id, i));
    }
}

proof fn lemma_first_exists(s: Seq<TodoView>, id: int, i: int)
    requires
        0 <= i < s.len(),
        s[i].id == id,
    ensures
        exists|k: int| is_first(s, id, k),
    decreases i,
{
    if forall|j: int| 0 <= j < i ==> s[j].id != id {
        assert(is_first(s, id, i));
    } else {
        let j = choose|j: int| 0 <= j < i && s[j].id == id;
        lemma_first_exists(s, id, j);
    }
}

/// Replacing the first task with id `id` by a task with the same id leaves
/// it the first one with that id.
proof fn lemma_replace_keeps_first(s: Seq<TodoView>, id: int, t: TodoView)
    requires
        t.id == id,
    ensures
        first_index(replace_first(s, id, t), id) == first_index(s, id),
        contains_id(replace_first(s, id, t), id) == contains_id(s, id),
{
    lemma_first_index(s, id);
    let i = first_index(s, id);
    if 0 <= i {
        let r = s.update(i, t);
        assert(is_first(r, id, i));
        lemma_first_unique(r, id, i);
        lemma_first_index(r, id);
    }
}

/// Creating a task on a list of length `n` gives it id `n + 1` and leaves
/// every earlier task as it was, whatever ids those carry.
pub proof fn law_added_id(s: Seq<TodoView>, title: Seq<char>)
    ensures
        with_added(s, title).len() == s.len() + 1,
        with_added(s, title).last() == (TodoView {
            id: s.len() as int + 1,
            title: title,
            completed: false,
            deleted: false,
        }),
        with_added(s, title).drop_last() == s,
{
    assert(with_added(s, title).drop_last() =~= s);
}

/// The active and trash views split the list: a task is in exactly one of
/// them, chosen by its `deleted` flag alone, and their lengths add up to
/// the length of the list.
pub proof fn law_views_partition(s: Seq<TodoView>)
    ensures
        active_of(s).len() + trash_of(s).len() == s.len(),
        forall|t: TodoView| #[trigger]
            active_of(s).contains(t) <==> (s.contains(t) && !t.deleted),
        forall|t: TodoView| #[trigger] trash_of(s).contains(t) <==> (s.contains(t) && t.deleted),
{
    lemma_flag_selection(s, false);
    lemma_flag_selection(s, true);
}

proof fn lemma_flag_selection(s: Seq<TodoView>, flag: bool)
    ensures
        with_deleted_flag(s, false).len() + with_deleted_flag(s, true).len() == s.len(),
        forall|t: TodoView| #[trigger]
            with_deleted_flag(s, flag).contains(t) <==> (s.contains(t) && t.deleted == flag),
    decreases s.len(),
{
    if s.len() > 0 {
        let p = s.drop_last();
        lemma_flag_selection(p, flag);
        assert(s =~= p.push(s.last()));
        let r = with_deleted_flag(p, flag);
        assert forall|t: TodoView| #[trigger]
            with_deleted_flag(s, flag).contains(t) <==> (s.contains(t) && t.deleted == flag) by {
            let w = with_deleted_flag(s, flag);
            if s.contains(t) && t.deleted == flag {
                let k = choose|k: int| 0 <= k < s.len() && s[k] == t;
                if k < p.len() {
                    assert(p[k] == t);
                    assert(p.contains(t));
                    assert(r.contains(t));
                    let m = choose|m: int| 0 <= m < r.len() && r[m] == t;
                    if s.last().deleted == flag {
                        assert(w[m] == t);
                    } else {
                        assert(w[m] == t);
                    }
                } else {
                    assert(w[w.len() - 1] == t);
                }
            }
            if w.contains(t) {
                let m = choose|m: int| 0 <= m < w.len() && w[m] == t;
                if m < r.len() {
                    assert(r[m] == t);
                    assert(r.contains(t));
                    let k = choose|k: int| 0 <= k < p.len() && p[k] == t;
                    assert(s[k] == t);
                } else {
                    assert(s[s.len() - 1] == t);
                }
            }
        }
    }
}

/// Moving a task to the trash and bringing it back gives it `deleted` false
/// and leaves its other fields, and every other task, as they were; the task
/// is then in the active view.
pub proof fn law_remove_recover(s: Seq<TodoView>, id: int)
    ensures
        set_deleted(set_deleted(s, id, true), id, false) == set_deleted(s, id, false),
        set_deleted(set_deleted(s, id, true), id, false).len() == s.len(),
        forall|j: int|
            0 <= j < s.len() && j != first_index(s, id) ==> #[trigger] set_deleted(
                set_deleted(s, id, true),
                id,
                false,
            )[j] == s[j],
        contains_id(s, id) ==> ({
            let r = set_deleted(set_deleted(s, id, true), id, false);
            let i = first_index(s, id);
            &&& r[i] == (TodoView { deleted: false, ..s[i] })
            &&& active_of(r).contains(r[i])
        }),
{
    lemma_first_index(s, id);
    let i = first_index(s, id);
    let mid = set_deleted(s, id, true);
    let r = set_deleted(mid, id, false);
    if 0 <= i {
        lemma_replace_keeps_first(s, id, TodoView { deleted: true, ..s[i] });
        assert(r =~= set_deleted(s, id, false));
        law_views_partition(r);
        assert(r.contains(r[i]));
    } else {
        assert(r =~= s);
    }
}

/// On an id that no task has, every update by id leaves the list unchanged.
pub proof fn law_miss_is_noop(s: Seq<TodoView>, id: int, v: bool, title: Seq<char>)
    requires
        !contains_id(s, id),
    ensures
        set_completed(s, id, v) == s,
        set_deleted(s, id, v) == s,
        set_title(s, id, title) == s,
{
    lemma_first_index(s, id);
}

/// Setting the completed or deleted flag of a task twice to the same value
/// is the same as setting it once.
pub proof fn law_idempotent(s: Seq<TodoView>, id: int, v: bool)
    ensures
        set_completed(set_completed(s, id, v), id, v) == set_completed(s, id, v),
        set_deleted(set_deleted(s, id, v), id, v) == set_deleted(s, id, v),
{
    lemma_first_index(s, id);
    let i = first_index(s, id);
    if 0 <= i {
        lemma_replace_keeps_first(s, id, TodoView { completed: v, ..s[i] });
        lemma_replace_keeps_first(s, id, TodoView { deleted: v, ..s[i] });
        assert(set_completed(set_completed(s, id, v), id, v) =~= set_completed(s, id, v));
        assert(set_deleted(set_deleted(s, id, v), id, v) =~= set_deleted(s, id, v));
    }
}

/// A numbered list has distinct ids.
pub proof fn law_numbered_unique(s: Seq<TodoView>)
    requires
        numbered(s),
    ensures
        ids_unique(s),
{
}

/// Every operation keeps a list numbered: adding while there is room for
/// another id, and each update by id.
pub proof fn law_numbered_preserved(
    s: Seq<TodoView>,
    id: int,
    v: bool,
    title: Seq<char>,
)
    requires
        numbered(s),
    ensures
        s.len() < MAX_ID ==> numbered(with_added(s, title)),
        numbered(set_completed(s, id, v)),
        numbered(set_deleted(s, id, v)),
        numbered(set_title(s, id, title)),
{
    lemma_first_index(s, id);
}

} // verus!
