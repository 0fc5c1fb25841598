//! The client's list of todos: how the answers of the server change it, and
//! the counts and views that the page shows of it.
use vstd::prelude::*;
use crate::filter::{shows, TodoFilter};
use crate::todo::Todo;

verus! {

/// Whether some todo of `s` has the identifier `id`.
pub open spec fn has_id(s: Seq<Todo>, id: u128) -> bool {
    exists|i: int| 0 <= i < s.len() && (#[trigger] s[i]).id == id
}

/// The index of the first todo of `s` with the identifier `id`, or -1 when
/// there is none.
pub open spec fn first_index(s: Seq<Todo>, id: u128) -> int
    decreases s.len(),
{
    if s.len() == 0 {
        -1
    } else if s[0].id == id {
        0
    } else {
        let r = first_index(s.drop_first(), id);
        if r < 0 {
            -1
        } else {
            r + 1
        }
    }
}

/// `s` with its first todo of the same identifier as `todo` replaced by
/// `todo`; `s` itself when it holds no such todo.
pub open spec fn replaced(s: Seq<Todo>, todo: Todo) -> Seq<Todo> {
    let i = first_index(s, todo.id);
    if i < 0 {
        s
    } else {
        s.update(i, todo)
    }
}

/// The todos of `s` whose identifier is not `id`, in order.
pub open spec fn without_id(s: Seq<Todo>, id: u128) -> Seq<Todo>
    decreases s.len(),
{
    if s.len() == 0 {
        s
    } else {
        let rest = without_id(s.drop_last(), id);
        if s.last().id != id {
            rest.push(s.last())
        } else {
            rest
        }
    }
}

/// The todos of `s` that `filter` shows, in order.
pub open spec fn visible(s: Seq<Todo>, filter: TodoFilter) -> Seq<Todo>
    decreases s.len(),
{
    if s.len() == 0 {
        s
    } else {
        let rest = visible(s.drop_last(), filter);
        if shows(filter, s.last().completed) {
            rest.push(s.last())
        } else {
            rest
        }
    }
}

/// How many todos of `s` are not completed.
pub open spec fn active_count(s: Seq<Todo>) -> nat
    decreases s.len(),
{
    if s.len() == 0 {
        0
    } else {
        active_count(s.drop_last()) + if s.last().completed {
            0nat
        } else {
            1nat
        }
    }
}

/// How many todos of `s` are completed.
pub open spec fn completed_count(s: Seq<Todo>) -> nat
    decreases s.len(),
{
    if s.len() == 0 {
        0
    } else {
        completed_count(s.drop_last()) + if s.last().completed {
            1nat
        } else {
            0nat
        }
    }
}

/// Whether the list is not empty and every todo in it is completed.
pub open spec fn all_done(s: Seq<Todo>) -> bool {
    s.len() > 0 && forall|i: int| 0 <= i < s.len() ==> (#[trigger] s[i]).completed
}

/// `first_index` is the position of the first todo with that identifier.
pub proof fn lemma_first_index(s: Seq<Todo>, id: u128)
    ensures
        -1 <= first_index(s, id) < s.len(),
        first_index(s, id) >= 0 ==> s[first_index(s, id)].id == id,
        forall|j: int| 0 <= j < first_index(s, id) ==> (#[trigger] s[j]).id != id,
        first_index(s, id) < 0 <==> !has_id(s, id),
    decreases s.len(),
{
    if s.len() > 0 && s[0].id != id {
        let t = s.drop_first();
        lemma_first_index(t, id);
        assert forall|j: int| 0 <= j < first_index(s, id) implies (#[trigger] s[j]).id != id by {
            if j > 0 {
                assert(s[j] == t[j - 1]);
            }
        }
        if has_id(s, id) {
            let k = choose|k: int| 0 <= k < s.len() && (#[trigger] s[k]).id == id;
            assert(t[k - 1] == s[k]);
        }
        if has_id(t, id) {
            let k = choose|k: int| 0 <= k < t.len() && (#[trigger] t[k]).id == id;
            assert(s[k + 1] == t[k]);
        }
    } else if s.len() > 0 {
        assert(s[0].id == id);
    }
}

/// Appends a todo that the server created.
pub fn push_todo(todos: &mut Vec<Todo>, todo: Todo)
    ensures
        final(todos)@ == old(todos)@.push(todo),
{
    todos.push(todo);
}

/// Puts a todo that the server updated in the place of the listed todo with
/// the same identifier; a todo that is not listed is ignored.
pub fn replace_todo(todos: &mut Vec<Todo>, todo: Todo)
    ensures
        final(todos)@ == replaced(old(todos)@, todo),
{
    proof {
        lemma_first_index(todos@, todo.id);
    }
    let n = todos.len();
    let mut i: usize = 0;
    while i < n
        invariant
            n == todos.len(),
            todos@ == old(todos)@,
            i <= n,
            forall|j: int| 0 <= j < i ==> (#[trigger] todos@[j]).id != todo.id,
            -1 <= first_index(todos@, todo.id) < todos@.len(),
            first_index(todos@, todo.id) >= 0 ==> todos@[first_index(todos@, todo.id)].id
                == todo.id,
            forall|j: int|
                0 <= j < first_index(todos@, todo.id) ==> (#[trigger] todos@[j]).id != todo.id,
            first_index(todos@, todo.id) < 0 <==> !has_id(todos@, todo.id),
        decreases n - i,
    {
        if todos[i].id == todo.id {
            proof {
                let f = first_index(todos@, todo.id);
                assert(has_id(todos@, todo.id)) by {
                    assert(todos@[i as int].id == todo.id);
                }
                assert(f == i as int) by {
                    if f < i as int {
                        assert(todos@[f].id != todo.id);
                    }
                }
            }
            todos.set(i, todo);
            return;
        }
        i = i + 1;
    }
    proof {
        assert(!has_id(todos@, todo.id));
    }
}

/// Drops every listed todo with the identifier `id`.
pub fn remove_todo(todos: &mut Vec<Todo>, id: u128)
    ensures
        final(todos)@ == without_id(old(todos)@, id),
        final(todos)@ == old(todos)@.filter(|t: Todo| t.id != id),
{
    proof {
        lemma_remove_is_filter(todos@, id);
    }
    let ghost before = todos@;
    let mut kept: Vec<Todo> = Vec::new();
    let n = todos.len();
    for i in 0..n
        invariant
            n == todos.len(),
            todos@ == before,
            kept@ == without_id(before.take(i as int), id),
    {
        assert(before.take(i + 1).drop_last() =~= before.take(i as int));
        if todos[i].id != id {
            kept.push(todos[i].clone());
        }
    }
    assert(before.take(n as int) =~= before);
    *todos = kept;
}

/// The todos that `filter` shows, in list order.
pub fn visible_todos(todos: &Vec<Todo>, filter: TodoFilter) -> (r: Vec<Todo>)
    ensures
        r@ == visible(todos@, filter),
        r@ == todos@.filter(|t: Todo| shows(filter, t.completed)),
{
    proof {
        lemma_visible_is_filter(todos@, filter);
    }
    let mut out: Vec<Todo> = Vec::new();
    let n = todos.len();
    for i in 0..n
        invariant
            n == todos.len(),
            out@ == visible(todos@.take(i as int), filter),
    {
        assert(todos@.take(i + 1).drop_last() =~= todos@.take(i as int));
        if filter.shows(todos[i].completed) {
            out.push(todos[i].clone());
        }
    }
    assert(todos@.take(n as int) =~= todos@);
    out
}

/// How many listed todos are still to do.
pub fn remaining_count(todos: &Vec<Todo>) -> (r: usize)
    ensures
        r == active_count(todos@),
{
    let mut count: usize = 0;
    let n = todos.len();
    for i in 0..n
        invariant
            n == todos.len(),
            count == active_count(todos@.take(i as int)),
            count <= i,
    {
        assert(todos@.take(i + 1).drop_last() =~= todos@.take(i as int));
        if !todos[i].completed {
            count = count + 1;
        }
    }
    assert(todos@.take(n as int) =~= todos@);
    count
}

/// How many listed todos are completed.
pub fn done_count(todos: &Vec<Todo>) -> (r: usize)
    ensures
        r == completed_count(todos@),
{
    let mut count: usize = 0;
    let n = todos.len();
    for i in 0..n
        invariant
            n == todos.len(),
            count == completed_count(todos@.take(i as int)),
            count <= i,
    {
        assert(todos@.take(i + 1).drop_last() =~= todos@.take(i as int));
        if todos[i].completed {
            count = count + 1;
        }
    }
    assert(todos@.take(n as int) =~= todos@);
    count
}

/// Whether there are todos and all of them are completed: the state of the
/// "mark all as complete" box.
pub fn all_completed(todos: &Vec<Todo>) -> (r: bool)
    ensures
        r == all_done(todos@),
{
    if todos.len() == 0 {
        return false;
    }
    let n = todos.len();
    for i in 0..n
        invariant
            n == todos.len(),
            n > 0,
            forall|j: int| 0 <= j < i ==> (#[trigger] todos@[j]).completed,
    {
        if !todos[i].completed {
            return false;
        }
    }
    true
}

/// After removing an identifier, no listed todo has it; removing an
/// identifier that is not listed changes nothing.
pub proof fn lemma_remove_clears(s: Seq<Todo>, id: u128)
    ensures
        !has_id(without_id(s, id), id),
        !has_id(s, id) ==> without_id(s, id) == s,
        without_id(s, id).len() <= s.len(),
    decreases s.len(),
{
    if s.len() > 0 {
        let p = s.drop_last();
        lemma_remove_clears(p, id);
        let rest = without_id(p, id);
        if has_id(without_id(s, id), id) {
            let k = choose|k: int|
                0 <= k < without_id(s, id).len() && (#[trigger] without_id(s, id)[k]).id == id;
            if k < rest.len() {
                assert(rest[k] == without_id(s, id)[k]);
            }
        }
        if !has_id(s, id) {
            assert(!has_id(p, id)) by {
                if has_id(p, id) {
                    let k = choose|k: int| 0 <= k < p.len() && (#[trigger] p[k]).id == id;
                    assert(s[k] == p[k]);
                }
            }
            assert(s[s.len() - 1].id != id);
            assert(p.push(s.last()) =~= s);
        }
    }
}

/// Adding a todo with a new identifier and then removing that identifier
/// gives back the list as it was.
pub proof fn lemma_remove_after_push(s: Seq<Todo>, todo: Todo)
    requires
        !has_id(s, todo.id),
    ensures
        without_id(s.push(todo), todo.id) == s,
{
    assert(s.push(todo).drop_last() =~= s);
    lemma_remove_clears(s, todo.id);
}

/// Replacing keeps the length and the identifiers of the list, puts the new
/// todo at the place of the first todo with its identifier, and leaves every
/// other todo as it was.
pub proof fn lemma_replace_shape(s: Seq<Todo>, todo: Todo)
    ensures
        replaced(s, todo).len() == s.len(),
        forall|i: int| 0 <= i < s.len() ==> (#[trigger] replaced(s, todo)[i]).id == s[i].id,
        has_id(s, todo.id) ==> replaced(s, todo)[first_index(s, todo.id)] == todo,
        forall|i: int|
            0 <= i < s.len() && i != first_index(s, todo.id) ==> (#[trigger] replaced(
                s,
                todo,
            )[i]) == s[i],
{
    lemma_first_index(s, todo.id);
}

/// Every todo is shown under exactly one of "active" and "completed", and
/// "all" shows the whole list: the counts add up.
pub proof fn lemma_filters_partition(s: Seq<Todo>)
    ensures
        visible(s, TodoFilter::All) == s,
        visible(s, TodoFilter::Active).len() == active_count(s),
        visible(s, TodoFilter::Completed).len() == completed_count(s),
        active_count(s) + completed_count(s) == s.len(),
    decreases s.len(),
{
    if s.len() > 0 {
        lemma_filters_partition(s.drop_last());
        assert(s.drop_last().push(s.last()) =~= s);
    }
}

/// The list counts as all completed exactly when it is not empty and no
/// todo is left to do.
pub proof fn lemma_all_done_iff_none_active(s: Seq<Todo>)
    ensures
        all_done(s) <==> (s.len() > 0 && active_count(s) == 0),
    decreases s.len(),
{
    if s.len() > 0 {
        let p = s.drop_last();
        lemma_all_done_iff_none_active(p);
        lemma_active_zero(p);
        lemma_active_zero(s);
    }
}

/// No todo is active exactly when every todo is completed.
proof fn lemma_active_zero(s: Seq<Todo>)
    ensures
        active_count(s) == 0 <==> forall|i: int| 0 <= i < s.len() ==> (#[trigger] s[i]).completed,
    decreases s.len(),
{
    if s.len() > 0 {
        let p = s.drop_last();
        lemma_active_zero(p);
        if active_count(s) == 0 {
            assert forall|i: int| 0 <= i < s.len() implies (#[trigger] s[i]).completed by {
                if i < p.len() {
                    assert(s[i] == p[i]);
                }
            }
        }
        if forall|i: int| 0 <= i < s.len() ==> (#[trigger] s[i]).completed {
            assert forall|i: int| 0 <= i < p.len() implies (#[trigger] p[i]).completed by {
                assert(s[i] == p[i]);
            }
            assert(s[s.len() - 1].completed);
        }
    }
}

/// Removing an identifier keeps exactly the todos with another identifier,
/// in their order: it is the list filtered by "identifier differs".
pub proof fn lemma_remove_is_filter(s: Seq<Todo>, id: u128)
    ensures
        without_id(s, id) == s.filter(|t: Todo| t.id != id),
    decreases s.len(),
{
    reveal(Seq::filter);
    if s.len() > 0 {
        lemma_remove_is_filter(s.drop_last(), id);
    }
}

/// Every todo whose identifier differs from the removed one is still listed
/// after the removal, and those before it in the list are still before it.
pub proof fn lemma_remove_keeps_others(s: Seq<Todo>, id: u128)
    ensures
        forall|i: int|
            0 <= i < s.len() && s[i].id != id ==> #[trigger] without_id(s, id).contains(s[i]),
        forall|i: int|
            0 <= i < without_id(s, id).len() ==> (#[trigger] without_id(s, id)[i]).id != id,
        without_id(s, id).len() + s.filter(|t: Todo| t.id == id).len() == s.len(),
    decreases s.len(),
{
    reveal(Seq::filter);
    if s.len() > 0 {
        let p = s.drop_last();
        lemma_remove_keeps_others(p, id);
        let rest = without_id(p, id);
        assert forall|i: int|
            0 <= i < s.len() && s[i].id != id implies #[trigger] without_id(s, id).contains(s[i]) by {
            if i < p.len() {
                assert(s[i] == p[i]);
                assert(p[i].id != id);
                assert(rest.contains(p[i]));
                let k = choose|k: int| 0 <= k < rest.len() && rest[k] == p[i];
                assert(without_id(s, id)[k] == rest[k]);
            } else {
                assert(without_id(s, id)[without_id(s, id).len() - 1] == s[i]);
            }
        }
        assert forall|i: int| 0 <= i < without_id(s, id).len() implies (#[trigger] without_id(
            s,
            id,
        )[i]).id != id by {
            if i < rest.len() {
                assert(without_id(s, id)[i] == rest[i]);
            }
        }
    }
}

/// A filtered view is the list filtered by what the filter shows: the shown
/// todos, every one of them, in list order.
pub proof fn lemma_visible_is_filter(s: Seq<Todo>, filter: TodoFilter)
    ensures
        visible(s, filter) == s.filter(|t: Todo| shows(filter, t.completed)),
    decreases s.len(),
{
    reveal(Seq::filter);
    if s.len() > 0 {
        lemma_visible_is_filter(s.drop_last(), filter);
    }
}

/// Shown todos keep their relative order: when `i < j` are both shown, the
/// view lists `s[i]` at some place before `s[j]`.
pub proof fn lemma_visible_keeps_order(s: Seq<Todo>, filter: TodoFilter, i: int, j: int)
    requires
        0 <= i < j < s.len(),
        shows(filter, s[i].completed),
        shows(filter, s[j].completed),
    ensures
        exists|a: int, b: int|
            0 <= a < b < visible(s, filter).len() && visible(s, filter)[a] == s[i] && visible(
                s,
                filter,
            )[b] == s[j],
    decreases s.len(),
{
    let p = s.drop_last();
    let v = visible(s, filter);
    let w = visible(p, filter);
    lemma_visible_contains(p, filter, i);
    if j < s.len() - 1 {
        lemma_visible_keeps_order(p, filter, i, j);
        let (a, b) = choose|a: int, b: int|
            0 <= a < b < w.len() && w[a] == p[i] && w[b] == p[j];
        assert(v[a] == w[a] && v[b] == w[b]);
    } else {
        let a = choose|a: int| 0 <= a < w.len() && w[a] == p[i];
        assert(v[a] == w[a]);
        assert(v[w.len() as int] == s[j]);
    }
}

/// Every shown todo appears in the view.
proof fn lemma_visible_contains(s: Seq<Todo>, filter: TodoFilter, i: int)
    requires
        0 <= i < s.len(),
        shows(filter, s[i].completed),
    ensures
        exists|a: int| 0 <= a < visible(s, filter).len() && visible(s, filter)[a] == s[i],
    decreases s.len(),
{
    let p = s.drop_last();
    if i < s.len() - 1 {
        lemma_visible_contains(p, filter, i);
        let a = choose|a: int| 0 <= a < visible(p, filter).len() && visible(p, filter)[a] == p[i];
        assert(visible(s, filter)[a] == visible(p, filter)[a]);
    } else {
        assert(visible(s, filter)[visible(p, filter).len() as int] == s[i]);
    }
}

/// The counts are the sizes of the list filtered by completion.
pub proof fn lemma_counts_are_filter_sizes(s: Seq<Todo>)
    ensures
        active_count(s) == s.filter(|t: Todo| !t.completed).len(),
        completed_count(s) == s.filter(|t: Todo| t.completed).len(),
    decreases s.len(),
{
    reveal(Seq::filter);
    if s.len() > 0 {
        lemma_counts_are_filter_sizes(s.drop_last());
    }
}

} // verus!
