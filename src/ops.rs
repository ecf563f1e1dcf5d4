use vstd::prelude::*;
use vstd::string::StringExecFns;

use crate::task::{
    all_flagged, lemma_cascade, lemma_flagged_layout_same, lemma_agrees_each, lemma_agrees_refl,
    same_layout, same_tasks, TaskJson,
};
use crate::text::{numbered, numbered_line, rendered};

verus! {

broadcast use vstd::std_specs::vec::group_vec_axioms;

/// Ids are positions counted from one: `id` names the task at index `id - 1`.
pub open spec fn addresses(id: usize, len: int) -> bool {
    1 <= id <= len
}

/// A newly created task: the given id and text, not done, no subtasks.
pub open spec fn fresh(t: TaskJson, id: nat, text: Seq<char>) -> bool {
    &&& t.id == id
    &&& t.text@ == text
    &&& !t.completed
    &&& t.subtasks@.len() == 0
}

/// `new` is `old` with a fresh task appended, whose id is the new length.
pub open spec fn added(old: Seq<TaskJson>, new: Seq<TaskJson>, text: Seq<char>) -> bool {
    &&& new.len() == old.len() + 1
    &&& new.subrange(0, old.len() as int) == old
    &&& fresh(new.last(), new.len(), text)
}

/// `new` is `old` with only the task at index `k` changed.
pub open spec fn only_changed_at(old: Seq<TaskJson>, new: Seq<TaskJson>, k: int) -> bool {
    &&& new.len() == old.len()
    &&& forall|j: int| 0 <= j < old.len() && j != k ==> new[j] == old[j]
}

/// The task that `id` addresses had its text replaced; nothing else changed.
/// An id that addresses nothing changes nothing.
pub open spec fn edited(old: Seq<TaskJson>, new: Seq<TaskJson>, id: usize, text: Seq<char>) -> bool {
    if addresses(id, old.len() as int) {
        let k = id - 1;
        &&& only_changed_at(old, new, k)
        &&& new[k].id == old[k].id
        &&& new[k].text@ == text
        &&& new[k].completed == old[k].completed
        &&& new[k].subtasks == old[k].subtasks
    } else {
        new == old
    }
}

/// The task that `id` addresses, and every task below it, is flagged `done`;
/// nothing else changed. An id that addresses nothing changes nothing.
pub open spec fn flagged_at(old: Seq<TaskJson>, new: Seq<TaskJson>, id: usize, done: bool) -> bool {
    if addresses(id, old.len() as int) {
        let k = id - 1;
        &&& only_changed_at(old, new, k)
        &&& all_flagged(new[k], done)
        &&& same_layout(old[k], new[k])
    } else {
        new == old
    }
}

/// The task that `id` addresses is gone, and those after it move up by one.
/// An id that addresses nothing changes nothing.
pub open spec fn removed(old: Seq<TaskJson>, new: Seq<TaskJson>, id: usize) -> bool {
    if addresses(id, old.len() as int) {
        new == old.remove(id - 1)
    } else {
        new == old
    }
}

/// The views of a sequence of strings.
pub open spec fn texts(v: Seq<String>) -> Seq<Seq<char>> {
    v.map_values(|s: String| s@)
}

/// The numbered lines of `s`, each after `indent`.
pub open spec fn entries(s: Seq<TaskJson>, indent: Seq<char>) -> Seq<Seq<char>>
    decreases s.len(),
{
    if s.len() == 0 {
        seq![]
    } else {
        entries(s.drop_last(), indent).push(indent + numbered(s.len() as nat, s.last()))
    }
}

/// The full listing: each task's numbered line, followed by its subtasks' numbered
/// lines, indented by two spaces.
pub open spec fn listing(s: Seq<TaskJson>) -> Seq<Seq<char>>
    decreases s.len(),
{
    if s.len() == 0 {
        seq![]
    } else {
        listing(s.drop_last()) + seq![numbered(s.len() as nat, s.last())] + entries(
            s.last().subtasks@,
            "  "@,
        )
    }
}

/// Completing a task whose whole tree is already complete leaves every task as
/// it was; likewise for marking as not done a tree that has nothing done.
pub proof fn law_flagging_twice_changes_nothing(
    old: Seq<TaskJson>,
    new: Seq<TaskJson>,
    id: usize,
    done: bool,
)
    requires
        flagged_at(old, new, id, done),
        addresses(id, old.len() as int) ==> all_flagged(old[id - 1], done),
    ensures
        same_tasks(old, new),
{
    if addresses(id, old.len() as int) {
        let k = id - 1;
        assert forall|j: int| 0 <= j < old.len() implies #[trigger] crate::task::agrees(
            old[j],
            new[j],
            true,
        ) by {
            if j == k {
                lemma_flagged_layout_same(old[j], new[j], done);
            } else {
                lemma_agrees_refl(old[j], true);
            }
        }
    } else {
        assert forall|j: int| 0 <= j < old.len() implies #[trigger] crate::task::agrees(
            old[j],
            new[j],
            true,
        ) by {
            lemma_agrees_refl(old[j], true);
        }
    }
    lemma_agrees_each(old, new, true);
}

/// Flagging a task cascades: it and each of its subtasks, however many, end up
/// flagged `done`, and it keeps as many subtasks as it had.
pub proof fn law_flagging_cascades(old: Seq<TaskJson>, new: Seq<TaskJson>, id: usize, done: bool)
    requires
        flagged_at(old, new, id, done),
        addresses(id, old.len() as int),
    ensures
        new[id - 1].completed == done,
        new[id - 1].subtasks@.len() == old[id - 1].subtasks@.len(),
        forall|i: int|
            0 <= i < new[id - 1].subtasks@.len() ==> (#[trigger] new[id - 1].subtasks@[i]).completed
                == done,
{
    lemma_cascade(new[id - 1], done);
    assert forall|i: int| 0 <= i < new[id - 1].subtasks@.len() implies (#[trigger] new[id
        - 1].subtasks@[i]).completed == done by {
        assert(all_flagged(new[id - 1].subtasks@[i], done));
    }
}

/// Ids are positions: after the task at `id` is removed, the tasks before it keep
/// their ids and each task after it answers to the id one lower than before.
pub proof fn law_removal_renumbers(old: Seq<TaskJson>, new: Seq<TaskJson>, id: usize)
    requires
        removed(old, new, id),
        addresses(id, old.len() as int),
    ensures
        new.len() == old.len() - 1,
        forall|j: int| 1 <= j < id ==> #[trigger] new[j - 1] == old[j - 1],
        forall|j: int| id <= j < old.len() ==> #[trigger] new[j - 1] == old[j],
{
}

/// Appends a fresh task, numbered after the last one, and returns its id.
pub fn add_task(v: &mut Vec<TaskJson>, text: String) -> (id: usize)
    requires
        old(v)@.len() < usize::MAX,
    ensures
        id == old(v)@.len() + 1,
        added(old(v)@, final(v)@, text@),
{
    let id = v.len() + 1;
    v.push(TaskJson::new(id, text));
    proof {
        assert(v@.subrange(0, old(v)@.len() as int) =~= old(v)@);
    }
    id
}

/// Replaces the text of the task that `id` addresses; returns whether there was one.
pub fn edit_task(v: &mut Vec<TaskJson>, id: usize, text: String) -> (found: bool)
    ensures
        found == addresses(id, old(v)@.len() as int),
        edited(old(v)@, final(v)@, id, text@),
{
    if id >= 1 && id <= v.len() {
        v[id - 1].text = text;
        true
    } else {
        false
    }
}

/// Flags the task that `id` addresses, with all below it, as `done`; returns
/// whether there was one.
pub fn set_completed_at(v: &mut Vec<TaskJson>, id: usize, done: bool) -> (found: bool)
    ensures
        found == addresses(id, old(v)@.len() as int),
        flagged_at(old(v)@, final(v)@, id, done),
{
    if id >= 1 && id <= v.len() {
        v[id - 1].set_completed(done);
        true
    } else {
        false
    }
}

/// Removes the task that `id` addresses; returns whether there was one.
pub fn remove_task(v: &mut Vec<TaskJson>, id: usize) -> (found: bool)
    ensures
        found == addresses(id, old(v)@.len() as int),
        removed(old(v)@, final(v)@, id),
{
    if id >= 1 && id <= v.len() {
        v.remove(id - 1);
        true
    } else {
        false
    }
}

/// The one-line form of the task that `id` addresses, if there is one.
pub fn render_task(v: &Vec<TaskJson>, id: usize) -> (r: Option<String>)
    ensures
        r.is_some() == addresses(id, v@.len() as int),
        r.is_some() ==> r.unwrap()@ == rendered(v@[id - 1]),
{
    if id >= 1 && id <= v.len() {
        Some(v[id - 1].render())
    } else {
        None
    }
}

/// Appends to `out` the numbered lines of `s`, each after `indent`.
pub fn push_entries(out: &mut Vec<String>, s: &Vec<TaskJson>, indent: &str)
    ensures
        texts(final(out)@) == texts(old(out)@) + entries(s@, indent@),
{
    let n = s.len();
    let mut i: usize = 0;
    while i < n
        invariant
            0 <= i <= n,
            n == s@.len(),
            texts(out@) == texts(old(out)@) + entries(s@.subrange(0, i as int), indent@),
        decreases n - i,
    {
        let mut line = String::from_str(indent);
        let body = numbered_line(i + 1, &s[i]);
        line.append(body.as_str());
        let ghost before = out@;
        out.push(line);
        proof {
            let pre = s@.subrange(0, i as int);
            let next = s@.subrange(0, i + 1);
            assert(next.drop_last() =~= pre);
            assert(texts(out@) =~= texts(before).push(line@));
            assert(texts(out@) =~= texts(old(out)@) + entries(next, indent@));
        }
        i = i + 1;
    }
    proof {
        assert(s@.subrange(0, n as int) =~= s@);
    }
}

/// Every task's numbered line, each followed by its subtasks' lines indented by
/// two spaces.
pub fn list_lines(s: &Vec<TaskJson>) -> (r: Vec<String>)
    ensures
        texts(r@) == listing(s@),
{
    let mut out: Vec<String> = Vec::new();
    let n = s.len();
    let mut i: usize = 0;
    proof {
        assert(texts(out@) =~= listing(s@.subrange(0, 0)));
    }
    while i < n
        invariant
            0 <= i <= n,
            n == s@.len(),
            texts(out@) == listing(s@.subrange(0, i as int)),
        decreases n - i,
    {
        let line = numbered_line(i + 1, &s[i]);
        let ghost before = out@;
        out.push(line);
        proof {
            assert(texts(out@) =~= texts(before).push(line@));
        }
        push_entries(&mut out, &s[i].subtasks, "  ");
        proof {
            let pre = s@.subrange(0, i as int);
            let next = s@.subrange(0, i + 1);
            assert(next.drop_last() =~= pre);
            assert(texts(out@) =~= listing(next));
        }
        i = i + 1;
    }
    proof {
        assert(s@.subrange(0, n as int) =~= s@);
    }
    out
}

} // verus!
