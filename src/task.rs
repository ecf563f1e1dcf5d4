use vstd::prelude::*;

verus! {

broadcast use vstd::std_specs::vec::group_vec_axioms;

/// A task: its positional id, its text, whether it is done, and its subtasks.
pub struct TaskJson {
    pub id: usize,
    pub text: String,
    pub completed: bool,
    pub subtasks: Vec<TaskJson>,
}

/// Every node of the tree rooted at `t` has its completion flag equal to `done`.
pub open spec fn all_flagged(t: TaskJson, done: bool) -> bool
    decreases t,
{
    t.completed == done && all_flagged_each(t.subtasks@, done)
}

/// Every tree in `s` is entirely flagged `done`.
pub open spec fn all_flagged_each(s: Seq<TaskJson>, done: bool) -> bool
    decreases s,
{
    if s.len() == 0 {
        true
    } else {
        all_flagged_each(s.drop_last(), done) && all_flagged(s.last(), done)
    }
}

/// `a` and `b` have the same ids, texts and tree shape (flags may differ);
/// with `flags` set, their completion flags agree too.
pub open spec fn agrees(a: TaskJson, b: TaskJson, flags: bool) -> bool
    decreases a,
{
    &&& a.id == b.id
    &&& a.text@ == b.text@
    &&& flags ==> a.completed == b.completed
    &&& agrees_each(a.subtasks@, b.subtasks@, flags)
}

/// The two sequences have equal length and agree element by element.
pub open spec fn agrees_each(sa: Seq<TaskJson>, sb: Seq<TaskJson>, flags: bool) -> bool
    decreases sa,
{
    &&& sa.len() == sb.len()
    &&& if sa.len() == 0 {
        true
    } else {
        agrees_each(sa.drop_last(), sb.drop_last(), flags) && agrees(sa.last(), sb.last(), flags)
    }
}

/// Same ids, texts and shape; completion flags may differ.
pub open spec fn same_layout(a: TaskJson, b: TaskJson) -> bool {
    agrees(a, b, false)
}

/// The same task in every observable part: ids, texts, flags and subtasks.
pub open spec fn same_task(a: TaskJson, b: TaskJson) -> bool {
    agrees(a, b, true)
}

/// Two task sequences that are the same, task by task.
pub open spec fn same_tasks(sa: Seq<TaskJson>, sb: Seq<TaskJson>) -> bool {
    agrees_each(sa, sb, true)
}

/// The recursive form of a flagged sequence is the element-wise one.
pub proof fn lemma_all_flagged_each(s: Seq<TaskJson>, done: bool)
    ensures
        all_flagged_each(s, done) <==> forall|i: int|
            0 <= i < s.len() ==> #[trigger] all_flagged(s[i], done),
    decreases s.len(),
{
    if s.len() > 0 {
        lemma_all_flagged_each(s.drop_last(), done);
        if all_flagged_each(s, done) {
            assert forall|i: int| 0 <= i < s.len() implies #[trigger] all_flagged(s[i], done) by {
                if i < s.len() - 1 {
                    assert(s[i] == s.drop_last()[i]);
                }
            }
        }
        if forall|i: int| 0 <= i < s.len() ==> #[trigger] all_flagged(s[i], done) {
            assert forall|i: int| 0 <= i < s.drop_last().len() implies #[trigger] all_flagged(
                s.drop_last()[i],
                done,
            ) by {
                assert(s[i] == s.drop_last()[i]);
            }
            assert(all_flagged(s[s.len() - 1], done));
        }
    }
}

/// The recursive form of agreeing sequences is the element-wise one.
pub proof fn lemma_agrees_each(sa: Seq<TaskJson>, sb: Seq<TaskJson>, flags: bool)
    ensures
        agrees_each(sa, sb, flags) <==> (sa.len() == sb.len() && forall|i: int|
            0 <= i < sa.len() ==> #[trigger] agrees(sa[i], sb[i], flags)),
    decreases sa.len(),
{
    if sa.len() > 0 && sa.len() == sb.len() {
        lemma_agrees_each(sa.drop_last(), sb.drop_last(), flags);
        if agrees_each(sa, sb, flags) {
            assert forall|i: int| 0 <= i < sa.len() implies #[trigger] agrees(sa[i], sb[i], flags) by {
                if i < sa.len() - 1 {
                    assert(sa[i] == sa.drop_last()[i]);
                    assert(sb[i] == sb.drop_last()[i]);
                }
            }
        }
        if forall|i: int| 0 <= i < sa.len() ==> #[trigger] agrees(sa[i], sb[i], flags) {
            assert forall|i: int| 0 <= i < sa.drop_last().len() implies #[trigger] agrees(
                sa.drop_last()[i],
                sb.drop_last()[i],
                flags,
            ) by {
                assert(sa[i] == sa.drop_last()[i]);
                assert(sb[i] == sb.drop_last()[i]);
            }
            assert(agrees(sa[sa.len() - 1], sb[sb.len() - 1], flags));
        }
    }
}

/// Every task agrees with itself.
pub proof fn lemma_agrees_refl(t: TaskJson, flags: bool)
    ensures
        agrees(t, t, flags),
    decreases t,
{
    lemma_agrees_each_refl(t.subtasks@, flags);
}

/// Every task sequence agrees with itself.
pub proof fn lemma_agrees_each_refl(s: Seq<TaskJson>, flags: bool)
    ensures
        agrees_each(s, s, flags),
    decreases s,
{
    if s.len() > 0 {
        lemma_agrees_each_refl(s.drop_last(), flags);
        lemma_agrees_refl(s.last(), flags);
    }
}

/// Two trees of one layout whose flags are all `done` are the same task.
pub proof fn lemma_flagged_layout_same(a: TaskJson, b: TaskJson, done: bool)
    requires
        all_flagged(a, done),
        all_flagged(b, done),
        same_layout(a, b),
    ensures
        same_task(a, b),
    decreases a,
{
    lemma_all_flagged_each(a.subtasks@, done);
    lemma_all_flagged_each(b.subtasks@, done);
    lemma_agrees_each(a.subtasks@, b.subtasks@, false);
    assert forall|i: int| 0 <= i < a.subtasks@.len() implies #[trigger] agrees(
        a.subtasks@[i],
        b.subtasks@[i],
        true,
    ) by {
        assert(decreases_to!(a => a.subtasks));
        assert(decreases_to!(a.subtasks => a.subtasks[i]));
        lemma_flagged_layout_same(a.subtasks@[i], b.subtasks@[i], done);
    }
    lemma_agrees_each(a.subtasks@, b.subtasks@, true);
}

/// After a task's tree is flagged `done`, each of its direct subtasks is flagged
/// `done`, down to its own subtasks.
pub proof fn lemma_cascade(t: TaskJson, done: bool)
    requires
        all_flagged(t, done),
    ensures
        t.completed == done,
        forall|i: int| 0 <= i < t.subtasks@.len() ==> #[trigger] all_flagged(t.subtasks@[i], done),
        forall|i: int| 0 <= i < t.subtasks@.len() ==> (#[trigger] t.subtasks@[i]).completed == done,
{
    lemma_all_flagged_each(t.subtasks@, done);
    assert forall|i: int| 0 <= i < t.subtasks@.len() implies (#[trigger] t.subtasks@[i]).completed
        == done by {
        assert(all_flagged(t.subtasks@[i], done));
    }
}

impl TaskJson {
    /// A fresh, not yet completed task without subtasks.
    pub fn new(id: usize, text: String) -> (r: TaskJson)
        ensures
            r.id == id,
            r.text@ == text@,
            !r.completed,
            r.subtasks@.len() == 0,
    {
        TaskJson { id, text, completed: false, subtasks: Vec::new() }
    }

    /// Sets the completion flag throughout the tree rooted here.
    pub fn set_completed(&mut self, done: bool)
        ensures
            all_flagged(*final(self), done),
            same_layout(*old(self), *final(self)),
        decreases *old(self),
    {
        self.completed = done;
        let n = self.subtasks.len();
        let mut i: usize = 0;
        while i < n
            invariant
                0 <= i <= n,
                n == self.subtasks@.len(),
                n == old(self).subtasks@.len(),
                self.completed == done,
                self.id == old(self).id,
                self.text@ == old(self).text@,
                forall|j: int| 0 <= j < i ==> #[trigger] all_flagged(self.subtasks@[j], done),
                forall|j: int|
                    0 <= j < i ==> #[trigger] agrees(old(self).subtasks@[j], self.subtasks@[j], false),
                forall|j: int| i <= j < n ==> self.subtasks@[j] == old(self).subtasks@[j],
            decreases n - i,
        {
            proof {
                assert(decreases_to!(*old(self) => old(self).subtasks));
                assert(decreases_to!(old(self).subtasks => old(self).subtasks[i as int]));
            }
            self.subtasks[i].set_completed(done);
            i = i + 1;
        }
        proof {
            lemma_all_flagged_each(self.subtasks@, done);
            lemma_agrees_each(old(self).subtasks@, self.subtasks@, false);
        }
    }

    /// Marks the whole tree rooted here as done.
    pub fn complete(&mut self)
        ensures
            all_flagged(*final(self), true),
            same_layout(*old(self), *final(self)),
            all_flagged(*old(self), true) ==> same_task(*old(self), *final(self)),
    {
        self.set_completed(true);
        proof {
            if all_flagged(*old(self), true) {
                lemma_flagged_layout_same(*old(self), *self, true);
            }
        }
    }

    /// Marks the whole tree rooted here as not done.
    pub fn uncomplete(&mut self)
        ensures
            all_flagged(*final(self), false),
            same_layout(*old(self), *final(self)),
            all_flagged(*old(self), false) ==> same_task(*old(self), *final(self)),
    {
        self.set_completed(false);
        proof {
            if all_flagged(*old(self), false) {
                lemma_flagged_layout_same(*old(self), *self, false);
            }
        }
    }
}

} // verus!
