use vstd::prelude::*;
use vstd::string::StringExecFns;

use crate::ops::{
    add_task, added, addresses, edit_task, edited, entries, flagged_at, list_lines, listing,
    push_entries, remove_task, removed, render_task, set_completed_at, texts,
};
use crate::task::TaskJson;
use crate::text::{decimal, push_decimal, rendered};

verus! {

broadcast use vstd::std_specs::vec::group_vec_axioms;

/// The whole collection of tasks, in order; the root of the task file.
pub struct TaskList {
    pub tasks: Vec<TaskJson>,
}

/// A command on the subtasks of one task.
pub enum SubtaskCommands {
    Add { text: String },
    Edit { id: usize, text: String },
    Complete { id: usize },
    Uncomplete { id: usize },
    Get { id: usize },
    Remove { id: usize },
    List,
    Clear,
}

/// A command on the task list.
pub enum TaskCommands {
    Add { text: String },
    Edit { id: usize, text: String },
    Complete { id: usize },
    Uncomplete { id: usize },
    Get { id: usize },
    Remove { id: usize },
    List,
    Clear,
    Subtask { id: usize, command: Option<SubtaskCommands> },
}

/// `new` is `old` where only the task that `id` addresses may differ, and only
/// in its subtasks, which went from `before` to `after` as `step` says.
/// An id that addresses nothing changes nothing.
pub open spec fn within(
    old: Seq<TaskJson>,
    new: Seq<TaskJson>,
    id: usize,
    step: spec_fn(Seq<TaskJson>, Seq<TaskJson>) -> bool,
) -> bool {
    if addresses(id, old.len() as int) {
        let k = id - 1;
        &&& new.len() == old.len()
        &&& forall|j: int| 0 <= j < old.len() && j != k ==> new[j] == old[j]
        &&& new[k].id == old[k].id
        &&& new[k].text@ == old[k].text@
        &&& new[k].completed == old[k].completed
        &&& step(old[k].subtasks@, new[k].subtasks@)
    } else {
        new == old
    }
}

/// How a command on a sequence of tasks turns `old` into `new`.
pub open spec fn stepped(old: Seq<TaskJson>, new: Seq<TaskJson>, command: SubtaskCommands) -> bool {
    match command {
        SubtaskCommands::Add { text } => added(old, new, text@),
        SubtaskCommands::Edit { id, text } => edited(old, new, id, text@),
        SubtaskCommands::Complete { id } => flagged_at(old, new, id, true),
        SubtaskCommands::Uncomplete { id } => flagged_at(old, new, id, false),
        SubtaskCommands::Remove { id } => removed(old, new, id),
        SubtaskCommands::Clear => new.len() == 0,
        SubtaskCommands::Get { .. } | SubtaskCommands::List => new == old,
    }
}

/// What a command on the task list does to the tasks.
pub open spec fn applied(old: Seq<TaskJson>, new: Seq<TaskJson>, command: Option<TaskCommands>) -> bool {
    match command {
        Some(TaskCommands::Add { text }) => added(old, new, text@),
        Some(TaskCommands::Edit { id, text }) => edited(old, new, id, text@),
        Some(TaskCommands::Complete { id }) => flagged_at(old, new, id, true),
        Some(TaskCommands::Uncomplete { id }) => flagged_at(old, new, id, false),
        Some(TaskCommands::Remove { id }) => removed(old, new, id),
        Some(TaskCommands::Clear) => new.len() == 0,
        Some(TaskCommands::Subtask { id, command: Some(sub) }) => within(
            old,
            new,
            id,
            |b: Seq<TaskJson>, a: Seq<TaskJson>| stepped(b, a, sub),
        ),
        _ => new == old,
    }
}

/// One line when `found`, none otherwise.
pub open spec fn line_if(found: bool, line: Seq<char>) -> Seq<Seq<char>> {
    if found {
        seq![line]
    } else {
        seq![]
    }
}

/// What a command on a sequence of tasks prints, one line per element; `noun` is
/// `task` or `subtask`, `indent` goes before each listed line.
pub open spec fn step_output(s: Seq<TaskJson>, command: SubtaskCommands, noun: Seq<char>) -> Seq<Seq<char>> {
    let n = s.len() as int;
    match command {
        SubtaskCommands::Add { text } => seq![
            "Added "@ + noun + " "@ + decimal((n + 1) as nat) + " with text "@ + text@,
        ],
        SubtaskCommands::Edit { id, .. } => line_if(
            addresses(id, n),
            "Edited "@ + noun + " "@ + decimal(id as nat),
        ),
        SubtaskCommands::Complete { id } => line_if(
            addresses(id, n),
            "Completed "@ + noun + " "@ + decimal(id as nat),
        ),
        SubtaskCommands::Uncomplete { id } => line_if(
            addresses(id, n),
            "Uncompleted "@ + noun + " "@ + decimal(id as nat),
        ),
        SubtaskCommands::Remove { id } => line_if(
            addresses(id, n),
            "Removed "@ + noun + " "@ + decimal(id as nat),
        ),
        SubtaskCommands::Get { id } => line_if(
            addresses(id, n),
            if addresses(id, n) {
                rendered(s[id - 1])
            } else {
                seq![]
            },
        ),
        SubtaskCommands::List => entries(s, seq![]),
        SubtaskCommands::Clear => seq!["Cleared all "@ + noun + "s"@],
    }
}

/// What a command on the task list prints, one element per line.
pub open spec fn output(s: Seq<TaskJson>, command: Option<TaskCommands>) -> Seq<Seq<char>> {
    match command {
        None => seq!["No command specified"@],
        Some(TaskCommands::Add { text }) => step_output(s, SubtaskCommands::Add { text }, "task"@),
        Some(TaskCommands::Edit { id, text }) => step_output(
            s,
            SubtaskCommands::Edit { id, text },
            "task"@,
        ),
        Some(TaskCommands::Complete { id }) => step_output(
            s,
            SubtaskCommands::Complete { id },
            "task"@,
        ),
        Some(TaskCommands::Uncomplete { id }) => step_output(
            s,
            SubtaskCommands::Uncomplete { id },
            "task"@,
        ),
        Some(TaskCommands::Get { id }) => step_output(s, SubtaskCommands::Get { id }, "task"@),
        Some(TaskCommands::Remove { id }) => step_output(s, SubtaskCommands::Remove { id }, "task"@),
        Some(TaskCommands::List) => listing(s),
        Some(TaskCommands::Clear) => step_output(s, SubtaskCommands::Clear, "task"@),
        Some(TaskCommands::Subtask { id, command }) => if !addresses(id, s.len() as int) {
            seq![]
        } else {
            match command {
                None => seq!["No subtask command specified"@],
                Some(sub) => step_output(s[id - 1].subtasks@, sub, "subtask"@),
            }
        },
    }
}

/// Whether the sequence an `Add` appends to still has room for one more id.
pub open spec fn has_room(s: Seq<TaskJson>, command: Option<TaskCommands>) -> bool {
    match command {
        Some(TaskCommands::Add { .. }) => s.len() < usize::MAX,
        Some(TaskCommands::Subtask { id, command: Some(SubtaskCommands::Add { .. }) }) => addresses(
            id,
            s.len() as int,
        ) ==> s[id - 1].subtasks@.len() < usize::MAX,
        _ => true,
    }
}

/// A vector holding the one string `line`.
fn one_line(line: String) -> (r: Vec<String>)
    ensures
        texts(r@) == seq![line@],
{
    let mut out: Vec<String> = Vec::new();
    out.push(line);
    proof {
        assert(texts(out@) =~= seq![line@]);
    }
    out
}

/// The one line `words`, `noun`, a space and `id`, when `found`; none otherwise.
fn report(found: bool, words: &str, noun: &str, id: usize) -> (r: Vec<String>)
    ensures
        texts(r@) == line_if(found, words@ + noun@ + " "@ + decimal(id as nat)),
{
    if found {
        let mut line = String::from_str(words);
        line.append(noun);
        line.append(" ");
        push_decimal(&mut line, id);
        proof {
            assert(line@ =~= words@ + noun@ + " "@ + decimal(id as nat));
        }
        one_line(line)
    } else {
        let r: Vec<String> = Vec::new();
        proof {
            assert(texts(r@) =~= seq![]);
        }
        r
    }
}

/// Runs a command on a sequence of tasks and returns what it prints; `noun`
/// names the kind of task in the messages.
pub fn step(v: &mut Vec<TaskJson>, command: SubtaskCommands, noun: &str) -> (out: Vec<String>)
    requires
        (command matches SubtaskCommands::Add { .. }) ==> old(v)@.len() < usize::MAX,
    ensures
        stepped(old(v)@, final(v)@, command),
        texts(out@) == step_output(old(v)@, command, noun@),
{
    match command {
        SubtaskCommands::Add { text } => {
            let ghost t = text@;
            let id = add_task(v, text);
            let mut line = String::from_str("Added ");
            line.append(noun);
            line.append(" ");
            push_decimal(&mut line, id);
            line.append(" with text ");
            line.append(v[id - 1].text.as_str());
            proof {
                assert(line@ =~= "Added "@ + noun@ + " "@ + decimal(id as nat) + " with text "@ + t);
            }
            one_line(line)
        },
        SubtaskCommands::Edit { id, text } => {
            let found = edit_task(v, id, text);
            report(found, "Edited ", noun, id)
        },
        SubtaskCommands::Complete { id } => {
            let found = set_completed_at(v, id, true);
            report(found, "Completed ", noun, id)
        },
        SubtaskCommands::Uncomplete { id } => {
            let found = set_completed_at(v, id, false);
            report(found, "Uncompleted ", noun, id)
        },
        SubtaskCommands::Remove { id } => {
            let found = remove_task(v, id);
            report(found, "Removed ", noun, id)
        },
        SubtaskCommands::Get { id } => {
            match render_task(v, id) {
                Some(line) => one_line(line),
                None => {
                    let r: Vec<String> = Vec::new();
                    proof {
                        assert(texts(r@) =~= seq![]);
                    }
                    r
                },
            }
        },
        SubtaskCommands::List => {
            let mut out: Vec<String> = Vec::new();
            push_entries(&mut out, v, "");
            proof {
                reveal_strlit("");
                assert(""@ =~= seq![]);
                assert(texts(out@) =~= entries(v@, seq![]));
            }
            out
        },
        SubtaskCommands::Clear => {
            v.clear();
            let mut line = String::from_str("Cleared all ");
            line.append(noun);
            line.append("s");
            one_line(line)
        },
    }
}

/// A vector holding no strings.
fn no_lines() -> (r: Vec<String>)
    ensures
        texts(r@) == Seq::<Seq<char>>::empty(),
{
    let r: Vec<String> = Vec::new();
    proof {
        assert(texts(r@) =~= seq![]);
    }
    r
}

impl TaskList {
    /// A list without tasks.
    pub fn empty() -> (r: TaskList)
        ensures
            r.tasks@.len() == 0,
    {
        TaskList { tasks: Vec::new() }
    }

    /// The list that loading yields from what was parsed: the parsed list, or an
    /// empty one where the stored text was empty or not a valid list.
    pub fn from_parsed(parsed: Option<TaskList>) -> (r: TaskList)
        ensures
            parsed matches Some(l) ==> r == l,
            parsed is None ==> r.tasks@.len() == 0,
    {
        match parsed {
            Some(l) => l,
            None => TaskList::empty(),
        }
    }

    /// Whether `run` can take `command`: an `Add` needs room for one more id.
    pub fn has_room_for(&self, command: &Option<TaskCommands>) -> (r: bool)
        ensures
            r == has_room(self.tasks@, *command),
    {
        match command {
            Some(TaskCommands::Add { .. }) => self.tasks.len() < usize::MAX,
            Some(TaskCommands::Subtask { id, command: Some(SubtaskCommands::Add { .. }) }) => {
                if *id >= 1 && *id <= self.tasks.len() {
                    self.tasks[*id - 1].subtasks.len() < usize::MAX
                } else {
                    true
                }
            },
            _ => true,
        }
    }

    /// Runs one command (or none) on the list and returns the lines it prints.
    pub fn run(&mut self, command: Option<TaskCommands>) -> (out: Vec<String>)
        requires
            has_room(old(self).tasks@, command),
        ensures
            applied(old(self).tasks@, final(self).tasks@, command),
            texts(out@) == output(old(self).tasks@, command),
    {
        match command {
            None => one_line(String::from_str("No command specified")),
            Some(TaskCommands::Add { text }) => step(
                &mut self.tasks,
                SubtaskCommands::Add { text },
                "task",
            ),
            Some(TaskCommands::Edit { id, text }) => step(
                &mut self.tasks,
                SubtaskCommands::Edit { id, text },
                "task",
            ),
            Some(TaskCommands::Complete { id }) => step(
                &mut self.tasks,
                SubtaskCommands::Complete { id },
                "task",
            ),
            Some(TaskCommands::Uncomplete { id }) => step(
                &mut self.tasks,
                SubtaskCommands::Uncomplete { id },
                "task",
            ),
            Some(TaskCommands::Get { id }) => step(&mut self.tasks, SubtaskCommands::Get { id }, "task"),
            Some(TaskCommands::Remove { id }) => step(
                &mut self.tasks,
                SubtaskCommands::Remove { id },
                "task",
            ),
            Some(TaskCommands::List) => list_lines(&self.tasks),
            Some(TaskCommands::Clear) => step(&mut self.tasks, SubtaskCommands::Clear, "task"),
            Some(TaskCommands::Subtask { id, command }) => {
                if id >= 1 && id <= self.tasks.len() {
                    match command {
                        None => one_line(String::from_str("No subtask command specified")),
                        Some(sub) => step(&mut self.tasks[id - 1].subtasks, sub, "subtask"),
                    }
                } else {
                    no_lines()
                }
            },
        }
    }
}

} // verus!
