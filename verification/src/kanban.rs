//! Kanban tasks and the fixed-column board built from them.

use crate::text::{clone_optional, clone_strings, same_text};
use crate::time::Timestamp;
use vstd::multiset::Multiset;
use vstd::prelude::*;

verus! {

/// The workflow state of a task. Each value names one board column.
#[derive(Clone, Copy, Debug, PartialEq, Eq, Structural)]
pub enum TaskStatus {
    Todo,
    InProgress,
    Review,
    Done,
    Blocked,
}

/// How urgent a task is.
#[derive(Clone, Copy, Debug, PartialEq, Eq, Structural)]
pub enum TaskPriority {
    Low,
    Medium,
    High,
    Urgent,
}

/// A task on a project's board.
#[derive(Debug, PartialEq, Eq)]
pub struct KanbanTask {
    pub id: u128,
    pub project_id: u128,
    pub title: String,
    pub description: Option<String>,
    pub status: TaskStatus,
    pub priority: TaskPriority,
    pub assignee: Option<String>,
    pub tags: Vec<String>,
    pub created_at: Timestamp,
    pub updated_at: Timestamp,
    pub due_date: Option<Timestamp>,
    /// Estimated effort in hours, as the bit pattern of a 32-bit IEEE 754 number.
    pub estimated_hours: Option<u32>,
    /// A JSON object in text form, carried as given.
    pub metadata: String,
}

/// The mathematical content of a `KanbanTask`.
pub struct KanbanTaskView {
    pub id: u128,
    pub project_id: u128,
    pub title: Seq<char>,
    pub description: Option<Seq<char>>,
    pub status: TaskStatus,
    pub priority: TaskPriority,
    pub assignee: Option<Seq<char>>,
    pub tags: Seq<Seq<char>>,
    pub created_at: Timestamp,
    pub updated_at: Timestamp,
    pub due_date: Option<Timestamp>,
    pub estimated_hours: Option<u32>,
    pub metadata: Seq<char>,
}

impl View for KanbanTask {
    type V = KanbanTaskView;

    open spec fn view(&self) -> KanbanTaskView {
        KanbanTaskView {
            id: self.id,
            project_id: self.project_id,
            title: self.title@,
            description: self.description.deep_view(),
            status: self.status,
            priority: self.priority,
            assignee: self.assignee.deep_view(),
            tags: self.tags.deep_view(),
            created_at: self.created_at,
            updated_at: self.updated_at,
            due_date: self.due_date,
            estimated_hours: self.estimated_hours,
            metadata: self.metadata@,
        }
    }
}

impl DeepView for KanbanTask {
    type V = KanbanTaskView;

    open spec fn deep_view(&self) -> KanbanTaskView {
        self.view()
    }
}

impl Clone for KanbanTask {
    fn clone(&self) -> (copy: KanbanTask)
        ensures
            copy@ == self@,
    {
        KanbanTask {
            id: self.id,
            project_id: self.project_id,
            title: self.title.clone(),
            description: clone_optional(&self.description),
            status: self.status,
            priority: self.priority,
            assignee: clone_optional(&self.assignee),
            tags: clone_strings(&self.tags),
            created_at: self.created_at,
            updated_at: self.updated_at,
            due_date: self.due_date,
            estimated_hours: self.estimated_hours,
            metadata: self.metadata.clone(),
        }
    }
}

/// One column of a board: the tasks that share a status.
#[derive(Debug, PartialEq, Eq)]
pub struct KanbanColumn {
    pub id: String,
    pub title: String,
    pub status: TaskStatus,
    pub tasks: Vec<KanbanTask>,
}

/// The mathematical content of a `KanbanColumn`.
pub struct KanbanColumnView {
    pub id: Seq<char>,
    pub title: Seq<char>,
    pub status: TaskStatus,
    pub tasks: Seq<KanbanTaskView>,
}

impl View for KanbanColumn {
    type V = KanbanColumnView;

    open spec fn view(&self) -> KanbanColumnView {
        KanbanColumnView {
            id: self.id@,
            title: self.title@,
            status: self.status,
            tasks: self.tasks.deep_view(),
        }
    }
}

impl DeepView for KanbanColumn {
    type V = KanbanColumnView;

    open spec fn deep_view(&self) -> KanbanColumnView {
        self.view()
    }
}

/// A project's board: one column per status, in workflow order.
#[derive(Debug, PartialEq, Eq)]
pub struct KanbanBoard {
    pub project_id: u128,
    pub columns: Vec<KanbanColumn>,
}

/// The mathematical content of a `KanbanBoard`.
pub struct KanbanBoardView {
    pub project_id: u128,
    pub columns: Seq<KanbanColumnView>,
}

impl View for KanbanBoard {
    type V = KanbanBoardView;

    open spec fn view(&self) -> KanbanBoardView {
        KanbanBoardView { project_id: self.project_id, columns: self.columns.deep_view() }
    }
}

impl TaskStatus {
    /// The tag under which the status is stored and exchanged.
    pub open spec fn tag(self) -> Seq<char> {
        match self {
            TaskStatus::Todo => "todo"@,
            TaskStatus::InProgress => "in_progress"@,
            TaskStatus::Review => "review"@,
            TaskStatus::Done => "done"@,
            TaskStatus::Blocked => "blocked"@,
        }
    }

    /// The heading of the status's board column.
    pub open spec fn title(self) -> Seq<char> {
        match self {
            TaskStatus::Todo => "To Do"@,
            TaskStatus::InProgress => "In Progress"@,
            TaskStatus::Review => "Review"@,
            TaskStatus::Done => "Done"@,
            TaskStatus::Blocked => "Blocked"@,
        }
    }

    /// Position of the status's column on a board, left to right.
    pub open spec fn column_index(self) -> int {
        match self {
            TaskStatus::Todo => 0,
            TaskStatus::InProgress => 1,
            TaskStatus::Review => 2,
            TaskStatus::Done => 3,
            TaskStatus::Blocked => 4,
        }
    }

    /// The status that a tag names, if it names one.
    pub open spec fn named(tag: Seq<char>) -> Option<TaskStatus> {
        if tag == "todo"@ {
            Some(TaskStatus::Todo)
        } else if tag == "in_progress"@ {
            Some(TaskStatus::InProgress)
        } else if tag == "review"@ {
            Some(TaskStatus::Review)
        } else if tag == "done"@ {
            Some(TaskStatus::Done)
        } else if tag == "blocked"@ {
            Some(TaskStatus::Blocked)
        } else {
            None
        }
    }

    /// The status that a tag stands for. A tag that names no status stands
    /// for `Todo`.
    pub open spec fn from_tag(tag: Seq<char>) -> TaskStatus {
        match TaskStatus::named(tag) {
            Some(status) => status,
            None => TaskStatus::Todo,
        }
    }

    /// Reads a status from its tag; `None` for a text that names no status.
    pub fn parse(s: &str) -> (r: Option<TaskStatus>)
        ensures
            r == TaskStatus::named(s@),
    {
        if same_text(s, "todo") {
            Some(TaskStatus::Todo)
        } else if same_text(s, "in_progress") {
            Some(TaskStatus::InProgress)
        } else if same_text(s, "review") {
            Some(TaskStatus::Review)
        } else if same_text(s, "done") {
            Some(TaskStatus::Done)
        } else if same_text(s, "blocked") {
            Some(TaskStatus::Blocked)
        } else {
            None
        }
    }

    /// Reads a status from its tag, taking `Todo` for a text that names none.
    pub fn from_string(s: &str) -> (r: TaskStatus)
        ensures
            r == TaskStatus::from_tag(s@),
    {
        match TaskStatus::parse(s) {
            Some(status) => status,
            None => TaskStatus::Todo,
        }
    }

    /// The tag of the status.
    pub fn to_string(&self) -> (s: String)
        ensures
            s@ == self.tag(),
    {
        match self {
            TaskStatus::Todo => "todo".to_owned(),
            TaskStatus::InProgress => "in_progress".to_owned(),
            TaskStatus::Review => "review".to_owned(),
            TaskStatus::Done => "done".to_owned(),
            TaskStatus::Blocked => "blocked".to_owned(),
        }
    }

    /// Executable form of `column_index`.
    pub fn column(&self) -> (i: usize)
        ensures
            i == self.column_index(),
    {
        match self {
            TaskStatus::Todo => 0,
            TaskStatus::InProgress => 1,
            TaskStatus::Review => 2,
            TaskStatus::Done => 3,
            TaskStatus::Blocked => 4,
        }
    }
}

impl Default for TaskStatus {
    fn default() -> (r: TaskStatus)
        ensures
            r == TaskStatus::Todo,
    {
        TaskStatus::Todo
    }
}

impl TaskPriority {
    /// The tag under which the priority is stored and exchanged.
    pub open spec fn tag(self) -> Seq<char> {
        match self {
            TaskPriority::Low => "low"@,
            TaskPriority::Medium => "medium"@,
            TaskPriority::High => "high"@,
            TaskPriority::Urgent => "urgent"@,
        }
    }

    /// The priority that a tag names, if it names one.
    pub open spec fn named(tag: Seq<char>) -> Option<TaskPriority> {
        if tag == "low"@ {
            Some(TaskPriority::Low)
        } else if tag == "medium"@ {
            Some(TaskPriority::Medium)
        } else if tag == "high"@ {
            Some(TaskPriority::High)
        } else if tag == "urgent"@ {
            Some(TaskPriority::Urgent)
        } else {
            None
        }
    }

    /// The priority that a tag stands for. A tag that names no priority
    /// stands for `Medium`.
    pub open spec fn from_tag(tag: Seq<char>) -> TaskPriority {
        match TaskPriority::named(tag) {
            Some(priority) => priority,
            None => TaskPriority::Medium,
        }
    }

    /// Reads a priority from its tag; `None` for a text that names none.
    pub fn parse(s: &str) -> (r: Option<TaskPriority>)
        ensures
            r == TaskPriority::named(s@),
    {
        if same_text(s, "low") {
            Some(TaskPriority::Low)
        } else if same_text(s, "medium") {
            Some(TaskPriority::Medium)
        } else if same_text(s, "high") {
            Some(TaskPriority::High)
        } else if same_text(s, "urgent") {
            Some(TaskPriority::Urgent)
        } else {
            None
        }
    }

    /// Reads a priority from its tag, taking `Medium` for a text that names
    /// none.
    pub fn from_string(s: &str) -> (r: TaskPriority)
        ensures
            r == TaskPriority::from_tag(s@),
    {
        match TaskPriority::parse(s) {
            Some(priority) => priority,
            None => TaskPriority::Medium,
        }
    }

    /// The tag of the priority.
    pub fn to_string(&self) -> (s: String)
        ensures
            s@ == self.tag(),
    {
        match self {
            TaskPriority::Low => "low".to_owned(),
            TaskPriority::Medium => "medium".to_owned(),
            TaskPriority::High => "high".to_owned(),
            TaskPriority::Urgent => "urgent".to_owned(),
        }
    }
}

impl Default for TaskPriority {
    fn default() -> (r: TaskPriority)
        ensures
            r == TaskPriority::Medium,
    {
        TaskPriority::Medium
    }
}

/// Every status is the one that its own tag names.
pub proof fn lemma_status_tag_names_status(status: TaskStatus)
    ensures
        TaskStatus::named(status.tag()) == Some(status),
        TaskStatus::from_tag(status.tag()) == status,
{
    reveal_strlit("todo");
    reveal_strlit("in_progress");
    reveal_strlit("review");
    reveal_strlit("done");
    reveal_strlit("blocked");
    assert("todo"@.len() == 4 && "done"@.len() == 4);
    assert("in_progress"@.len() == 11 && "review"@.len() == 6 && "blocked"@.len() == 7);
    assert("todo"@[0] == 't' && "done"@[0] == 'd');
}

/// Every priority is the one that its own tag names.
pub proof fn lemma_priority_tag_names_priority(priority: TaskPriority)
    ensures
        TaskPriority::named(priority.tag()) == Some(priority),
        TaskPriority::from_tag(priority.tag()) == priority,
{
    reveal_strlit("low");
    reveal_strlit("medium");
    reveal_strlit("high");
    reveal_strlit("urgent");
    assert("medium"@.len() == 6 && "urgent"@.len() == 6);
    assert("low"@.len() == 3 && "high"@.len() == 4);
    assert("medium"@[0] == 'm' && "urgent"@[0] == 'u');
}

/// The predicate "has status `status`" on task contents.
pub open spec fn has_status(status: TaskStatus) -> spec_fn(KanbanTaskView) -> bool {
    |t: KanbanTaskView| t.status == status
}

/// The column that `status` gets on a board over `tasks`: the tasks with that
/// status, in the order in which `tasks` lists them.
pub open spec fn column_of(status: TaskStatus, tasks: Seq<KanbanTaskView>) -> KanbanColumnView {
    KanbanColumnView {
        id: status.tag(),
        title: status.title(),
        status,
        tasks: tasks.filter(has_status(status)),
    }
}

/// The board of project `project_id` over `tasks`.
pub open spec fn board_of(project_id: u128, tasks: Seq<KanbanTaskView>) -> KanbanBoardView {
    KanbanBoardView {
        project_id,
        columns: seq![
            column_of(TaskStatus::Todo, tasks),
            column_of(TaskStatus::InProgress, tasks),
            column_of(TaskStatus::Review, tasks),
            column_of(TaskStatus::Done, tasks),
            column_of(TaskStatus::Blocked, tasks),
        ],
    }
}

/// The tasks in the column of `status` on the board of `project_id` over
/// `tasks`.
pub open spec fn column_tasks(
    project_id: u128,
    tasks: Seq<KanbanTaskView>,
    status: TaskStatus,
) -> Seq<KanbanTaskView> {
    board_of(project_id, tasks).columns[status.column_index()].tasks
}

/// The number of tasks in all five columns of a board, and the tasks
/// themselves as a multiset.
pub open spec fn column_total(board: KanbanBoardView) -> (nat, Multiset<KanbanTaskView>) {
    (
        board.columns[0].tasks.len() + board.columns[1].tasks.len() + board.columns[2].tasks.len()
            + board.columns[3].tasks.len() + board.columns[4].tasks.len(),
        board.columns[0].tasks.to_multiset().add(board.columns[1].tasks.to_multiset()).add(
            board.columns[2].tasks.to_multiset(),
        ).add(board.columns[3].tasks.to_multiset()).add(board.columns[4].tasks.to_multiset()),
    )
}

proof fn lemma_columns_cover(project_id: u128, tasks: Seq<KanbanTaskView>)
    ensures
        column_total(board_of(project_id, tasks)).0 == tasks.len(),
        column_total(board_of(project_id, tasks)).1 == tasks.to_multiset(),
    decreases tasks.len(),
{
    broadcast use vstd::seq_lib::group_to_multiset_ensures;

    reveal(Seq::filter);
    if tasks.len() == 0 {
        assert(column_total(board_of(project_id, tasks)).1 =~= tasks.to_multiset());
    } else {
        let rest = tasks.drop_last();
        let last = tasks.last();
        lemma_columns_cover(project_id, rest);
        assert(tasks =~= rest.push(last));
        assert(tasks.to_multiset() =~= rest.to_multiset().insert(last));
        let b = board_of(project_id, tasks);
        let r = board_of(project_id, rest);
        assert forall|s: TaskStatus| #[trigger]
            tasks.filter(has_status(s)) == if last.status == s {
                rest.filter(has_status(s)).push(last)
            } else {
                rest.filter(has_status(s))
            } by {}
        assert(column_total(b).1 =~= column_total(r).1.insert(last));
    }
}

/// A board partitions its tasks: it has the five columns in workflow order,
/// the sizes of the columns sum to the number of tasks, the columns together
/// hold exactly the tasks, every task stands in the column of its own status
/// and a column holds only tasks of its status.
pub proof fn lemma_board_partitions_tasks(project_id: u128, tasks: Seq<KanbanTaskView>)
    ensures
        board_of(project_id, tasks).columns.len() == 5,
        forall|s: TaskStatus| #[trigger]
            board_of(project_id, tasks).columns[s.column_index()].status == s,
        column_total(board_of(project_id, tasks)).0 == tasks.len(),
        column_total(board_of(project_id, tasks)).1 == tasks.to_multiset(),
        forall|i: int|
            0 <= i < tasks.len() ==> column_tasks(project_id, tasks, (#[trigger] tasks[i]).status).contains(
                tasks[i],
            ),
        forall|s: TaskStatus, k: int|
            0 <= k < column_tasks(project_id, tasks, s).len() ==> (#[trigger] column_tasks(
                project_id,
                tasks,
                s,
            )[k]).status == s,
{
    lemma_columns_cover(project_id, tasks);
    let b = board_of(project_id, tasks);
    assert forall|s: TaskStatus| #[trigger] b.columns[s.column_index()] == column_of(s, tasks) by {}
    assert forall|i: int| 0 <= i < tasks.len() implies column_tasks(
        project_id,
        tasks,
        (#[trigger] tasks[i]).status,
    ).contains(tasks[i]) by {
        let s = tasks[i].status;
        assert(b.columns[s.column_index()] == column_of(s, tasks));
        tasks.lemma_filter_contains(has_status(s), i);
    }
    assert forall|s: TaskStatus, k: int|
        0 <= k < column_tasks(project_id, tasks, s).len() implies (#[trigger] column_tasks(
            project_id,
            tasks,
            s,
        )[k]).status == s by {
        assert(b.columns[s.column_index()] == column_of(s, tasks));
        tasks.lemma_filter_pred(has_status(s), k);
    }
}

/// The tasks with the status `status` among the first `upto` of `all`.
spec fn sorted_so_far(all: Seq<KanbanTaskView>, upto: int, status: TaskStatus) -> Seq<
    KanbanTaskView,
> {
    all.take(upto).filter(has_status(status))
}

proof fn lemma_filter_step(all: Seq<KanbanTaskView>, i: int, status: TaskStatus)
    requires
        0 <= i < all.len(),
    ensures
        sorted_so_far(all, i + 1, status) == if all[i].status == status {
            sorted_so_far(all, i, status).push(all[i])
        } else {
            sorted_so_far(all, i, status)
        },
{
    reveal(Seq::filter);
    assert(all.take(i + 1).drop_last() =~= all.take(i));
}

impl KanbanBoard {
    /// Groups the tasks of a project into the five columns of its board.
    pub fn project(project_id: u128, tasks: Vec<KanbanTask>) -> (board: KanbanBoard)
        ensures
            board@ == board_of(project_id, tasks.deep_view()),
    {
        let ghost all = tasks.deep_view();
        let mut todo: Vec<KanbanTask> = Vec::new();
        let mut in_progress: Vec<KanbanTask> = Vec::new();
        let mut review: Vec<KanbanTask> = Vec::new();
        let mut done: Vec<KanbanTask> = Vec::new();
        let mut blocked: Vec<KanbanTask> = Vec::new();
        proof {
            reveal(Seq::filter);
            assert(all.take(0) =~= Seq::<KanbanTaskView>::empty());
        }
        for task in it: tasks
            invariant
                it.seq().len() == all.len(),
                forall|k: int|
                    0 <= k < all.len() ==> (#[trigger] it.seq()[k]).deep_view() == all[k],
                todo.deep_view() == sorted_so_far(all, it.index() as int, TaskStatus::Todo),
                in_progress.deep_view() == sorted_so_far(
                    all,
                    it.index() as int,
                    TaskStatus::InProgress,
                ),
                review.deep_view() == sorted_so_far(all, it.index() as int, TaskStatus::Review),
                done.deep_view() == sorted_so_far(all, it.index() as int, TaskStatus::Done),
                blocked.deep_view() == sorted_so_far(all, it.index() as int, TaskStatus::Blocked),
        {
            proof {
                let i = it.index() as int;
                lemma_filter_step(all, i, TaskStatus::Todo);
                lemma_filter_step(all, i, TaskStatus::InProgress);
                lemma_filter_step(all, i, TaskStatus::Review);
                lemma_filter_step(all, i, TaskStatus::Done);
                lemma_filter_step(all, i, TaskStatus::Blocked);
            }
            let ghost t = task.deep_view();
            match task.status {
                TaskStatus::Todo => {
                    let ghost before = todo.deep_view();
                    todo.push(task);
                    assert(todo.deep_view() =~= before.push(t));
                },
                TaskStatus::InProgress => {
                    let ghost before = in_progress.deep_view();
                    in_progress.push(task);
                    assert(in_progress.deep_view() =~= before.push(t));
                },
                TaskStatus::Review => {
                    let ghost before = review.deep_view();
                    review.push(task);
                    assert(review.deep_view() =~= before.push(t));
                },
                TaskStatus::Done => {
                    let ghost before = done.deep_view();
                    done.push(task);
                    assert(done.deep_view() =~= before.push(t));
                },
                TaskStatus::Blocked => {
                    let ghost before = blocked.deep_view();
                    blocked.push(task);
                    assert(blocked.deep_view() =~= before.push(t));
                },
            }
        }
        assert(all.take(all.len() as int) =~= all);
        let mut columns: Vec<KanbanColumn> = Vec::new();
        columns.push(KanbanColumn::new(TaskStatus::Todo, todo));
        columns.push(KanbanColumn::new(TaskStatus::InProgress, in_progress));
        columns.push(KanbanColumn::new(TaskStatus::Review, review));
        columns.push(KanbanColumn::new(TaskStatus::Done, done));
        columns.push(KanbanColumn::new(TaskStatus::Blocked, blocked));
        let board = KanbanBoard { project_id, columns };
        assert(board@.columns =~= board_of(project_id, all).columns);
        board
    }
}

impl KanbanColumn {
    /// The column of `status`, holding `tasks`.
    pub fn new(status: TaskStatus, tasks: Vec<KanbanTask>) -> (column: KanbanColumn)
        ensures
            column@ == (KanbanColumnView {
                id: status.tag(),
                title: status.title(),
                status,
                tasks: tasks.deep_view(),
            }),
    {
        let (id, title) = match status {
            TaskStatus::Todo => ("todo", "To Do"),
            TaskStatus::InProgress => ("in_progress", "In Progress"),
            TaskStatus::Review => ("review", "Review"),
            TaskStatus::Done => ("done", "Done"),
            TaskStatus::Blocked => ("blocked", "Blocked"),
        };
        KanbanColumn { id: id.to_owned(), title: title.to_owned(), status, tasks }
    }
}

} // verus!
