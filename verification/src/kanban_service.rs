//! The task store: the tasks of all projects, found by id.

use crate::error::ErrorKind;
use crate::ids::{parse_uuid, random_uuid, uuid_parse};
use crate::kanban::{board_of, KanbanBoard, KanbanTask, KanbanTaskView, TaskPriority, TaskStatus};
use crate::order::{lemma_newest_first_order, newest_first, newest_first_order, reorder};
use crate::time::{
    current_time, instant_of, lemma_refreshed, parse_rfc3339, refresh, refreshed, rfc3339_parse,
    Timestamp,
};
use vstd::prelude::*;

verus! {

/// Some task in `tasks` has the id `id`.
pub open spec fn holds(tasks: Seq<KanbanTaskView>, id: u128) -> bool {
    exists|i: int| 0 <= i < tasks.len() && (#[trigger] tasks[i]).id == id
}

/// The position in `tasks` of the task with the id `id`, where some task
/// has that id.
pub open spec fn index_of(tasks: Seq<KanbanTaskView>, id: u128) -> int {
    choose|i: int| 0 <= i < tasks.len() && (#[trigger] tasks[i]).id == id
}

/// No two tasks in `tasks` share an id.
pub open spec fn distinct_ids(tasks: Seq<KanbanTaskView>) -> bool {
    forall|i: int, j: int|
        0 <= i < j < tasks.len() ==> (#[trigger] tasks[i]).id != (#[trigger] tasks[j]).id
}

/// `stored` after an update with the fields of `change`: the fields that a
/// user edits and the time of update come from `change`; the id, the
/// project, the time of creation and the metadata stay.
pub open spec fn revised(stored: KanbanTaskView, change: KanbanTaskView) -> KanbanTaskView {
    KanbanTaskView {
        title: change.title,
        description: change.description,
        status: change.status,
        priority: change.priority,
        assignee: change.assignee,
        tags: change.tags,
        updated_at: change.updated_at,
        due_date: change.due_date,
        estimated_hours: change.estimated_hours,
        ..stored
    }
}

/// `stored` after a move to `status` at the instant `now`: the status
/// changes, the time of update is refreshed at `now`, so that it lies after
/// the stored one, and nothing else changes.
pub open spec fn moved(
    stored: KanbanTaskView,
    status: TaskStatus,
    now: Timestamp,
) -> KanbanTaskView {
    KanbanTaskView { status, updated_at: refreshed(stored.updated_at, now), ..stored }
}

/// The store after the creation of `task`: with `task` at the end, and
/// unchanged where it holds a task with that id.
pub open spec fn after_create(tasks: Seq<KanbanTaskView>, task: KanbanTaskView) -> Seq<
    KanbanTaskView,
> {
    if holds(tasks, task.id) {
        tasks
    } else {
        tasks.push(task)
    }
}

/// The store after an update with `change`: the task with the id of
/// `change` is revised, and the store is unchanged where it holds no such
/// task.
pub open spec fn after_update(tasks: Seq<KanbanTaskView>, change: KanbanTaskView) -> Seq<
    KanbanTaskView,
> {
    if holds(tasks, change.id) {
        let at = index_of(tasks, change.id);
        tasks.update(at, revised(tasks[at], change))
    } else {
        tasks
    }
}

/// The store after the deletion of the task with the id `id`: without that
/// task, and unchanged where it holds no such task.
pub open spec fn after_delete(tasks: Seq<KanbanTaskView>, id: u128) -> Seq<KanbanTaskView> {
    if holds(tasks, id) {
        tasks.remove(index_of(tasks, id))
    } else {
        tasks
    }
}

/// The store after a move of the task with the id `id` to `status` at the
/// instant `now`: that task is moved, and the store is unchanged where it
/// holds no such task.
pub open spec fn after_move(
    tasks: Seq<KanbanTaskView>,
    id: u128,
    status: TaskStatus,
    now: Timestamp,
) -> Seq<KanbanTaskView> {
    if holds(tasks, id) {
        let at = index_of(tasks, id);
        tasks.update(at, moved(tasks[at], status, now))
    } else {
        tasks
    }
}

/// The result of an operation on the task with the id `id`: success where
/// the store holds the task, and `NotFound` where it does not.
pub open spec fn found(tasks: Seq<KanbanTaskView>, id: u128) -> Result<(), ErrorKind> {
    if holds(tasks, id) {
        Ok(())
    } else {
        Err(ErrorKind::NotFound)
    }
}

/// The instant at which the task with the id `id` was last updated, where
/// the store holds it.
pub open spec fn updated_at(tasks: Seq<KanbanTaskView>, id: u128) -> Timestamp {
    tasks[index_of(tasks, id)].updated_at
}

/// The time of update of the task with the id `id` lies later in `after`
/// than in `before`, where `before` holds the task and its time of update
/// there is not the last instant of all.
pub open spec fn update_time_grows(
    before: Seq<KanbanTaskView>,
    after: Seq<KanbanTaskView>,
    id: u128,
) -> bool {
    holds(before, id) && !updated_at(before, id).is_last() ==> updated_at(before, id).is_before(
        updated_at(after, id),
    )
}

proof fn lemma_same_place(
    before: Seq<KanbanTaskView>,
    after: Seq<KanbanTaskView>,
    id: u128,
    next: KanbanTaskView,
)
    requires
        distinct_ids(before),
        holds(before, id),
        next.id == id,
        after == before.update(index_of(before, id), next),
    ensures
        distinct_ids(after),
        holds(after, id),
        index_of(after, id) == index_of(before, id),
{
    let at = index_of(before, id);
    assert(after[at].id == id);
    assert forall|i: int, j: int| 0 <= i < j < after.len() implies (#[trigger] after[i]).id != (
    #[trigger] after[j]).id by {
        assert(after[i].id == before[i].id);
        assert(after[j].id == before[j].id);
    }
}

/// A move changes the status and the time of update of the moved task and
/// nothing else, in the task and in the store; the time of update grows,
/// and it becomes the instant of the move where that lies after the last
/// update.
pub proof fn lemma_move_changes_status_and_update_time_only(
    tasks: Seq<KanbanTaskView>,
    id: u128,
    status: TaskStatus,
    now: Timestamp,
)
    requires
        distinct_ids(tasks),
        holds(tasks, id),
    ensures
        ({
            let at = index_of(tasks, id);
            let after = after_move(tasks, id, status, now);
            &&& after.len() == tasks.len()
            &&& forall|j: int| 0 <= j < tasks.len() && j != at ==> after[j] == tasks[j]
            &&& after[at].status == status
            &&& after[at].updated_at == refreshed(tasks[at].updated_at, now)
            &&& tasks[at].updated_at.is_before(now) ==> after[at].updated_at == now
            &&& !tasks[at].updated_at.is_last() ==> tasks[at].updated_at.is_before(
                after[at].updated_at,
            )
            &&& update_time_grows(tasks, after, id)
            &&& after[at].id == tasks[at].id
            &&& after[at].project_id == tasks[at].project_id
            &&& after[at].title == tasks[at].title
            &&& after[at].description == tasks[at].description
            &&& after[at].priority == tasks[at].priority
            &&& after[at].assignee == tasks[at].assignee
            &&& after[at].tags == tasks[at].tags
            &&& after[at].created_at == tasks[at].created_at
            &&& after[at].due_date == tasks[at].due_date
            &&& after[at].estimated_hours == tasks[at].estimated_hours
            &&& after[at].metadata == tasks[at].metadata
        }),
{
    let at = index_of(tasks, id);
    lemma_refreshed(tasks[at].updated_at, now);
    lemma_same_place(tasks, after_move(tasks, id, status, now), id, moved(tasks[at], status, now));
}

/// The predicate "belongs to project `project_id`" on task contents.
pub open spec fn in_project(project_id: u128) -> spec_fn(KanbanTaskView) -> bool {
    |t: KanbanTaskView| t.project_id == project_id
}

/// The instants at which the tasks were created.
pub open spec fn created_times(tasks: Seq<KanbanTaskView>) -> Seq<Timestamp> {
    Seq::new(tasks.len(), |i: int| tasks[i].created_at)
}

/// The tasks of project `project_id` among `tasks`, latest creation first;
/// tasks created at the same instant keep their stored order.
pub open spec fn project_tasks(tasks: Seq<KanbanTaskView>, project_id: u128) -> Seq<
    KanbanTaskView,
> {
    let mine = tasks.filter(in_project(project_id));
    reorder(mine, newest_first_order(created_times(mine)))
}

/// The tasks of all projects, in the order in which they were stored.
pub struct KanbanService {
    tasks: Vec<KanbanTask>,
}

impl View for KanbanService {
    type V = Seq<KanbanTaskView>;

    closed spec fn view(&self) -> Seq<KanbanTaskView> {
        self.tasks.deep_view()
    }
}

impl KanbanService {
    /// The store is well formed: no two of its tasks share an id.
    pub open spec fn wf(&self) -> bool {
        distinct_ids(self@)
    }

    /// An empty store.
    pub fn new() -> (service: KanbanService)
        ensures
            service@ == Seq::<KanbanTaskView>::empty(),
            service.wf(),
    {
        let service = KanbanService { tasks: Vec::new() };
        assert(service@ =~= Seq::<KanbanTaskView>::empty());
        service
    }

    /// The number of tasks in the store.
    pub fn len(&self) -> (n: usize)
        ensures
            n == self@.len(),
    {
        self.tasks.len()
    }

    /// The position of the task with the id `task_id`, if the store holds it.
    pub fn position(&self, task_id: u128) -> (r: Option<usize>)
        ensures
            match r {
                Some(i) => i < self@.len() && self@[i as int].id == task_id,
                None => !holds(self@, task_id),
            },
    {
        let mut i: usize = 0;
        while i < self.tasks.len()
            invariant
                i <= self.tasks@.len(),
                forall|k: int| 0 <= k < i ==> (#[trigger] self@[k]).id != task_id,
            decreases self.tasks@.len() - i,
        {
            if self.tasks[i].id == task_id {
                return Some(i);
            }
            i = i + 1;
        }
        None
    }

    /// A copy of the task with the id `task_id`, if the store holds it.
    pub fn get_task(&self, task_id: u128) -> (r: Option<KanbanTask>)
        requires
            self.wf(),
        ensures
            match r {
                Some(t) => holds(self@, task_id) && t@ == self@[index_of(self@, task_id)],
                None => !holds(self@, task_id),
            },
    {
        match self.position(task_id) {
            Some(i) => Some(self.tasks[i].clone()),
            None => None,
        }
    }

    /// Stores a new task. A task whose id the store already holds is refused
    /// with `Storage`, and the store stays as it was.
    pub fn create_task(&mut self, task: &KanbanTask) -> (r: Result<(), ErrorKind>)
        requires
            old(self).wf(),
        ensures
            final(self).wf(),
            r is Ok <==> !holds(old(self)@, task.id),
            r matches Err(e) ==> e == ErrorKind::Storage,
            final(self)@ == after_create(old(self)@, task@),
    {
        match self.position(task.id) {
            Some(_) => Err(ErrorKind::Storage),
            None => {
                self.tasks.push(task.clone());
                assert(self@ =~= old(self)@.push(task@));
                Ok(())
            },
        }
    }

    /// Replaces the user-edited fields of the stored task that has the id of
    /// `task` by those of `task`, and its time of update by that of `task`.
    /// Without such a task the result is `NotFound` and the store stays as it
    /// was.
    pub fn update_task(&mut self, task: &KanbanTask) -> (r: Result<(), ErrorKind>)
        requires
            old(self).wf(),
        ensures
            final(self).wf(),
            r == found(old(self)@, task.id),
            final(self)@ == after_update(old(self)@, task@),
    {
        match self.position(task.id) {
            None => Err(ErrorKind::NotFound),
            Some(i) => {
                let stored = self.tasks.remove(i);
                let change = task.clone();
                let next = KanbanTask {
                    id: stored.id,
                    project_id: stored.project_id,
                    title: change.title,
                    description: change.description,
                    status: change.status,
                    priority: change.priority,
                    assignee: change.assignee,
                    tags: change.tags,
                    created_at: stored.created_at,
                    updated_at: change.updated_at,
                    due_date: change.due_date,
                    estimated_hours: change.estimated_hours,
                    metadata: stored.metadata,
                };
                self.tasks.insert(i, next);
                assert(self@ =~= old(self)@.update(i as int, revised(old(self)@[i as int], task@)));
                proof {
                    lemma_same_place(
                        old(self)@,
                        self@,
                        task.id,
                        revised(old(self)@[i as int], task@),
                    );
                }
                Ok(())
            },
        }
    }

    /// Removes the task with the id `task_id`. Without such a task the result
    /// is `NotFound` and the store stays as it was.
    pub fn delete_task(&mut self, task_id: u128) -> (r: Result<(), ErrorKind>)
        requires
            old(self).wf(),
        ensures
            final(self).wf(),
            r == found(old(self)@, task_id),
            final(self)@ == after_delete(old(self)@, task_id),
    {
        match self.position(task_id) {
            None => Err(ErrorKind::NotFound),
            Some(i) => {
                let _ = self.tasks.remove(i);
                assert(self@ =~= old(self)@.remove(i as int));
                Ok(())
            },
        }
    }

    /// Moves the task with the id `task_id` to `new_status` at the instant
    /// `now`: its status becomes `new_status`, its time of update is
    /// refreshed at `now`, and nothing else changes. The new time of update
    /// is `now` where that lies after the stored one, and else the next
    /// instant after the stored one, so that it always grows. Without such a
    /// task the result is `NotFound` and the store stays as it was.
    pub fn move_task_at(&mut self, task_id: u128, new_status: TaskStatus, now: Timestamp) -> (r:
        Result<(), ErrorKind>)
        requires
            old(self).wf(),
        ensures
            final(self).wf(),
            r == found(old(self)@, task_id),
            final(self)@ == after_move(old(self)@, task_id, new_status, now),
            update_time_grows(old(self)@, final(self)@, task_id),
    {
        match self.position(task_id) {
            None => Err(ErrorKind::NotFound),
            Some(i) => {
                let stored = self.tasks.remove(i);
                let next = KanbanTask {
                    id: stored.id,
                    project_id: stored.project_id,
                    title: stored.title,
                    description: stored.description,
                    status: new_status,
                    priority: stored.priority,
                    assignee: stored.assignee,
                    tags: stored.tags,
                    created_at: stored.created_at,
                    updated_at: refresh(stored.updated_at, now),
                    due_date: stored.due_date,
                    estimated_hours: stored.estimated_hours,
                    metadata: stored.metadata,
                };
                self.tasks.insert(i, next);
                assert(self@ =~= old(self)@.update(
                    i as int,
                    moved(old(self)@[i as int], new_status, now),
                ));
                proof {
                    lemma_refreshed(old(self)@[i as int].updated_at, now);
                    lemma_same_place(
                        old(self)@,
                        self@,
                        task_id,
                        moved(old(self)@[i as int], new_status, now),
                    );
                }
                Ok(())
            },
        }
    }

    /// Moves the task with the id `task_id` to `new_status` at the present
    /// instant. Whatever the clock says, the outcome is that of
    /// `move_task_at` at the instant that the task then carries as its time
    /// of update: only the status and the time of update of that task
    /// change, and the time of update grows.
    pub fn move_task(&mut self, task_id: u128, new_status: TaskStatus) -> (r: Result<
        (),
        ErrorKind,
    >)
        requires
            old(self).wf(),
        ensures
            final(self).wf(),
            r == found(old(self)@, task_id),
            final(self)@ == after_move(
                old(self)@,
                task_id,
                new_status,
                updated_at(final(self)@, task_id),
            ),
            update_time_grows(old(self)@, final(self)@, task_id),
    {
        let now = current_time();
        let r = self.move_task_at(task_id, new_status, now);
        proof {
            if holds(old(self)@, task_id) {
                let at = index_of(old(self)@, task_id);
                let last = old(self)@[at].updated_at;
                lemma_refreshed(last, now);
                lemma_same_place(
                    old(self)@,
                    self@,
                    task_id,
                    moved(old(self)@[at], new_status, now),
                );
                assert(updated_at(self@, task_id) == refreshed(last, now));
            }
        }
        r
    }

    /// The tasks of project `project_id`, latest creation first.
    pub fn get_project_tasks(&self, project_id: u128) -> (tasks: Vec<KanbanTask>)
        ensures
            tasks.deep_view() == project_tasks(self@, project_id),
    {
        let ghost all = self@;
        let ghost wanted = in_project(project_id);
        let mut picked: Vec<usize> = Vec::new();
        let mut keys: Vec<Timestamp> = Vec::new();
        let mut i: usize = 0;
        proof {
            reveal(Seq::filter);
            assert(all.take(0).filter(wanted) =~= Seq::empty());
        }
        while i < self.tasks.len()
            invariant
                i <= self.tasks@.len(),
                all == self@,
                all.len() == self.tasks@.len(),
                wanted == in_project(project_id),
                picked@.len() == keys@.len(),
                picked@.len() == all.take(i as int).filter(wanted).len(),
                forall|a: int|
                    0 <= a < picked@.len() ==> (#[trigger] picked@[a]) < i
                        && all[picked@[a] as int] == all.take(i as int).filter(wanted)[a],
                forall|a: int|
                    0 <= a < picked@.len() ==> #[trigger] keys@[a] == all.take(i as int).filter(
                        wanted,
                    )[a].created_at,
            decreases self.tasks@.len() - i,
        {
            proof {
                reveal(Seq::filter);
                assert(all.take(i as int + 1).drop_last() =~= all.take(i as int));
            }
            if self.tasks[i].project_id == project_id {
                picked.push(i);
                keys.push(self.tasks[i].created_at);
            }
            i = i + 1;
        }
        let ghost mine = all.filter(wanted);
        proof {
            assert(all.take(all.len() as int) =~= all);
            assert(keys@ =~= created_times(mine));
            lemma_newest_first_order(keys@);
        }
        let order = newest_first(&keys);
        let ghost listed = newest_first_order(keys@);
        let mut tasks: Vec<KanbanTask> = Vec::new();
        let mut a: usize = 0;
        while a < order.len()
            invariant
                a <= order@.len(),
                tasks@.len() == a,
                order@.len() == keys@.len(),
                picked@.len() == keys@.len(),
                mine.len() == keys@.len(),
                all == self@,
                all.len() == self.tasks@.len(),
                listed == newest_first_order(keys@),
                forall|b: int| 0 <= b < order@.len() ==> #[trigger] order@[b] < keys@.len(),
                forall|b: int| 0 <= b < order@.len() ==> #[trigger] order@[b] as int == listed[b],
                forall|b: int|
                    0 <= b < picked@.len() ==> (#[trigger] picked@[b]) < all.len()
                        && all[picked@[b] as int] == mine[b],
                forall|b: int| 0 <= b < a ==> (#[trigger] tasks@[b])@ == mine[listed[b]],
            decreases order@.len() - a,
        {
            let source = picked[order[a]];
            tasks.push(self.tasks[source].clone());
            a = a + 1;
        }
        assert(tasks.deep_view() =~= project_tasks(self@, project_id));
        tasks
    }

    /// The board of project `project_id`: its tasks, latest creation first,
    /// grouped into the five columns.
    pub fn get_kanban_board(&self, project_id: u128) -> (board: KanbanBoard)
        ensures
            board@ == board_of(project_id, project_tasks(self@, project_id)),
    {
        KanbanBoard::project(project_id, self.get_project_tasks(project_id))
    }
}

/// The due date that a user's text gives: the instant that the text denotes
/// as an RFC 3339 date and time, and none where there is no text or the text
/// denotes no instant.
pub open spec fn due_instant(text: Option<Seq<char>>) -> Option<Timestamp> {
    match text {
        Some(t) => instant_of(rfc3339_parse(t)),
        None => None,
    }
}

/// What a user enters for a task: texts as they were typed.
pub struct TaskEntry {
    pub title: Seq<char>,
    pub description: Option<Seq<char>>,
    pub priority: Seq<char>,
    pub assignee: Option<Seq<char>>,
    pub tags: Seq<Seq<char>>,
    pub due_date: Option<Seq<char>>,
    pub estimated_hours: Option<u32>,
}

/// The task that the entry `entry` describes, with the given id, project
/// and status, created and last updated at `now`, and with empty metadata.
/// The priority is the one that the entered tag names, and `Medium` for a
/// tag that names none.
pub open spec fn entered_task(
    id: u128,
    project_id: u128,
    now: Timestamp,
    status: TaskStatus,
    entry: TaskEntry,
) -> KanbanTaskView {
    KanbanTaskView {
        id,
        project_id,
        title: entry.title,
        description: entry.description,
        status,
        priority: TaskPriority::from_tag(entry.priority),
        assignee: entry.assignee,
        tags: entry.tags,
        created_at: now,
        updated_at: now,
        due_date: due_instant(entry.due_date),
        estimated_hours: entry.estimated_hours,
        metadata: "{}"@,
    }
}

/// The outcome of the creation of a task from an entry: `Parse` where the
/// project id is no UUID, `Storage` where the store holds a task with the
/// id `id`, and else the new task.
pub open spec fn creation(
    tasks: Seq<KanbanTaskView>,
    id: u128,
    now: Timestamp,
    project_id: Seq<char>,
    entry: TaskEntry,
) -> Result<KanbanTaskView, ErrorKind> {
    match uuid_parse(project_id) {
        None => Err(ErrorKind::Parse),
        Some(project) => if holds(tasks, id) {
            Err(ErrorKind::Storage)
        } else {
            Ok(entered_task(id, project, now, TaskStatus::Todo, entry))
        },
    }
}

/// The store after the creation with the outcome `outcome`.
pub open spec fn after_creation(
    tasks: Seq<KanbanTaskView>,
    outcome: Result<KanbanTaskView, ErrorKind>,
) -> Seq<KanbanTaskView> {
    match outcome {
        Ok(task) => tasks.push(task),
        Err(_) => tasks,
    }
}

/// The view of the outcome of a creation.
pub open spec fn creation_view(r: Result<KanbanTask, ErrorKind>) -> Result<
    KanbanTaskView,
    ErrorKind,
> {
    match r {
        Ok(task) => Ok(task@),
        Err(e) => Err(e),
    }
}

fn enter_task(
    id: u128,
    project_id: u128,
    now: Timestamp,
    status: TaskStatus,
    title: String,
    description: Option<String>,
    priority: &str,
    assignee: Option<String>,
    tags: Vec<String>,
    due_date: Option<String>,
    estimated_hours: Option<u32>,
) -> (task: KanbanTask)
    ensures
        task@ == entered_task(
            id,
            project_id,
            now,
            status,
            TaskEntry {
                title: title@,
                description: description.deep_view(),
                priority: priority@,
                assignee: assignee.deep_view(),
                tags: tags.deep_view(),
                due_date: due_date.deep_view(),
                estimated_hours,
            },
        ),
{
    let due = match due_date {
        Some(text) => parse_rfc3339(text.as_str()),
        None => None,
    };
    KanbanTask {
        id,
        project_id,
        title,
        description,
        status,
        priority: TaskPriority::from_string(priority),
        assignee,
        tags,
        created_at: now,
        updated_at: now,
        due_date: due,
        estimated_hours,
        metadata: "{}".to_owned(),
    }
}

/// Creates a task of project `project_id` from a user's entries, with the id
/// `id` and at the instant `now`, and stores it. The new task has the status
/// `Todo` and the priority that its tag names (`Medium` for a tag that names
/// none). A `project_id` that is no UUID gives `Parse`; an `id` that the store
/// already holds gives `Storage`; in both cases the store stays as it was.
pub fn create_kanban_task_with(
    service: &mut KanbanService,
    id: u128,
    now: Timestamp,
    project_id: &str,
    title: String,
    description: Option<String>,
    priority: &str,
    assignee: Option<String>,
    tags: Vec<String>,
    due_date: Option<String>,
    estimated_hours: Option<u32>,
) -> (r: Result<KanbanTask, ErrorKind>)
    requires
        old(service).wf(),
    ensures
        final(service).wf(),
        creation_view(r) == creation(
            old(service)@,
            id,
            now,
            project_id@,
            TaskEntry {
                title: title@,
                description: description.deep_view(),
                priority: priority@,
                assignee: assignee.deep_view(),
                tags: tags.deep_view(),
                due_date: due_date.deep_view(),
                estimated_hours,
            },
        ),
        final(service)@ == after_creation(old(service)@, creation_view(r)),
{
    let project = match parse_uuid(project_id) {
        Some(p) => p,
        None => {
            return Err(ErrorKind::Parse);
        },
    };
    let task = enter_task(
        id,
        project,
        now,
        TaskStatus::Todo,
        title,
        description,
        priority,
        assignee,
        tags,
        due_date,
        estimated_hours,
    );
    match service.create_task(&task) {
        Ok(()) => Ok(task),
        Err(e) => Err(e),
    }
}

/// Creates a task of project `project_id` from a user's entries, with a
/// fresh random id and at the present instant, and stores it. A
/// `project_id` that is no UUID, and no other, gives `Parse`. Whatever id
/// and instant are drawn, the outcome is that of `create_kanban_task_with`
/// for them: the creation fails, with `Storage`, only where the store holds
/// a task with the drawn id; on an empty store it succeeds.
pub fn create_kanban_task(
    service: &mut KanbanService,
    project_id: &str,
    title: String,
    description: Option<String>,
    priority: &str,
    assignee: Option<String>,
    tags: Vec<String>,
    due_date: Option<String>,
    estimated_hours: Option<u32>,
) -> (r: Result<KanbanTask, ErrorKind>)
    requires
        old(service).wf(),
    ensures
        final(service).wf(),
        uuid_parse(project_id@) is None <==> (r matches Err(e) && e == ErrorKind::Parse),
        r matches Err(e) ==> e == ErrorKind::Parse || e == ErrorKind::Storage,
        uuid_parse(project_id@) is Some && old(service)@.len() == 0 ==> r is Ok,
        (r matches Err(e) && e == ErrorKind::Storage) ==> exists|id: u128|
            holds(old(service)@, id),
        r matches Ok(task) ==> creation_view(r) == creation(
            old(service)@,
            task.id,
            task.created_at,
            project_id@,
            TaskEntry {
                title: title@,
                description: description.deep_view(),
                priority: priority@,
                assignee: assignee.deep_view(),
                tags: tags.deep_view(),
                due_date: due_date.deep_view(),
                estimated_hours,
            },
        ),
        final(service)@ == after_creation(old(service)@, creation_view(r)),
{
    let id = random_uuid();
    let now = current_time();
    create_kanban_task_with(
        service,
        id,
        now,
        project_id,
        title,
        description,
        priority,
        assignee,
        tags,
        due_date,
        estimated_hours,
    )
}

/// The outcome of an update of the task that `task_id` names: `Parse`
/// where `task_id` or `project_id` is no UUID, `NotFound` where the store
/// holds no task with that id, and else success.
pub open spec fn update_outcome(
    tasks: Seq<KanbanTaskView>,
    task_id: Seq<char>,
    project_id: Seq<char>,
) -> Result<(), ErrorKind> {
    if uuid_parse(task_id) is None || uuid_parse(project_id) is None {
        Err(ErrorKind::Parse)
    } else {
        found(tasks, uuid_parse(task_id)->0)
    }
}

/// The store after an update of the task that `task_id` names, at the
/// instant `now`, with the entry `entry` and the status that `status`
/// names: unchanged where the update is refused.
pub open spec fn after_entered_update(
    tasks: Seq<KanbanTaskView>,
    now: Timestamp,
    task_id: Seq<char>,
    project_id: Seq<char>,
    status: Seq<char>,
    entry: TaskEntry,
) -> Seq<KanbanTaskView> {
    if update_outcome(tasks, task_id, project_id) is Ok {
        after_update(
            tasks,
            entered_task(
                uuid_parse(task_id)->0,
                uuid_parse(project_id)->0,
                now,
                TaskStatus::from_tag(status),
                entry,
            ),
        )
    } else {
        tasks
    }
}

/// Replaces, at the instant `now`, the user-edited fields of the task with
/// the id `task_id` by a user's entries; its time of update becomes `now`.
/// A `task_id` or `project_id` that is no UUID gives `Parse`, a `task_id`
/// that the store does not hold gives `NotFound`; in both cases the store
/// stays as it was.
pub fn update_kanban_task_at(
    service: &mut KanbanService,
    now: Timestamp,
    task_id: &str,
    project_id: &str,
    title: String,
    description: Option<String>,
    status: &str,
    priority: &str,
    assignee: Option<String>,
    tags: Vec<String>,
    due_date: Option<String>,
    estimated_hours: Option<u32>,
) -> (r: Result<(), ErrorKind>)
    requires
        old(service).wf(),
    ensures
        final(service).wf(),
        r == update_outcome(old(service)@, task_id@, project_id@),
        final(service)@ == after_entered_update(
            old(service)@,
            now,
            task_id@,
            project_id@,
            status@,
            TaskEntry {
                title: title@,
                description: description.deep_view(),
                priority: priority@,
                assignee: assignee.deep_view(),
                tags: tags.deep_view(),
                due_date: due_date.deep_view(),
                estimated_hours,
            },
        ),
{
    let id = match parse_uuid(task_id) {
        Some(id) => id,
        None => {
            return Err(ErrorKind::Parse);
        },
    };
    let project = match parse_uuid(project_id) {
        Some(p) => p,
        None => {
            return Err(ErrorKind::Parse);
        },
    };
    let change = enter_task(
        id,
        project,
        now,
        TaskStatus::from_string(status),
        title,
        description,
        priority,
        assignee,
        tags,
        due_date,
        estimated_hours,
    );
    service.update_task(&change)
}

/// Replaces, at the present instant, the user-edited fields of the task with
/// the id `task_id` by a user's entries. Whatever the clock says, the outcome
/// is that of `update_kanban_task_at` at the instant that the task then
/// carries as its time of update.
pub fn update_kanban_task(
    service: &mut KanbanService,
    task_id: &str,
    project_id: &str,
    title: String,
    description: Option<String>,
    status: &str,
    priority: &str,
    assignee: Option<String>,
    tags: Vec<String>,
    due_date: Option<String>,
    estimated_hours: Option<u32>,
) -> (r: Result<(), ErrorKind>)
    requires
        old(service).wf(),
    ensures
        final(service).wf(),
        r == update_outcome(old(service)@, task_id@, project_id@),
        final(service)@ == after_entered_update(
            old(service)@,
            updated_at(final(service)@, uuid_parse(task_id@)->0),
            task_id@,
            project_id@,
            status@,
            TaskEntry {
                title: title@,
                description: description.deep_view(),
                priority: priority@,
                assignee: assignee.deep_view(),
                tags: tags.deep_view(),
                due_date: due_date.deep_view(),
                estimated_hours,
            },
        ),
{
    let now = current_time();
    let r = update_kanban_task_at(
        service,
        now,
        task_id,
        project_id,
        title,
        description,
        status,
        priority,
        assignee,
        tags,
        due_date,
        estimated_hours,
    );
    proof {
        if r is Ok {
            let id = uuid_parse(task_id@)->0;
            let at = index_of(old(service)@, id);
            assert(service@[at].id == id);
            assert(index_of(service@, id) == at);
        }
    }
    r
}

/// The outcome of an operation on the task that `task_id` names: `Parse`
/// where `task_id` is no UUID, `NotFound` where the store holds no task
/// with that id, and else success.
pub open spec fn named_outcome(tasks: Seq<KanbanTaskView>, task_id: Seq<char>) -> Result<
    (),
    ErrorKind,
> {
    match uuid_parse(task_id) {
        None => Err(ErrorKind::Parse),
        Some(id) => found(tasks, id),
    }
}

/// Removes the task with the id `task_id`. A `task_id` that is no UUID gives
/// `Parse`, one that the store does not hold gives `NotFound`; in both cases
/// the store stays as it was.
pub fn delete_kanban_task(service: &mut KanbanService, task_id: &str) -> (r: Result<(), ErrorKind>)
    requires
        old(service).wf(),
    ensures
        final(service).wf(),
        r == named_outcome(old(service)@, task_id@),
        final(service)@ == match uuid_parse(task_id@) {
            Some(id) => after_delete(old(service)@, id),
            None => old(service)@,
        },
{
    match parse_uuid(task_id) {
        Some(id) => service.delete_task(id),
        None => Err(ErrorKind::Parse),
    }
}

/// Moves the task with the id `task_id` to the status that `new_status`
/// names (`Todo` for a tag that names none), at the instant `now`, and
/// refreshes its time of update at `now`, so that it grows. A `task_id` that
/// is no UUID gives `Parse`, one that the store does not hold gives
/// `NotFound`; in both cases the store stays as it was.
pub fn move_kanban_task_at(
    service: &mut KanbanService,
    now: Timestamp,
    task_id: &str,
    new_status: &str,
) -> (r: Result<(), ErrorKind>)
    requires
        old(service).wf(),
    ensures
        final(service).wf(),
        r == named_outcome(old(service)@, task_id@),
        final(service)@ == match uuid_parse(task_id@) {
            Some(id) => after_move(old(service)@, id, TaskStatus::from_tag(new_status@), now),
            None => old(service)@,
        },
        r is Ok ==> update_time_grows(
            old(service)@,
            final(service)@,
            uuid_parse(task_id@)->0,
        ),
{
    match parse_uuid(task_id) {
        Some(id) => service.move_task_at(id, TaskStatus::from_string(new_status), now),
        None => Err(ErrorKind::Parse),
    }
}

/// Moves the task with the id `task_id` to the status that `new_status`
/// names, at the present instant. Whatever the clock says, the outcome is
/// that of `move_kanban_task_at` at the instant that the task then carries
/// as its time of update: only the status and the time of update of that
/// task change, and the time of update grows.
pub fn move_kanban_task(service: &mut KanbanService, task_id: &str, new_status: &str) -> (r: Result<
    (),
    ErrorKind,
>)
    requires
        old(service).wf(),
    ensures
        final(service).wf(),
        r == named_outcome(old(service)@, task_id@),
        final(service)@ == match uuid_parse(task_id@) {
            Some(id) => after_move(
                old(service)@,
                id,
                TaskStatus::from_tag(new_status@),
                updated_at(final(service)@, id),
            ),
            None => old(service)@,
        },
        r is Ok ==> update_time_grows(
            old(service)@,
            final(service)@,
            uuid_parse(task_id@)->0,
        ),
{
    match parse_uuid(task_id) {
        Some(id) => service.move_task(id, TaskStatus::from_string(new_status)),
        None => Err(ErrorKind::Parse),
    }
}

/// The board of the project that `project_id` names: its tasks, latest
/// creation first, in the five columns. A `project_id` that is no UUID gives
/// `Parse`.
pub fn get_kanban_board(service: &KanbanService, project_id: &str) -> (r: Result<
    KanbanBoard,
    ErrorKind,
>)
    ensures
        match uuid_parse(project_id@) {
            None => r matches Err(e) && e == ErrorKind::Parse,
            Some(id) => r matches Ok(board) && board@ == board_of(id, project_tasks(service@, id)),
        },
{
    match parse_uuid(project_id) {
        Some(id) => Ok(service.get_kanban_board(id)),
        None => Err(ErrorKind::Parse),
    }
}

} // verus!
