use vstd::prelude::*;

use crate::error::BorrowMutError;

verus! {

/// Application-chosen tag telling a task which of its resources produced an event.
#[derive(Clone, Copy, Debug, PartialEq, Eq, Structural, PartialOrd, Ord, Hash)]
pub struct Key(pub usize);

/// Whether the platform's default handling of an event is suppressed.
#[derive(Clone, Copy, Debug, PartialEq, Eq, Structural, Hash)]
pub enum Response {
    Capture,
    Ignore,
}

/// Index of a task slot in a registry.
#[derive(Clone, Copy, Debug, PartialEq, Eq, Structural, Hash)]
pub struct TaskId(pub usize);

/// State of one task slot: the handle's strong reference and the task's
/// exclusive borrow, as seen by every weak holder.
#[derive(Clone, Copy, Debug, PartialEq, Eq, Structural)]
pub enum TaskSlot {
    /// Alive and not borrowed.
    Idle,
    /// Alive and exclusively borrowed by a dispatch or a `with` block.
    Borrowed,
    /// The handle was dropped: every weak reference fails to resolve.
    Dropped,
    /// The handle was dropped while the task was borrowed; the task goes
    /// away when that borrow ends.
    DroppedWhileBorrowed,
}

/// Why a delivery to a task did not happen.
#[derive(Clone, Copy, Debug, PartialEq, Eq, Structural)]
pub enum DispatchError {
    /// The task is gone (its handle was dropped) or never existed.
    Gone,
    /// The task is already exclusively borrowed.
    Busy,
}

/// The tasks of one event loop, addressed by `TaskId`.
pub struct TaskRegistry {
    slots: Vec<TaskSlot>,
}

/// The slot a lookup sees; ids past the end read as dropped.
pub open spec fn slot_of(slots: Seq<TaskSlot>, id: TaskId) -> TaskSlot {
    if id.0 < slots.len() {
        slots[id.0 as int]
    } else {
        TaskSlot::Dropped
    }
}

/// What a weak reference sees when it tries to resolve and borrow.
pub open spec fn resolve_spec(slot: TaskSlot) -> Result<(), DispatchError> {
    match slot {
        TaskSlot::Idle => Ok(()),
        TaskSlot::Borrowed => Err(DispatchError::Busy),
        _ => Err(DispatchError::Gone),
    }
}

/// The slot once a borrow ends.
pub open spec fn release_spec(slot: TaskSlot) -> TaskSlot {
    match slot {
        TaskSlot::Borrowed => TaskSlot::Idle,
        TaskSlot::DroppedWhileBorrowed => TaskSlot::Dropped,
        s => s,
    }
}

/// The slot once the handle is dropped.
pub open spec fn drop_spec(slot: TaskSlot) -> TaskSlot {
    match slot {
        TaskSlot::Idle => TaskSlot::Dropped,
        TaskSlot::Borrowed => TaskSlot::DroppedWhileBorrowed,
        s => s,
    }
}

impl TaskRegistry {
    pub closed spec fn view(&self) -> Seq<TaskSlot> {
        self.slots@
    }

    pub fn new() -> (r: TaskRegistry)
        ensures
            r@ == Seq::<TaskSlot>::empty(),
    {
        TaskRegistry { slots: Vec::new() }
    }

    pub fn len(&self) -> (r: usize)
        ensures
            r == self@.len(),
    {
        self.slots.len()
    }

    /// Adds a live, unborrowed task and returns its id.
    pub fn spawn(&mut self) -> (r: TaskId)
        requires
            old(self)@.len() < usize::MAX,
        ensures
            r.0 == old(self)@.len(),
            final(self)@ == old(self)@.push(TaskSlot::Idle),
    {
        let id = self.slots.len();
        self.slots.push(TaskSlot::Idle);
        TaskId(id)
    }

    /// The slot that `id` refers to.
    pub fn slot(&self, id: TaskId) -> (r: TaskSlot)
        ensures
            r == slot_of(self@, id),
    {
        if id.0 < self.slots.len() {
            self.slots[id.0]
        } else {
            TaskSlot::Dropped
        }
    }

    /// Drops the handle's strong reference.
    pub fn drop_task(&mut self, id: TaskId)
        ensures
            id.0 < old(self)@.len() ==> final(self)@ == old(self)@.update(
                id.0 as int,
                drop_spec(old(self)@[id.0 as int]),
            ),
            id.0 >= old(self)@.len() ==> final(self)@ == old(self)@,
    {
        if id.0 < self.slots.len() {
            let s = drop_slot(self.slots[id.0]);
            self.slots.set(id.0, s);
        }
    }

    /// Resolves a weak reference and takes the exclusive borrow.
    pub fn try_acquire(&mut self, id: TaskId) -> (r: Result<(), DispatchError>)
        ensures
            r == resolve_spec(slot_of(old(self)@, id)),
            r.is_ok() ==> final(self)@ == old(self)@.update(id.0 as int, TaskSlot::Borrowed),
            r.is_err() ==> final(self)@ == old(self)@,
    {
        if id.0 < self.slots.len() {
            match self.slots[id.0] {
                TaskSlot::Idle => {
                    self.slots.set(id.0, TaskSlot::Borrowed);
                    Ok(())
                },
                TaskSlot::Borrowed => Err(DispatchError::Busy),
                _ => Err(DispatchError::Gone),
            }
        } else {
            Err(DispatchError::Gone)
        }
    }

    /// Ends an exclusive borrow.
    pub fn release(&mut self, id: TaskId)
        ensures
            id.0 < old(self)@.len() ==> final(self)@ == old(self)@.update(
                id.0 as int,
                release_spec(old(self)@[id.0 as int]),
            ),
            id.0 >= old(self)@.len() ==> final(self)@ == old(self)@,
    {
        if id.0 < self.slots.len() {
            let s = release_slot(self.slots[id.0]);
            self.slots.set(id.0, s);
        }
    }
}

fn drop_slot(s: TaskSlot) -> (r: TaskSlot)
    ensures
        r == drop_spec(s),
{
    match s {
        TaskSlot::Idle => TaskSlot::Dropped,
        TaskSlot::Borrowed => TaskSlot::DroppedWhileBorrowed,
        other => other,
    }
}

fn release_slot(s: TaskSlot) -> (r: TaskSlot)
    ensures
        r == release_spec(s),
{
    match s {
        TaskSlot::Borrowed => TaskSlot::Idle,
        TaskSlot::DroppedWhileBorrowed => TaskSlot::Dropped,
        other => other,
    }
}

/// The application's strong, exclusive handle to one task.
#[derive(Debug)]
pub struct TaskHandle {
    pub id: TaskId,
}

impl TaskHandle {
    /// Registers a new task and hands back its sole strong handle.
    pub fn spawn(tasks: &mut TaskRegistry) -> (r: TaskHandle)
        requires
            old(tasks)@.len() < usize::MAX,
        ensures
            r.id.0 == old(tasks)@.len(),
            final(tasks)@ == old(tasks)@.push(TaskSlot::Idle),
    {
        TaskHandle { id: tasks.spawn() }
    }

    /// Opens a `with` block on a task that is known not to be borrowed; a
    /// conflicting borrow here is a misuse that callers rule out first. The
    /// block ends with `TaskRegistry::release`.
    pub fn with(&self, tasks: &mut TaskRegistry)
        requires
            slot_of(old(tasks)@, self.id) == TaskSlot::Idle,
        ensures
            final(tasks)@ == old(tasks)@.update(self.id.0 as int, TaskSlot::Borrowed),
    {
        let r = tasks.try_acquire(self.id);
        assert(r.is_ok());
    }

    /// Opens a `with` block on the task: takes the exclusive borrow or
    /// reports the conflict. The block ends with `TaskRegistry::release`.
    pub fn try_with(&self, tasks: &mut TaskRegistry) -> (r: Result<(), BorrowMutError>)
        requires
            slot_of(old(tasks)@, self.id) != TaskSlot::Dropped,
            slot_of(old(tasks)@, self.id) != TaskSlot::DroppedWhileBorrowed,
        ensures
            r.is_ok() == (slot_of(old(tasks)@, self.id) == TaskSlot::Idle),
            r.is_ok() ==> final(tasks)@ == old(tasks)@.update(self.id.0 as int, TaskSlot::Borrowed),
            r.is_err() ==> final(tasks)@ == old(tasks)@,
    {
        match tasks.try_acquire(self.id) {
            Ok(()) => Ok(()),
            Err(_) => Err(BorrowMutError),
        }
    }

    /// Gives up the handle: from now on every weak reference to the task
    /// fails to resolve.
    pub fn drop_handle(self, tasks: &mut TaskRegistry)
        ensures
            self.id.0 < old(tasks)@.len() ==> final(tasks)@ == old(tasks)@.update(
                self.id.0 as int,
                drop_spec(old(tasks)@[self.id.0 as int]),
            ),
            self.id.0 >= old(tasks)@.len() ==> final(tasks)@ == old(tasks)@,
    {
        tasks.drop_task(self.id);
    }
}

} // verus!
