//! The set of tasks of the loader, each under an id of its own.

use vstd::prelude::*;

use std::collections::HashMap;

verus! {

broadcast use vstd::std_specs::hash::group_hash_axioms;

/// Errors of the loader.
#[derive(Debug)]
pub enum LoaderError {
    TaskNotFound,
}

/// Set of tasks.
#[derive(Debug)]
pub struct Tasks<T> {
    next_task_id: usize,
    tasks: HashMap<usize, T>,
}

impl<T> Tasks<T> {
    /// Every task is under an id that was handed out already: one below the next id.
    #[verifier::type_invariant]
    spec fn ids_handed_out(&self) -> bool {
        &&& self.next_task_id >= 1
        &&& forall|id: usize| #[trigger] self.tasks@.contains_key(id) ==> 1 <= id < self.next_task_id
    }

    /// The tasks by id.
    pub closed spec fn spec_tasks(&self) -> Map<usize, T> {
        self.tasks@
    }

    /// The id that the next task gets.
    pub closed spec fn spec_next_id(&self) -> usize {
        self.next_task_id
    }

    /// Creates a new set of tasks; ids start at 1.
    pub fn new() -> (r: Self)
        ensures
            r.spec_tasks() == Map::<usize, T>::empty(),
            r.spec_next_id() == 1,
    {
        Tasks { next_task_id: 1, tasks: HashMap::new() }
    }

    /// Adds a task under the next id, which it returns.
    pub fn add_task(&mut self, task: T) -> (id: usize)
        requires
            old(self).spec_next_id() < usize::MAX,
        ensures
            id == old(self).spec_next_id(),
            !old(self).spec_tasks().contains_key(id),
            final(self).spec_next_id() == old(self).spec_next_id() + 1,
            final(self).spec_tasks() == old(self).spec_tasks().insert(id, task),
    {
        proof {
            use_type_invariant(&*self);
        }
        let task_id = self.next_task_id;
        let mut tasks = HashMap::new();
        std::mem::swap(&mut tasks, &mut self.tasks);
        tasks.insert(task_id, task);
        self.next_task_id = task_id + 1;
        std::mem::swap(&mut tasks, &mut self.tasks);
        task_id
    }

    /// Gets a task.
    pub fn get_task(&self, task_id: usize) -> (r: Option<&T>)
        ensures
            match r {
                Some(t) => self.spec_tasks().contains_key(task_id) && *t == self.spec_tasks()[task_id],
                None => !self.spec_tasks().contains_key(task_id),
            },
    {
        self.tasks.get(&task_id)
    }

    /// Removes a task and returns it.
    pub fn remove_task(&mut self, task_id: usize) -> (r: Option<T>)
        ensures
            match r {
                Some(t) => old(self).spec_tasks().contains_key(task_id) && t == old(
                    self,
                ).spec_tasks()[task_id],
                None => !old(self).spec_tasks().contains_key(task_id),
            },
            final(self).spec_tasks() == old(self).spec_tasks().remove(task_id),
            final(self).spec_next_id() == old(self).spec_next_id(),
    {
        proof {
            use_type_invariant(&*self);
        }
        let mut tasks = HashMap::new();
        std::mem::swap(&mut tasks, &mut self.tasks);
        let r = tasks.remove(&task_id);
        std::mem::swap(&mut tasks, &mut self.tasks);
        r
    }
}

/// A task added under an id is found under that id, and the tasks added before stay
/// where they were.
pub proof fn law_get_after_add<T>(tasks: Map<usize, T>, id: usize, task: T, other: usize)
    requires
        other != id,
    ensures
        tasks.insert(id, task).contains_key(id),
        tasks.insert(id, task)[id] == task,
        tasks.insert(id, task).contains_key(other) == tasks.contains_key(other),
        tasks.contains_key(other) ==> tasks.insert(id, task)[other] == tasks[other],
{
}

/// A removed task is no longer found.
pub proof fn law_get_after_remove<T>(tasks: Map<usize, T>, id: usize)
    ensures
        !tasks.remove(id).contains_key(id),
{
}

} // verus!
