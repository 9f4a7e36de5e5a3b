//! The task collection of one day and the operations on it.

use vstd::prelude::*;
use crate::error::{TaskError, TaskResult};
use crate::model::{Failure, Lookup, ManagerView, Step, StoppedView};
use crate::task::{RunningTask, StoppedTask};
use crate::time::{Duration, Timestamp};

verus! {

/// The views of a list of stopped tasks.
pub open spec fn views_of(tasks: Seq<StoppedTask>) -> Seq<StoppedView> {
    Seq::new(tasks.len(), |i: int| tasks[i]@)
}

/// The texts of a list of names.
pub open spec fn names_of(names: Seq<&str>) -> Seq<Seq<char>> {
    Seq::new(names.len(), |i: int| names[i]@)
}

/// An operation that reports one name did what the model says: on success
/// the collection is in the step's state and the step's name is returned;
/// on failure the collection is unchanged and the failure is returned.
pub open spec fn agrees(
    before: ManagerView,
    after: ManagerView,
    result: TaskResult<String>,
    expected: Result<Step, Failure>,
) -> bool {
    match expected {
        Ok(step) => result is Ok && result->Ok_0@ == step.name && after == step.next,
        Err(failure) => result is Err && result->Err_0@ == failure && after == before,
    }
}

/// The tasks of one day: at most one running task, and the stopped tasks
/// in a list to whose end a task goes when it is stopped.
#[derive(Debug)]
pub struct TaskManager {
    stopped: Vec<StoppedTask>,
    running: Option<RunningTask>,
}

impl View for TaskManager {
    type V = ManagerView;

    closed spec fn view(&self) -> ManagerView {
        ManagerView {
            stopped: views_of(self.stopped@),
            running: match self.running {
                Some(task) => Some(task@),
                None => None,
            },
        }
    }
}

impl Default for TaskManager {
    /// A collection without tasks.
    fn default() -> (manager: TaskManager)
        ensures
            manager@ == ManagerView::empty(),
            manager@.wf(),
    {
        let manager = TaskManager { stopped: Vec::new(), running: None };
        assert(manager@.stopped =~= Seq::empty());
        manager
    }
}

impl TaskManager {
    /// A collection without tasks.
    pub fn new() -> (manager: TaskManager)
        ensures
            manager@ == ManagerView::empty(),
            manager@.wf(),
    {
        TaskManager::default()
    }

    /// The collection of the given tasks.
    pub fn from_parts(stopped: Vec<StoppedTask>, running: Option<RunningTask>) -> (manager:
        TaskManager)
        requires
            forall|i: int| 0 <= i < stopped.len() ==> (#[trigger] stopped[i])@.wf(),
            running matches Some(task) ==> task@.wf(),
        ensures
            manager@.stopped == views_of(stopped@),
            match running {
                Some(task) => manager@.running == Some(task@),
                None => manager@.running is None,
            },
            manager@.wf(),
    {
        TaskManager { stopped, running }
    }

    /// The stopped tasks in list order.
    pub fn stopped(&self) -> (tasks: &Vec<StoppedTask>)
        ensures
            views_of(tasks@) == self@.stopped,
    {
        &self.stopped
    }

    /// The running task, if there is one.
    pub fn running(&self) -> (task: Option<&RunningTask>)
        ensures
            match task {
                Some(task) => self@.running == Some(task@),
                None => self@.running is None,
            },
    {
        self.running.as_ref()
    }

    /// The name of the running task, if there is one.
    pub fn running_task(&self) -> (name: Option<&str>)
        ensures
            match self@.running {
                Some(task) => name is Some && name->0@ == task.name,
                None => name is None,
            },
    {
        match &self.running {
            Some(task) => Some(task.name()),
            None => None,
        }
    }

    /// Fails if a task is running.
    fn check_no_running_task(&self) -> (r: TaskResult<()>)
        ensures
            match self@.running {
                Some(task) => r is Err && r->Err_0@ == Failure::TaskAlreadyRunning(task.name),
                None => r is Ok,
            },
    {
        match &self.running {
            None => Ok(()),
            Some(task) => Err(TaskError::TaskAlreadyRunning(task.name_owned())),
        }
    }

    /// Whether a stopped task is called exactly `name`.
    fn has_stopped(&self, name: &String) -> (found: bool)
        ensures
            found == self@.has_stopped(name@),
    {
        let mut i: usize = 0;
        while i < self.stopped.len()
            invariant
                i <= self.stopped.len(),
                forall|k: int| 0 <= k < i ==> (#[trigger] self@.stopped[k]).name != name@,
            decreases self.stopped.len() - i,
        {
            if self.stopped[i].is_named(name) {
                assert(self@.stopped[i as int].name == name@);
                return true;
            }
            i += 1;
        }
        false
    }

    /// The index of the stopped task that has `query` in its name, if there
    /// is exactly one; `None` if there is none.
    fn index_of(&self, query: &str) -> (r: TaskResult<Option<usize>>)
        ensures
            match r {
                Err(error) => self@.lookup(query@) == Lookup::Ambiguous && error@
                    == Failure::MultipleTasksFound,
                Ok(None) => self@.lookup(query@) == Lookup::Missing,
                Ok(Some(index)) => self@.lookup(query@) == Lookup::Found(index as int) && index
                    < self@.stopped.len(),
            },
    {
        let mut found: Option<usize> = None;
        let mut i: usize = 0;
        while i < self.stopped.len()
            invariant
                i <= self.stopped.len(),
                match found {
                    Some(at) => at < i && self@.matches_at(query@, at as int) && forall|k: int|
                        0 <= k < i && k != at ==> !self@.matches_at(query@, k),
                    None => forall|k: int| 0 <= k < i ==> !self@.matches_at(query@, k),
                },
            decreases self.stopped.len() - i,
        {
            if self.stopped[i].name_contains(query) {
                assert(self@.matches_at(query@, i as int));
                if found.is_some() {
                    return Err(TaskError::MultipleTasksFound);
                }
                found = Some(i);
            }
            i += 1;
        }
        proof {
            if let Some(at) = found {
                let chosen = choose|k: int| self@.matches_at(query@, k);
                assert(self@.matches_at(query@, chosen));
            }
        }
        Ok(found)
    }

    /// Takes up a new task called `task_name` at `start` and returns its
    /// name. Fails with `TaskAlreadyRunning` if a task is running, and
    /// with `TaskAlreadyExists` if a stopped task has exactly this name.
    pub fn start_new_task(&mut self, task_name: String, start: Timestamp) -> (r: TaskResult<String>)
        requires
            old(self)@.wf(),
        ensures
            final(self)@.wf(),
            agrees(old(self)@, final(self)@, r, old(self)@.start_new_task(task_name@, start@)),
    {
        self.check_no_running_task()?;
        if self.has_stopped(&task_name) {
            return Err(TaskError::TaskAlreadyExists(task_name));
        }
        Ok(self.do_start_new_task(task_name, start))
    }

    /// Makes a new task called `task_name` the running task.
    fn do_start_new_task(&mut self, task_name: String, start: Timestamp) -> (name: String)
        requires
            old(self)@.wf(),
        ensures
            final(self)@.wf(),
            final(self)@ == old(self)@.with_new(task_name@, start@).next,
            name@ == task_name@,
    {
        let new_task = RunningTask::new(task_name.clone(), start);
        self.running = Some(new_task);
        task_name
    }

    /// Fails if `task` cannot be stopped at `now`.
    fn check_can_stop(task: &RunningTask, now: Timestamp) -> (r: TaskResult<()>)
        ensures
            task@.can_stop(now@) ==> r is Ok,
            !task@.can_stop(now@) ==> r is Err && r->Err_0@ == Failure::InvalidStopTime,
    {
        if task.can_stop(now) {
            Ok(())
        } else {
            Err(TaskError::InvalidStopTime)
        }
    }

    /// Stops the running task at `end` and returns its name. Fails with
    /// `TaskNotRunning` if no task is running, and with `InvalidStopTime`
    /// if `end` lies before the start of the task's open entry.
    pub fn stop_running_task_with_time(&mut self, end: Timestamp) -> (r: TaskResult<String>)
        requires
            old(self)@.wf(),
        ensures
            final(self)@.wf(),
            agrees(old(self)@, final(self)@, r, old(self)@.stop_running_task_with_time(end@)),
    {
        match &self.running {
            None => Err(TaskError::TaskNotRunning),
            Some(task) => {
                Self::check_can_stop(task, end)?;
                Ok(self.do_stop_running_task(end))
            },
        }
    }

    /// Moves the running task to the end of the stopped tasks, closed at `end`.
    fn do_stop_running_task(&mut self, end: Timestamp) -> (name: String)
        requires
            old(self)@.wf(),
            old(self)@.running is Some,
            old(self)@.running->0.can_stop(end@),
        ensures
            final(self)@.wf(),
            Ok::<Step, Failure>(Step { next: final(self)@, name: name@ }) == old(
                self,
            )@.stop_running_task_with_time(end@),
    {
        let task = self.running.take().unwrap();
        let name = task.name_owned();
        let ghost stopped = task@.stop(end@);
        self.stopped.push(task.stop(end));
        assert(self@.stopped =~= old(self)@.stopped.push(stopped));
        name
    }

    /// Stops the running task `duration` after the start of its open entry
    /// and returns its name. Fails with `TaskNotRunning` if no task is
    /// running, and with `InvalidStopTime` if that instant lies after `now`.
    pub fn stop_running_task_with_duration(&mut self, duration: Duration, now: Timestamp) -> (r:
        TaskResult<String>)
        requires
            old(self)@.wf(),
        ensures
            final(self)@.wf(),
            agrees(
                old(self)@,
                final(self)@,
                r,
                old(self)@.stop_running_task_with_duration(duration@, now@),
            ),
    {
        match &self.running {
            None => Err(TaskError::TaskNotRunning),
            Some(task) => {
                match task.last_start_time().checked_add(duration) {
                    None => Err(TaskError::InvalidStopTime),
                    Some(end) => {
                        if end.not_after(now) {
                            Ok(self.do_stop_running_task(end))
                        } else {
                            Err(TaskError::InvalidStopTime)
                        }
                    },
                }
            },
        }
    }

    /// Fails if the stopped task at `index` cannot be taken up at `now`.
    fn check_can_start(&self, index: usize, now: Timestamp) -> (r: TaskResult<()>)
        requires
            index < self@.stopped.len(),
        ensures
            self@.stopped[index as int].can_start(now@) ==> r is Ok,
            !self@.stopped[index as int].can_start(now@) ==> r is Err && r->Err_0@
                == Failure::InvalidStartTime,
    {
        if self.stopped[index].can_start(now) {
            Ok(())
        } else {
            Err(TaskError::InvalidStartTime)
        }
    }

    /// Takes up again at `start` the task that was stopped last and returns
    /// its name. Fails with `TaskAlreadyRunning` if a task is running, with
    /// `NoTasksFound` if there is no stopped task, and with
    /// `InvalidStartTime` if `start` lies before the task's stop time.
    pub fn resume_last_task(&mut self, start: Timestamp) -> (r: TaskResult<String>)
        requires
            old(self)@.wf(),
        ensures
            final(self)@.wf(),
            agrees(old(self)@, final(self)@, r, old(self)@.resume_last_task(start@)),
    {
        self.check_no_running_task()?;
        let len = self.stopped.len();
        if len == 0 {
            return Err(TaskError::NoTasksFound);
        }
        let index = len - 1;
        self.check_can_start(index, start)?;
        let name = self.do_resume_task(index, start);
        Ok(name)
    }

    /// Takes up again at `start` the one stopped task that has `task_name`
    /// in its name and returns its full name. Fails with
    /// `TaskAlreadyRunning` if a task is running, with `MultipleTasksFound`
    /// or `TaskNotFound` if more than one stopped task matches or none,
    /// and with `InvalidStartTime` if `start` lies before the task's stop time.
    pub fn resume_task(&mut self, task_name: String, start: Timestamp) -> (r: TaskResult<String>)
        requires
            old(self)@.wf(),
        ensures
            final(self)@.wf(),
            agrees(old(self)@, final(self)@, r, old(self)@.resume_task(task_name@, start@)),
    {
        self.check_no_running_task()?;
        match self.index_of(task_name.as_str())? {
            None => Err(TaskError::TaskNotFound(task_name)),
            Some(index) => {
                self.check_can_start(index, start)?;
                Ok(self.do_resume_task(index, start))
            },
        }
    }

    /// Makes the stopped task at `index` the running task, taken up at `start`.
    fn do_resume_task(&mut self, index: usize, start: Timestamp) -> (name: String)
        requires
            old(self)@.wf(),
            index < old(self)@.stopped.len(),
            old(self)@.stopped[index as int].can_start(start@),
        ensures
            final(self)@.wf(),
            (Step { next: final(self)@, name: name@ }) == old(self)@.with_resumed(
                index as int,
                start@,
            ),
    {
        let task = self.stopped.remove(index);
        let task_name = task.name_owned();
        self.running = Some(task.start(start));
        assert(self@.stopped =~= old(self)@.stopped.remove(index as int));
        task_name
    }

    /// Stops the running task at `now`, takes up a new task called
    /// `task_name` and returns its name. Fails with `TaskAlreadyExists` if a
    /// stopped task has exactly this name; otherwise as stopping at `now` fails.
    pub fn switch_new_task(&mut self, task_name: String, now: Timestamp) -> (r: TaskResult<String>)
        requires
            old(self)@.wf(),
        ensures
            final(self)@.wf(),
            agrees(old(self)@, final(self)@, r, old(self)@.switch_new_task(task_name@, now@)),
    {
        if self.has_stopped(&task_name) {
            return Err(TaskError::TaskAlreadyExists(task_name));
        }
        self.stop_running_task_with_time(now)?;
        let task = self.do_start_new_task(task_name, now);
        Ok(task)
    }

    /// Stops the running task at `now`, takes up again the task that was
    /// stopped last before that and returns its name. Fails with
    /// `NoTasksFound` if there is no stopped task and with `InvalidStartTime`
    /// if `now` lies before that task's stop time; otherwise as stopping at
    /// `now` fails.
    pub fn switch_last_task(&mut self, now: Timestamp) -> (r: TaskResult<String>)
        requires
            old(self)@.wf(),
        ensures
            final(self)@.wf(),
            agrees(old(self)@, final(self)@, r, old(self)@.switch_last_task(now@)),
    {
        let len = self.stopped.len();
        if len == 0 {
            return Err(TaskError::NoTasksFound);
        }
        let index = len - 1;
        self.check_can_start(index, now)?;
        self.stop_running_task_with_time(now)?;
        let task = self.do_resume_task(index, now);
        Ok(task)
    }

    /// Stops the running task at `now`, takes up again the one stopped task
    /// that has `task_name` in its name and returns its full name. Fails
    /// with `MultipleTasksFound` or `TaskNotFound` if more than one stopped
    /// task matches or none, and with `InvalidStartTime` if `now` lies before
    /// the task's stop time; otherwise as stopping at `now` fails.
    pub fn switch_task(&mut self, task_name: String, now: Timestamp) -> (r: TaskResult<String>)
        requires
            old(self)@.wf(),
        ensures
            final(self)@.wf(),
            agrees(old(self)@, final(self)@, r, old(self)@.switch_task(task_name@, now@)),
    {
        match self.index_of(task_name.as_str())? {
            None => Err(TaskError::TaskNotFound(task_name)),
            Some(index) => {
                self.check_can_start(index, now)?;
                self.stop_running_task_with_time(now)?;
                let task = self.do_resume_task(index, now);
                Ok(task)
            },
        }
    }

    /// Whether the running task has `query` in its name.
    fn running_matches(&self, query: &str) -> (b: bool)
        ensures
            b == self@.running_matches(query@),
    {
        match &self.running {
            Some(task) => task.name_contains(query),
            None => false,
        }
    }

    /// Removes the one task, stopped or running, that has `task_name` in its
    /// name and returns its full name. Fails with `MultipleTasksFound` if
    /// more than one task matches and with `TaskNotFound` if none does.
    pub fn delete_task(&mut self, task_name: String) -> (r: TaskResult<String>)
        requires
            old(self)@.wf(),
        ensures
            final(self)@.wf(),
            agrees(old(self)@, final(self)@, r, old(self)@.delete_task(task_name@)),
    {
        let index = self.index_of(task_name.as_str())?;
        let running = self.running_matches(task_name.as_str());
        match index {
            None => {
                if running {
                    let task = self.running.take().unwrap();
                    Ok(task.into_name())
                } else {
                    Err(TaskError::TaskNotFound(task_name))
                }
            },
            Some(index) => {
                if running {
                    Err(TaskError::MultipleTasksFound)
                } else {
                    let task = self.stopped.remove(index);
                    assert(self@.stopped =~= old(self)@.stopped.remove(index as int));
                    Ok(task.into_name())
                }
            },
        }
    }

    /// Gives the one task, stopped or running, that has `task_name` in its
    /// name the name `new_name`, and returns the name it had and the new
    /// one. Fails with `MultipleTasksFound` if more than one task matches
    /// and with `TaskNotFound` if none does. The new name may be that of
    /// another task.
    pub fn rename_task(&mut self, task_name: String, new_name: String) -> (r: TaskResult<
        (String, String),
    >)
        requires
            old(self)@.wf(),
        ensures
            final(self)@.wf(),
            match old(self)@.rename_task(task_name@, new_name@) {
                Ok(step) => r is Ok && r->Ok_0.0@ == step.name && r->Ok_0.1@ == new_name@
                    && final(self)@ == step.next,
                Err(failure) => r is Err && r->Err_0@ == failure && final(self)@ == old(self)@,
            },
    {
        let index = self.index_of(task_name.as_str())?;
        let running = self.running_matches(task_name.as_str());
        match index {
            None => {
                if running {
                    let mut task = self.running.take().unwrap();
                    let old_name = task.rename(new_name.clone());
                    self.running = Some(task);
                    Ok((old_name, new_name))
                } else {
                    Err(TaskError::TaskNotFound(task_name))
                }
            },
            Some(index) => {
                if running {
                    Err(TaskError::MultipleTasksFound)
                } else {
                    let mut task = self.stopped.remove(index);
                    let old_name = task.rename(new_name.clone());
                    self.stopped.insert(index, task);
                    assert(self@.stopped =~= old(self)@.stopped.update(
                        index as int,
                        old(self)@.stopped[index as int].renamed(new_name@),
                    ));
                    Ok((old_name, new_name))
                }
            },
        }
    }

    /// The names of all tasks: the stopped tasks in list order, then the
    /// running task.
    pub fn list_tasks(&self) -> (names: Vec<&str>)
        ensures
            names_of(names@) == self@.list_tasks(),
    {
        let mut tasks: Vec<&str> = Vec::new();
        let mut i: usize = 0;
        while i < self.stopped.len()
            invariant
                i <= self.stopped.len(),
                tasks@.len() == i,
                forall|k: int| 0 <= k < i ==> (#[trigger] tasks@[k])@ == self@.stopped[k].name,
            decreases self.stopped.len() - i,
        {
            tasks.push(self.stopped[i].name());
            i += 1;
        }
        if let Some(task) = &self.running {
            tasks.push(task.name());
        }
        tasks
    }
}

} // verus!
