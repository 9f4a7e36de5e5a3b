use chrono::{DateTime, Duration, Local};
use tasklog::entry::CompletedTimeEntry;
use tasklog::error::TaskError;
use tasklog::task::{RunningTask, StoppedTask};
use tasklog::task_manager::TaskManager;
use tasklog::time::Timestamp;

fn ts(t: DateTime<Local>) -> Timestamp {
    Timestamp::from_nanos(t.timestamp_nanos_opt().unwrap())
}

fn span(d: Duration) -> tasklog::time::Duration {
    tasklog::time::Duration::from_nanos(d.num_nanoseconds().unwrap() as u128)
}

#[test]
fn test_task_manager_new() {
    let task_manager = TaskManager::new();
    assert!(task_manager.stopped().is_empty());
    assert!(task_manager.running().is_none());
}

#[test]
fn test_task_manager_start_new_task_when_none_exist() {
    let mut task_manager = TaskManager::from_parts(vec![], None);
    let now = Local::now();
    let result = task_manager.start_new_task("Test".to_string(), ts(now));
    assert_eq!(task_manager.running().cloned(), Some(RunningTask::new("Test".to_string(), ts(now))));
    assert!(task_manager.stopped().is_empty());
    assert!(result.is_ok());
    let task_name = result.unwrap();
    assert_eq!(task_name, "Test");
}

#[test]
fn test_task_manager_start_new_task_when_other_exists() {
    let now = Local::now();
    let stopped_task = StoppedTask::try_new("OtherTest".to_string(), vec![], CompletedTimeEntry::new(ts(now), ts(now + Duration::minutes(10)))).unwrap();
    let mut task_manager = TaskManager::from_parts(vec![stopped_task.clone()], None);
    let result = task_manager.start_new_task("Test".to_string(), ts(now + Duration::minutes(20)));
    assert_eq!(
        task_manager.running().cloned(),
        Some(RunningTask::new("Test".to_string(), ts(now + Duration::minutes(20))))
    );
    assert_eq!(*task_manager.stopped(), vec![stopped_task]);
    assert!(result.is_ok());
    let task_name = result.unwrap();
    assert_eq!(task_name, "Test");
}

#[test]
fn test_task_manager_start_new_task_when_already_running() {
    let now = Local::now();
    let task = RunningTask::new("Test".to_string(), ts(now));
    let mut task_manager = TaskManager::from_parts(vec![], Some(task.clone()));
    let result = task_manager.start_new_task("Test2".to_string(), ts(now + Duration::minutes(10)));
    assert_eq!(task_manager.running().cloned(), Some(task));
    assert!(task_manager.stopped().is_empty());
    assert!(result.is_err());
    let error = result.unwrap_err();
    assert!(matches!(error, TaskError::TaskAlreadyRunning(name) if name == "Test"));
}

#[test]
fn test_task_manager_start_new_task_when_already_exists() {
    let now = Local::now();
    let stopped_task = StoppedTask::try_new("Test".to_string(), vec![], CompletedTimeEntry::new(ts(now), ts(now + Duration::minutes(10)))).unwrap();
    let mut task_manager = TaskManager::from_parts(vec![stopped_task.clone()], None);
    let result = task_manager.start_new_task("Test".to_string(), ts(now + Duration::minutes(20)));
    assert!(task_manager.running().is_none());
    assert_eq!(*task_manager.stopped(), vec![stopped_task]);
    assert!(result.is_err());
    let error = result.unwrap_err();
    assert!(matches!(error, TaskError::TaskAlreadyExists(name) if name == "Test"));
}

#[test]
fn test_task_manager_stop_running_task_with_time() {
    let now = Local::now();
    let task = RunningTask::new("Test".to_string(), ts(now));
    let mut task_manager = TaskManager::from_parts(vec![], Some(task.clone()));
    let result = task_manager.stop_running_task_with_time(ts(now + Duration::minutes(10)));
    assert!(task_manager.running().is_none());
    assert_eq!(
        *task_manager.stopped(),
        vec![task.stop(ts(now + Duration::minutes(10)))]
    );
    assert!(result.is_ok());
    let task_name = result.unwrap();
    assert_eq!(task_name, "Test");
}

#[test]
fn test_task_manager_stop_running_task_with_time_when_end_before_start() {
    let now = Local::now();
    let task = RunningTask::new("Test".to_string(), ts(now));
    let mut task_manager = TaskManager::from_parts(vec![], Some(task.clone()));
    let result = task_manager.stop_running_task_with_time(ts(now - Duration::minutes(10)));
    assert_eq!(task_manager.running().cloned(), Some(task));
    assert!(task_manager.stopped().is_empty());
    assert!(result.is_err());
    let error = result.unwrap_err();
    assert!(matches!(error, TaskError::InvalidStopTime));
}

#[test]
fn test_task_manager_stop_running_task_with_time_when_no_running() {
    let now = Local::now();
    let mut task_manager = TaskManager::from_parts(vec![], None);
    let result = task_manager.stop_running_task_with_time(ts(now + Duration::minutes(10)));
    assert!(task_manager.running().is_none());
    assert!(task_manager.stopped().is_empty());
    assert!(result.is_err());
    let error = result.unwrap_err();
    assert!(matches!(error, TaskError::TaskNotRunning));
}

#[test]
fn test_task_manager_stop_running_task_with_duration() {
    let now = Local::now();
    let task = RunningTask::new("Test".to_string(), ts(now));
    let mut task_manager = TaskManager::from_parts(vec![], Some(task.clone()));
    let result = task_manager
        .stop_running_task_with_duration(span(Duration::minutes(10)), ts(now + Duration::minutes(20)));
    assert!(task_manager.running().is_none());
    assert_eq!(
        *task_manager.stopped(),
        vec![task.stop(ts(now + Duration::minutes(10)))]
    );
    assert!(result.is_ok());
    let task_name = result.unwrap();
    assert_eq!(task_name, "Test");
}

#[test]
fn test_task_manager_stop_running_task_with_duration_when_no_running() {
    let now = Local::now();
    let mut task_manager = TaskManager::from_parts(vec![], None);
    let result = task_manager
        .stop_running_task_with_duration(span(Duration::minutes(10)), ts(now + Duration::minutes(20)));
    assert!(task_manager.running().is_none());
    assert!(task_manager.stopped().is_empty());
    assert!(result.is_err());
    let error = result.unwrap_err();
    assert!(matches!(error, TaskError::TaskNotRunning));
}

#[test]
fn test_task_manager_stop_running_task_with_duration_when_end_in_future() {
    let now = Local::now();
    let task = RunningTask::new("Test".to_string(), ts(now));
    let mut task_manager = TaskManager::from_parts(vec![], Some(task.clone()));
    let result = task_manager
        .stop_running_task_with_duration(span(Duration::minutes(20)), ts(now + Duration::minutes(10)));
    assert_eq!(task_manager.running().cloned(), Some(task));
    assert!(task_manager.stopped().is_empty());
    assert!(result.is_err());
    let error = result.unwrap_err();
    assert!(matches!(error, TaskError::InvalidStopTime));
}

#[test]
fn test_task_manager_resume_last_task_when_no_tasks() {
    let mut task_manager = TaskManager::from_parts(vec![], None);
    let result = task_manager.resume_last_task(ts(Local::now()));
    assert!(task_manager.running().is_none());
    assert!(task_manager.stopped().is_empty());
    assert!(result.is_err());
    let error = result.unwrap_err();
    assert!(matches!(error, TaskError::NoTasksFound));
}

#[test]
fn test_task_manager_resume_last_task_when_already_running() {
    let now = Local::now();
    let task = RunningTask::new("Test".to_string(), ts(now));
    let mut task_manager = TaskManager::from_parts(vec![], Some(task.clone()));
    let result = task_manager.resume_last_task(ts(now + Duration::minutes(10)));
    assert!(task_manager.stopped().is_empty());
    assert_eq!(task_manager.running().cloned(), Some(task));
    assert!(result.is_err());
    let error = result.unwrap_err();
    assert!(matches!(error, TaskError::TaskAlreadyRunning(name) if name == "Test"));
}

#[test]
fn test_task_manager_resume_last_task_when_none_running_and_now_before_start() {
    let now = Local::now();
    let time_entry1 = CompletedTimeEntry::new(ts(now), ts(now + Duration::minutes(5)));
    let time_entry2 =
        CompletedTimeEntry::new(ts(now + Duration::minutes(6)), ts(now + Duration::minutes(7)));
    let task1 = StoppedTask::try_new("Test1".to_string(), vec![], time_entry1.clone()).unwrap();
    let task2 = StoppedTask::try_new("Test2".to_string(), vec![], time_entry2.clone()).unwrap();
    let mut task_manager = TaskManager::from_parts(vec![task1.clone(), task2.clone()], None);
    let result = task_manager.resume_last_task(ts(now - Duration::minutes(10)));
    assert_eq!(*task_manager.stopped(), vec![task1, task2]);
    assert_eq!(task_manager.running().cloned(), None);
    assert!(result.is_err());
    let error = result.unwrap_err();
    assert!(matches!(error, TaskError::InvalidStartTime));
}

#[test]
fn test_task_manager_resume_last_task_when_none_running() {
    let now = Local::now();
    let time_entry1 = CompletedTimeEntry::new(ts(now), ts(now + Duration::minutes(5)));
    let time_entry2 =
        CompletedTimeEntry::new(ts(now + Duration::minutes(6)), ts(now + Duration::minutes(7)));
    let task1 = StoppedTask::try_new("Test1".to_string(), vec![], time_entry1.clone()).unwrap();
    let task2 = StoppedTask::try_new("Test2".to_string(), vec![], time_entry2.clone()).unwrap();
    let mut task_manager = TaskManager::from_parts(vec![task1.clone(), task2.clone()], None);
    let result = task_manager.resume_last_task(ts(now + Duration::minutes(10)));
    assert_eq!(*task_manager.stopped(), vec![task1]);
    assert_eq!(
        task_manager.running().cloned(),
        Some(task2.start(ts(now + Duration::minutes(10))))
    );
    assert!(result.is_ok());
    let task_name = result.unwrap();
    assert_eq!(task_name, "Test2");
}

#[test]
fn test_task_manager_resume_task_when_no_tasks() {
    let mut task_manager = TaskManager::from_parts(vec![], None);
    let result = task_manager.resume_task("Test".to_string(), ts(Local::now()));
    assert!(task_manager.running().is_none());
    assert!(task_manager.stopped().is_empty());
    assert!(result.is_err());
    let error = result.unwrap_err();
    assert!(matches!(error, TaskError::TaskNotFound(name) if name == "Test"));
}

#[test]
fn test_task_manager_resume_task_when_already_running() {
    let now = Local::now();
    let task = RunningTask::new("Test".to_string(), ts(now));
    let mut task_manager = TaskManager::from_parts(vec![], Some(task.clone()));
    let result = task_manager.resume_task("Test".to_string(), ts(now + Duration::minutes(10)));
    assert!(task_manager.stopped().is_empty());
    assert_eq!(task_manager.running().cloned(), Some(task));
    assert!(result.is_err());
    let error = result.unwrap_err();
    assert!(matches!(error, TaskError::TaskAlreadyRunning(name) if name == "Test"));
}

#[test]
fn test_task_manager_resume_task_when_none_running() {
    let now = Local::now();
    let time_entry1 = CompletedTimeEntry::new(ts(now), ts(now + Duration::minutes(5)));
    let time_entry2 =
        CompletedTimeEntry::new(ts(now + Duration::minutes(6)), ts(now + Duration::minutes(7)));
    let task1 = StoppedTask::try_new("Test10".to_string(), vec![], time_entry1.clone()).unwrap();
    let task2 = StoppedTask::try_new("Test2".to_string(), vec![], time_entry2.clone()).unwrap();
    let mut task_manager = TaskManager::from_parts(vec![task1.clone(), task2.clone()], None);
    let result = task_manager.resume_task("Test1".to_string(), ts(now + Duration::minutes(10)));
    assert_eq!(*task_manager.stopped(), vec![task2]);
    assert_eq!(
        task_manager.running().cloned(),
        Some(task1.start(ts(now + Duration::minutes(10))))
    );
    assert!(result.is_ok());
    let task_name = result.unwrap();
    assert_eq!(task_name, "Test10");
}

#[test]
fn test_task_manager_resume_task_when_none_running_and_now_before_start() {
    let now = Local::now();
    let time_entry1 = CompletedTimeEntry::new(ts(now), ts(now + Duration::minutes(5)));
    let time_entry2 =
        CompletedTimeEntry::new(ts(now + Duration::minutes(6)), ts(now + Duration::minutes(7)));
    let task1 = StoppedTask::try_new("Test10".to_string(), vec![], time_entry1.clone()).unwrap();
    let task2 = StoppedTask::try_new("Test2".to_string(), vec![], time_entry2.clone()).unwrap();
    let mut task_manager = TaskManager::from_parts(vec![task1.clone(), task2.clone()], None);
    let result = task_manager.resume_task("Test1".to_string(), ts(now - Duration::minutes(10)));
    assert_eq!(*task_manager.stopped(), vec![task1, task2]);
    assert_eq!(task_manager.running().cloned(), None);
    assert!(result.is_err());
    let error = result.unwrap_err();
    assert!(matches!(error, TaskError::InvalidStartTime));
}

#[test]
fn test_task_manager_resume_task_when_none_running_and_ambiguous_name() {
    let now = Local::now();
    let time_entry1 = CompletedTimeEntry::new(ts(now), ts(now + Duration::minutes(5)));
    let time_entry2 =
        CompletedTimeEntry::new(ts(now + Duration::minutes(6)), ts(now + Duration::minutes(7)));
    let task1 = StoppedTask::try_new("Test1".to_string(), vec![], time_entry1.clone()).unwrap();
    let task2 = StoppedTask::try_new("Test2".to_string(), vec![], time_entry2.clone()).unwrap();
    let mut task_manager = TaskManager::from_parts(vec![task1.clone(), task2.clone()], None);
    let result = task_manager.resume_task("Test".to_string(), ts(now + Duration::minutes(10)));
    assert_eq!(*task_manager.stopped(), vec![task1, task2]);
    assert_eq!(task_manager.running().cloned(), None);
    assert!(result.is_err());
    let error = result.unwrap_err();
    assert!(matches!(error, TaskError::MultipleTasksFound));
}

#[test]
fn test_task_manager_switch_new_task_when_none_running() {
    let mut task_manager = TaskManager::from_parts(vec![], None);
    let result = task_manager.switch_new_task("Test".to_string(), ts(Local::now()));
    assert!(task_manager.running().is_none());
    assert!(task_manager.stopped().is_empty());
    assert!(result.is_err());
    let error = result.unwrap_err();
    assert!(matches!(error, TaskError::TaskNotRunning));
}

#[test]
fn test_task_manager_switch_new_task_when_already_exists() {
    let now = Local::now();
    let task1 = StoppedTask::try_new("Test".to_string(), vec![], CompletedTimeEntry::new(ts(now), ts(now + Duration::minutes(10)))).unwrap();
    let task2 = RunningTask::new("Test2".to_string(), ts(now + Duration::minutes(15)));
    let mut task_manager = TaskManager::from_parts(vec![task1.clone()], Some(task2.clone()));
    let result = task_manager.switch_new_task("Test".to_string(), ts(now + Duration::minutes(20)));
    assert_eq!(task_manager.running().cloned(), Some(task2));
    assert_eq!(*task_manager.stopped(), vec![task1]);
    assert!(result.is_err());
    let error = result.unwrap_err();
    assert!(matches!(error, TaskError::TaskAlreadyExists(name) if name == "Test"));
}

#[test]
fn test_task_manager_switch_new_task_when_not_exists() {
    let now = Local::now();
    let task1 = StoppedTask::try_new("Test1".to_string(), vec![], CompletedTimeEntry::new(ts(now), ts(now + Duration::minutes(10)))).unwrap();
    let task2 = RunningTask::new("Test2".to_string(), ts(now + Duration::minutes(15)));
    let mut task_manager = TaskManager::from_parts(vec![task1.clone()], Some(task2.clone()));
    let result = task_manager.switch_new_task("Test".to_string(), ts(now + Duration::minutes(20)));
    assert_eq!(
        task_manager.running().cloned(),
        Some(RunningTask::new("Test".to_string(), ts(now + Duration::minutes(20))))
    );
    assert_eq!(
        *task_manager.stopped(),
        vec![task1, task2.stop(ts(now + Duration::minutes(20)))]
    );
    assert!(result.is_ok());
    let task_name = result.unwrap();
    assert_eq!(task_name, "Test");
}

#[test]
fn test_task_manager_switch_last_task_when_no_tasks() {
    let mut task_manager = TaskManager::from_parts(vec![], None);
    let result = task_manager.switch_last_task(ts(Local::now()));
    assert!(task_manager.running().is_none());
    assert!(task_manager.stopped().is_empty());
    assert!(result.is_err());
    let error = result.unwrap_err();
    assert!(matches!(error, TaskError::NoTasksFound));
}

#[test]
fn test_task_manager_switch_last_task_when_none_running() {
    let now = Local::now();
    let task = StoppedTask::try_new("Test".to_string(), vec![], CompletedTimeEntry::new(ts(now), ts(now + Duration::minutes(10)))).unwrap();
    let mut task_manager = TaskManager::from_parts(vec![task.clone()], None);
    let result = task_manager.switch_last_task(ts(now + Duration::minutes(20)));
    assert!(task_manager.running().is_none());
    assert_eq!(*task_manager.stopped(), vec![task]);
    assert!(result.is_err());
    let error = result.unwrap_err();
    assert!(matches!(error, TaskError::TaskNotRunning));
}

#[test]
fn test_task_manager_switch_last_task_when_none_stopped() {
    let now = Local::now();
    let task = RunningTask::new("Test".to_string(), ts(now));
    let mut task_manager = TaskManager::from_parts(vec![], Some(task.clone()));
    let result = task_manager.switch_last_task(ts(now + Duration::minutes(20)));
    assert_eq!(task_manager.running().cloned(), Some(task));
    assert!(task_manager.stopped().is_empty());
    assert!(result.is_err());
    let error = result.unwrap_err();
    assert!(matches!(error, TaskError::NoTasksFound));
}

#[test]
fn test_task_manager_switch_last_task() {
    let now = Local::now();
    let task1 = StoppedTask::try_new("Test1".to_string(), vec![], CompletedTimeEntry::new(ts(now), ts(now + Duration::minutes(10)))).unwrap();
    let task2 = RunningTask::new("Test2".to_string(), ts(now + Duration::minutes(15)));
    let mut task_manager = TaskManager::from_parts(vec![task1.clone()], Some(task2.clone()));
    let result = task_manager.switch_last_task(ts(now + Duration::minutes(20)));
    assert_eq!(
        task_manager.running().cloned(),
        Some(task1.start(ts(now + Duration::minutes(20))))
    );
    assert_eq!(
        *task_manager.stopped(),
        vec![task2.stop(ts(now + Duration::minutes(20)))]
    );
    assert!(result.is_ok());
    let task_name = result.unwrap();
    assert_eq!(task_name, "Test1");
}

#[test]
fn test_task_manager_switch_last_task_when_before_start() {
    let now = Local::now();
    let task1 = StoppedTask::try_new("Test1".to_string(), vec![], CompletedTimeEntry::new(ts(now), ts(now + Duration::minutes(10)))).unwrap();
    let task2 = RunningTask::new("Test2".to_string(), ts(now + Duration::minutes(15)));
    let mut task_manager = TaskManager::from_parts(vec![task1.clone()], Some(task2.clone()));
    let result = task_manager.switch_last_task(ts(now + Duration::minutes(12)));
    assert_eq!(task_manager.running().cloned(), Some(task2));
    assert_eq!(*task_manager.stopped(), vec![task1]);
    assert!(result.is_err());
    let error = result.unwrap_err();
    assert!(matches!(error, TaskError::InvalidStopTime));
}

#[test]
fn test_task_manager_switch_last_task_when_before_end() {
    let now = Local::now();
    let task1 = StoppedTask::try_new("Test1".to_string(), vec![], CompletedTimeEntry::new(ts(now), ts(now + Duration::minutes(15)))).unwrap();
    let task2 = RunningTask::new("Test2".to_string(), ts(now + Duration::minutes(10)));
    let mut task_manager = TaskManager::from_parts(vec![task1.clone()], Some(task2.clone()));
    let result = task_manager.switch_last_task(ts(now + Duration::minutes(12)));
    assert_eq!(task_manager.running().cloned(), Some(task2));
    assert_eq!(*task_manager.stopped(), vec![task1]);
    assert!(result.is_err());
    let error = result.unwrap_err();
    assert!(matches!(error, TaskError::InvalidStartTime));
}

#[test]
fn test_task_manager_switch_task_when_not_exists() {
    let mut task_manager = TaskManager::from_parts(vec![], None);
    let result = task_manager.switch_task("Test".to_string(), ts(Local::now()));
    assert!(task_manager.running().is_none());
    assert!(task_manager.stopped().is_empty());
    assert!(result.is_err());
    let error = result.unwrap_err();
    assert!(matches!(error, TaskError::TaskNotFound(name) if name == "Test"));
}

#[test]
fn test_task_manager_switch_task_when_none_running() {
    let now = Local::now();
    let stopped_task = StoppedTask::try_new("Test".to_string(), vec![], CompletedTimeEntry::new(ts(now), ts(now + Duration::minutes(10)))).unwrap();
    let mut task_manager = TaskManager::from_parts(vec![stopped_task.clone()], None);
    let result = task_manager.switch_task("Test".to_string(), ts(now + Duration::minutes(20)));
    assert!(task_manager.running().is_none());
    assert_eq!(*task_manager.stopped(), vec![stopped_task]);
    assert!(result.is_err());
    let error = result.unwrap_err();
    assert!(matches!(error, TaskError::TaskNotRunning));
}

#[test]
fn test_task_manager_switch_task_when_already_running() {
    let now = Local::now();
    let task1 = StoppedTask::try_new("Test1".to_string(), vec![], CompletedTimeEntry::new(ts(now), ts(now + Duration::minutes(5)))).unwrap();
    let task2 = StoppedTask::try_new("Test2".to_string(), vec![], CompletedTimeEntry::new(ts(now + Duration::minutes(5)), ts(now + Duration::minutes(10)))).unwrap();
    let task3 = RunningTask::new("Test3".to_string(), ts(now + Duration::minutes(15)));
    let mut task_manager = TaskManager::from_parts(vec![task1.clone(), task2.clone()], Some(task3.clone()));
    let result = task_manager.switch_task("Test3".to_string(), ts(now + Duration::minutes(20)));
    assert_eq!(task_manager.running().cloned(), Some(task3));
    assert_eq!(*task_manager.stopped(), vec![task1, task2]);
    assert!(result.is_err());
    let error = result.unwrap_err();
    assert!(matches!(error, TaskError::TaskNotFound(name) if name == "Test3"));
}

#[test]
fn test_task_manager_switch_task_when_other_running() {
    let now = Local::now();
    let task1 = StoppedTask::try_new("Test1".to_string(), vec![], CompletedTimeEntry::new(ts(now), ts(now + Duration::minutes(5)))).unwrap();
    let task2 = StoppedTask::try_new("Test2".to_string(), vec![], CompletedTimeEntry::new(ts(now + Duration::minutes(5)), ts(now + Duration::minutes(10)))).unwrap();
    let task3 = RunningTask::new("Test3".to_string(), ts(now + Duration::minutes(15)));
    let mut task_manager = TaskManager::from_parts(vec![task1.clone(), task2.clone()], Some(task3.clone()));
    let result = task_manager.switch_task("Test1".to_string(), ts(now + Duration::minutes(20)));
    assert_eq!(
        task_manager.running().cloned(),
        Some(task1.start(ts(now + Duration::minutes(20))))
    );
    assert_eq!(
        *task_manager.stopped(),
        vec![task2, task3.stop(ts(now + Duration::minutes(20)))]
    );
    assert!(result.is_ok());
    let task_name = result.unwrap();
    assert_eq!(task_name, "Test1");
}

#[test]
fn test_task_manager_switch_task_when_other_running_when_before_start() {
    let now = Local::now();
    let task1 = StoppedTask::try_new("Test1".to_string(), vec![], CompletedTimeEntry::new(ts(now), ts(now + Duration::minutes(5)))).unwrap();
    let task2 = RunningTask::new("Test2".to_string(), ts(now + Duration::minutes(15)));
    let mut task_manager = TaskManager::from_parts(vec![task1.clone()], Some(task2.clone()));
    let result = task_manager.switch_task("Test1".to_string(), ts(now + Duration::minutes(10)));
    assert_eq!(task_manager.running().cloned(), Some(task2));
    assert_eq!(*task_manager.stopped(), vec![task1]);
    assert!(result.is_err());
    let error = result.unwrap_err();
    assert!(matches!(error, TaskError::InvalidStopTime));
}

#[test]
fn test_task_manager_switch_task_when_other_running_when_before_end() {
    let now = Local::now();
    let task1 = StoppedTask::try_new("Test1".to_string(), vec![], CompletedTimeEntry::new(ts(now), ts(now + Duration::minutes(15)))).unwrap();
    let task2 = RunningTask::new("Test2".to_string(), ts(now + Duration::minutes(5)));
    let mut task_manager = TaskManager::from_parts(vec![task1.clone()], Some(task2.clone()));
    let result = task_manager.switch_task("Test1".to_string(), ts(now + Duration::minutes(10)));
    assert_eq!(task_manager.running().cloned(), Some(task2));
    assert_eq!(*task_manager.stopped(), vec![task1]);
    assert!(result.is_err());
    let error = result.unwrap_err();
    assert!(matches!(error, TaskError::InvalidStartTime));
}

#[test]
fn test_task_manager_switch_task_when_ambiguous_name1() {
    let now = Local::now();
    let task1 = StoppedTask::try_new("Test1".to_string(), vec![], CompletedTimeEntry::new(ts(now), ts(now + Duration::minutes(5)))).unwrap();
    let task2 = StoppedTask::try_new("Test2".to_string(), vec![], CompletedTimeEntry::new(ts(now + Duration::minutes(5)), ts(now + Duration::minutes(10)))).unwrap();
    let task3 = RunningTask::new("Abc".to_string(), ts(now + Duration::minutes(15)));
    let mut task_manager = TaskManager::from_parts(vec![task1.clone(), task2.clone()], Some(task3.clone()));
    let result = task_manager.switch_task("Test".to_string(), ts(now + Duration::minutes(20)));
    assert_eq!(task_manager.running().cloned(), Some(task3));
    assert_eq!(*task_manager.stopped(), vec![task1, task2]);
    assert!(result.is_err());
    let error = result.unwrap_err();
    assert!(matches!(error, TaskError::MultipleTasksFound));
}

#[test]
fn test_task_manager_switch_task_when_ambiguous_name2() {
    let now = Local::now();
    let task1 = StoppedTask::try_new("Test1".to_string(), vec![], CompletedTimeEntry::new(ts(now), ts(now + Duration::minutes(5)))).unwrap();
    let task2 = StoppedTask::try_new("Abc".to_string(), vec![], CompletedTimeEntry::new(ts(now + Duration::minutes(5)), ts(now + Duration::minutes(10)))).unwrap();
    let task3 = RunningTask::new("Test2".to_string(), ts(now + Duration::minutes(15)));
    let mut task_manager = TaskManager::from_parts(vec![task1.clone(), task2.clone()], Some(task3.clone()));
    let result = task_manager.switch_task("Test".to_string(), ts(now + Duration::minutes(20)));
    assert_eq!(
        task_manager.running().cloned(),
        Some(task1.start(ts(now + Duration::minutes(20))))
    );
    assert_eq!(
        *task_manager.stopped(),
        vec![task2, task3.stop(ts(now + Duration::minutes(20)))]
    );
    assert!(result.is_ok());
    let task_name = result.unwrap();
    assert_eq!(task_name, "Test1");
}

#[test]
fn test_task_manager_list_when_no_tasks() {
    let task_manager = TaskManager::from_parts(vec![], None);
    let result = task_manager.list_tasks();
    assert!(result.is_empty());
}

#[test]
fn test_task_manager_list_when_tasks() {
    let now = Local::now();
    let task1 = StoppedTask::try_new("Test1".to_string(), vec![], CompletedTimeEntry::new(ts(now), ts(now + Duration::minutes(5)))).unwrap();
    let task2 = StoppedTask::try_new("Test2".to_string(), vec![], CompletedTimeEntry::new(ts(now + Duration::minutes(5)), ts(now + Duration::minutes(10)))).unwrap();
    let task3 = RunningTask::new("Test3".to_string(), ts(now + Duration::minutes(15)));
    let task_manager = TaskManager::from_parts(vec![task1.clone(), task2.clone()], Some(task3.clone()));
    let result = task_manager.list_tasks();
    assert_eq!(result, vec!["Test1", "Test2", "Test3"]);
}

#[test]
fn test_task_manager_rename_task_when_no_match() {
    let now = Local::now();
    let task1 = StoppedTask::try_new("Test1".to_string(), vec![], CompletedTimeEntry::new(ts(now), ts(now + Duration::minutes(5)))).unwrap();
    let task2 = RunningTask::new("Test2".to_string(), ts(now + Duration::minutes(15)));
    let mut task_manager = TaskManager::from_parts(vec![task1.clone()], Some(task2.clone()));
    let result = task_manager.rename_task("Abc".to_string(), "Test".to_string());
    assert_eq!(task_manager.running().cloned(), Some(task2));
    assert_eq!(*task_manager.stopped(), vec![task1]);
    assert!(result.is_err());
    let error = result.unwrap_err();
    assert!(matches!(error, TaskError::TaskNotFound(_)));
}

#[test]
fn test_task_manager_rename_task_when_stopped() {
    let now = Local::now();
    let mut task1 = StoppedTask::try_new("Test10".to_string(), vec![], CompletedTimeEntry::new(ts(now), ts(now + Duration::minutes(5)))).unwrap();
    let task2 = RunningTask::new("Test2".to_string(), ts(now + Duration::minutes(15)));
    let mut task_manager = TaskManager::from_parts(vec![task1.clone()], Some(task2.clone()));
    let result = task_manager.rename_task("Test1".to_string(), "Test".to_string());
    task1.rename("Test".to_string());
    assert_eq!(task_manager.running().cloned(), Some(task2));
    assert_eq!(*task_manager.stopped(), vec![task1]);
    assert!(result.is_ok());
    let (old, new) = result.unwrap();
    assert_eq!("Test10", old);
    assert_eq!("Test", new);
}

#[test]
fn test_task_manager_rename_task_when_running() {
    let now = Local::now();
    let task1 = StoppedTask::try_new("Test1".to_string(), vec![], CompletedTimeEntry::new(ts(now), ts(now + Duration::minutes(5)))).unwrap();
    let mut task2 = RunningTask::new("Test20".to_string(), ts(now + Duration::minutes(15)));
    let mut task_manager = TaskManager::from_parts(vec![task1.clone()], Some(task2.clone()));
    let result = task_manager.rename_task("Test2".to_string(), "Test".to_string());
    task2.rename("Test".to_string());
    assert_eq!(task_manager.running().cloned(), Some(task2));
    assert_eq!(*task_manager.stopped(), vec![task1]);
    assert!(result.is_ok());
    let (old, new) = result.unwrap();
    assert_eq!("Test20", old);
    assert_eq!("Test", new);
}

#[test]
fn test_task_manager_rename_task_when_ambiguous_name1() {
    let now = Local::now();
    let task1 = StoppedTask::try_new("Test1".to_string(), vec![], CompletedTimeEntry::new(ts(now), ts(now + Duration::minutes(5)))).unwrap();
    let task2 = StoppedTask::try_new("Test2".to_string(), vec![], CompletedTimeEntry::new(ts(now + Duration::minutes(5)), ts(now + Duration::minutes(10)))).unwrap();
    let mut task_manager = TaskManager::from_parts(vec![task1.clone(), task2.clone()], None);
    let result = task_manager.rename_task("Test".to_string(), "Abc".to_string());
    assert_eq!(task_manager.running().cloned(), None);
    assert_eq!(*task_manager.stopped(), vec![task1, task2]);
    assert!(result.is_err());
    let error = result.unwrap_err();
    assert!(matches!(error, TaskError::MultipleTasksFound));
}

#[test]
fn test_task_manager_rename_task_when_ambiguous_name2() {
    let now = Local::now();
    let task1 = StoppedTask::try_new("Test1".to_string(), vec![], CompletedTimeEntry::new(ts(now), ts(now + Duration::minutes(5)))).unwrap();
    let task2 = RunningTask::new("Test2".to_string(), ts(now + Duration::minutes(15)));
    let mut task_manager = TaskManager::from_parts(vec![task1.clone()], Some(task2.clone()));
    let result = task_manager.rename_task("Test".to_string(), "Abc".to_string());
    assert_eq!(task_manager.running().cloned(), Some(task2));
    assert_eq!(*task_manager.stopped(), vec![task1]);
    assert!(result.is_err());
    let error = result.unwrap_err();
    assert!(matches!(error, TaskError::MultipleTasksFound));
}

#[test]
fn test_task_manager_delete_task_when_no_match() {
    let now = Local::now();
    let task1 = StoppedTask::try_new("Test1".to_string(), vec![], CompletedTimeEntry::new(ts(now), ts(now + Duration::minutes(5)))).unwrap();
    let task2 = RunningTask::new("Test2".to_string(), ts(now + Duration::minutes(15)));
    let mut task_manager = TaskManager::from_parts(vec![task1.clone()], Some(task2.clone()));
    let result = task_manager.delete_task("Abc".to_string());
    assert_eq!(task_manager.running().cloned(), Some(task2));
    assert_eq!(*task_manager.stopped(), vec![task1]);
    assert!(result.is_err());
    let error = result.unwrap_err();
    assert!(matches!(error, TaskError::TaskNotFound(_)));
}

#[test]
fn test_task_manager_delete_task_when_stopped() {
    let now = Local::now();
    let mut task1 = StoppedTask::try_new("Test10".to_string(), vec![], CompletedTimeEntry::new(ts(now), ts(now + Duration::minutes(5)))).unwrap();
    let task2 = RunningTask::new("Test2".to_string(), ts(now + Duration::minutes(15)));
    let mut task_manager = TaskManager::from_parts(vec![task1.clone()], Some(task2.clone()));
    let result = task_manager.delete_task("Test1".to_string());
    task1.rename("Test".to_string());
    assert_eq!(task_manager.running().cloned(), Some(task2));
    assert_eq!(*task_manager.stopped(), vec![]);
    assert!(result.is_ok());
    let task_name = result.unwrap();
    assert_eq!("Test10", task_name);
}

#[test]
fn test_task_manager_delete_task_when_running() {
    let now = Local::now();
    let task1 = StoppedTask::try_new("Test1".to_string(), vec![], CompletedTimeEntry::new(ts(now), ts(now + Duration::minutes(5)))).unwrap();
    let mut task2 = RunningTask::new("Test20".to_string(), ts(now + Duration::minutes(15)));
    let mut task_manager = TaskManager::from_parts(vec![task1.clone()], Some(task2.clone()));
    let result = task_manager.delete_task("Test2".to_string());
    task2.rename("Test".to_string());
    assert_eq!(task_manager.running().cloned(), None);
    assert_eq!(*task_manager.stopped(), vec![task1]);
    assert!(result.is_ok());
    let task_name = result.unwrap();
    assert_eq!("Test20", task_name);
}

#[test]
fn test_task_manager_delete_task_when_ambiguous_name1() {
    let now = Local::now();
    let task1 = StoppedTask::try_new("Test1".to_string(), vec![], CompletedTimeEntry::new(ts(now), ts(now + Duration::minutes(5)))).unwrap();
    let task2 = StoppedTask::try_new("Test2".to_string(), vec![], CompletedTimeEntry::new(ts(now + Duration::minutes(5)), ts(now + Duration::minutes(10)))).unwrap();
    let mut task_manager = TaskManager::from_parts(vec![task1.clone(), task2.clone()], None);
    let result = task_manager.delete_task("Test".to_string());
    assert_eq!(task_manager.running().cloned(), None);
    assert_eq!(*task_manager.stopped(), vec![task1, task2]);
    assert!(result.is_err());
    let error = result.unwrap_err();
    assert!(matches!(error, TaskError::MultipleTasksFound));
}

#[test]
fn test_task_manager_delete_task_when_ambiguous_name2() {
    let now = Local::now();
    let task1 = StoppedTask::try_new("Test1".to_string(), vec![], CompletedTimeEntry::new(ts(now), ts(now + Duration::minutes(5)))).unwrap();
    let task2 = RunningTask::new("Test2".to_string(), ts(now + Duration::minutes(15)));
    let mut task_manager = TaskManager::from_parts(vec![task1.clone()], Some(task2.clone()));
    let result = task_manager.delete_task("Test".to_string());
    assert_eq!(task_manager.running().cloned(), Some(task2));
    assert_eq!(*task_manager.stopped(), vec![task1]);
    assert!(result.is_err());
    let error = result.unwrap_err();
    assert!(matches!(error, TaskError::MultipleTasksFound));
}

