use embassy_mock::executor::{MockSpawner, MockSpawnerError, Spawner};

/// Stands in for the opaque unit of work a task function returns: dropping
/// it panics, as the real token's destructor does, so these tests also fail
/// if the mock ever destroys — rather than discards — what it intercepts.
struct ExampleTask;

impl Drop for ExampleTask {
    fn drop(&mut self) {
        panic!("a unit of work handed to the mock spawner must not be dropped");
    }
}

#[test]
fn can_spawn_single_task_just_drop() {
    let mut spawner = MockSpawner::expect(1);
    spawner.spawn(ExampleTask).unwrap();
}

#[test]
fn can_spawn_multiple_tasks_just_drop() {
    let mut spawner = MockSpawner::expect(3);
    spawner.spawn(ExampleTask).unwrap();
    spawner.spawn(ExampleTask).unwrap();
    spawner.spawn(ExampleTask).unwrap();
}

#[test]
#[should_panic(expected = "expected to spawn 1 task(s), actually spawned 3")]
fn spawn_too_many_tasks_just_drop() {
    let mut spawner = MockSpawner::expect(1);
    spawner.spawn(ExampleTask).unwrap();
    spawner.spawn(ExampleTask).unwrap();
    spawner.spawn(ExampleTask).unwrap();
}

#[test]
#[should_panic(expected = "expected to spawn 3 task(s), actually spawned 1")]
fn spawn_too_few_tasks_just_drop() {
    let mut spawner = MockSpawner::expect(3);
    spawner.spawn(ExampleTask).unwrap();
}

#[test]
fn executor_done_returns_ok() {
    let mut spawner = MockSpawner::expect(1);
    spawner.spawn(ExampleTask).unwrap();

    let res = spawner.done();

    assert_eq!(res, Ok(()));
}

#[test]
fn executor_done_returns_err_does_not_panic_on_drop() {
    let mut spawner = MockSpawner::expect(3);
    spawner.spawn(ExampleTask).unwrap();

    let res = spawner.done();

    let expected = Err(MockSpawnerError::WrongNumberOfTasks {
        expected: 3,
        actual: 1,
    });
    assert_eq!(res, expected);
}
