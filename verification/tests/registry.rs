use courtyard::drain::Drain;
use courtyard::registry::{not_running_text, Cancel, JobRegistry};
use courtyard::supervisor::{outcome_of, Exit, JobKind, JobOutcome};

#[test]
fn cancelling_an_unknown_job_is_not_found() {
    let mut r = JobRegistry::new();
    assert!(matches!(r.cancel("nobody"), Cancel::NotFound));
    assert_eq!(r.len(), 0);
    r.register("a", 10);
    assert!(matches!(r.cancel("b"), Cancel::NotFound));
    assert_eq!(r.lookup("a"), Some(10));
}

#[test]
fn cancelling_a_known_job_removes_it_and_names_both_targets() {
    let mut r = JobRegistry::new();
    assert!(r.register("job-1", 4242));
    match r.cancel("job-1") {
        Cancel::SignalSent(t) => {
            assert_eq!(t.direct, 4242);
            assert_eq!(t.group, -4242);
        }
        Cancel::NotFound => panic!("the job was registered"),
    }
    assert_eq!(r.lookup("job-1"), None);
    assert!(matches!(r.cancel("job-1"), Cancel::NotFound));
    assert!(matches!(outcome_of(JobKind::Training, &Drain::new(), Exit::Signal), JobOutcome::Cancelled));
}

#[test]
fn the_registry_holds_one_entry_for_each_job() {
    let mut r = JobRegistry::new();
    assert!(r.register("a", 1));
    assert!(r.register("b", 2));
    assert!(r.register("a", 3));
    assert_eq!(r.len(), 2);
    assert_eq!(r.lookup("a"), Some(3));
    assert_eq!(r.lookup("b"), Some(2));
    assert!(r.remove("a"));
    assert!(!r.remove("a"));
    assert_eq!(r.len(), 1);
}

#[test]
fn process_ids_that_cannot_be_signalled_are_not_entered() {
    let mut r = JobRegistry::new();
    assert!(!r.register("zero", 0));
    assert!(!r.register("huge", 2147483648));
    assert!(!r.register("max", u32::MAX));
    assert_eq!(r.len(), 0);
    assert!(r.register("edge", 2147483647));
    match r.cancel("edge") {
        Cancel::SignalSent(t) => {
            assert_eq!(t.direct, i32::MAX);
            assert_eq!(t.group, -i32::MAX);
        }
        Cancel::NotFound => panic!("the job was registered"),
    }
}

#[test]
fn what_is_said_of_a_job_that_is_not_running() {
    assert_eq!(not_running_text(JobKind::Dataset), "No generation process running");
    assert_eq!(not_running_text(JobKind::Training), "Training process not found or already finished");
    assert_eq!(not_running_text(JobKind::ExportGguf), "Export process not found or already finished");
}
