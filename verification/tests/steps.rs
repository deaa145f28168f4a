use fabric_rust::entries::DuplicateScan;
use fabric_rust::registration::{next_step, Step};

fn run(entry_count: usize) -> Vec<Step> {
    let mut steps = vec![Step::CheckVm];
    let mut step = Step::CheckVm;
    while step != Step::Done {
        step = next_step(step, entry_count);
        steps.push(step);
    }
    steps
}

#[test]
fn registration_steps_run_in_order() {
    assert_eq!(
        run(2),
        vec![
            Step::CheckVm,
            Step::CheckEntries,
            Step::CacheLogRefs,
            Step::ResolveRegisterMethod,
            Step::Upcall(0),
            Step::Upcall(1),
            Step::Done,
        ]
    );
}

#[test]
fn an_empty_table_hands_over_nothing() {
    assert_eq!(
        run(0),
        vec![
            Step::CheckVm,
            Step::CheckEntries,
            Step::CacheLogRefs,
            Step::ResolveRegisterMethod,
            Step::Done,
        ]
    );
    assert_eq!(next_step(Step::Done, 3), Step::Done);
    assert_eq!(next_step(Step::Upcall(usize::MAX), usize::MAX), Step::Done);
}

#[test]
fn a_scan_reports_a_repeat_and_stops_there() {
    let mut scan = DuplicateScan::new();
    assert_eq!(scan.observe("init"), None);
    assert_eq!(scan.observe("tick"), None);
    assert_eq!(scan.observe("init"), Some("init"));
    assert_eq!(scan.observe("tick"), Some("tick"));
    assert_eq!(scan.observe("client_init"), None);
}

#[test]
fn a_scan_can_stop_before_the_end_of_an_endless_table() {
    let mut scan = DuplicateScan::new();
    let names = ["a", "b", "a"];
    let found = names.iter().cycle().find_map(|name| scan.observe(name));
    assert_eq!(found, Some("a"));
}
