use backups::selector::{SelectAction, Selector};

fn drive(selector: &mut Selector, outcomes: &[bool]) -> SelectAction {
    loop {
        match selector.next_action() {
            SelectAction::Probe(i) => selector.record_probe(outcomes[i]),
            action => return action,
        }
    }
}

#[test]
fn select_commits_to_the_first_ready_target() {
    let mut selector = Selector::new(4);
    let action = drive(&mut selector, &[false, false, true, true]);
    assert_eq!(action, SelectAction::Use(2));
    assert_eq!(selector.selected, Some(2));
}

#[test]
fn select_skips_predecessors_and_probes_each_exactly_once() {
    let mut selector = Selector::new(3);
    let action = drive(&mut selector, &[false, true, false]);
    assert_eq!(action, SelectAction::Use(1));
    // One probe for the unreachable target, one for the ready one, none for
    // the target after it.
    assert_eq!(selector.probe_count, 2);
}

#[test]
fn select_is_memoized_after_the_first_success() {
    let mut selector = Selector::new(2);
    let first = drive(&mut selector, &[false, true]);
    assert_eq!(first, SelectAction::Use(1));
    let probes_after_first = selector.probe_count;
    // A second and third selection in the same run answer the identical
    // target and issue no new readiness probe.
    assert_eq!(selector.next_action(), SelectAction::Use(1));
    assert_eq!(selector.next_action(), SelectAction::Use(1));
    assert_eq!(selector.probe_count, probes_after_first);
}

#[test]
fn select_on_an_empty_list_is_exhausted_at_once() {
    let selector = Selector::new(0);
    assert_eq!(selector.next_action(), SelectAction::Exhausted);
    assert_eq!(selector.probe_count, 0);
}

#[test]
fn select_with_no_ready_target_exhausts_the_list() {
    let mut selector = Selector::new(3);
    let action = drive(&mut selector, &[false, false, false]);
    assert_eq!(action, SelectAction::Exhausted);
    assert_eq!(selector.probe_count, 3);
    assert_eq!(selector.selected, None);
}
