use libinput_scroll_shim::LookupStep;
use libinput_scroll_shim::lookup_advance;
use libinput_scroll_shim::lookup_start;
use libinput_scroll_shim::soname_candidates;

#[test]
fn search_starts_with_the_skip_self_query() {
    assert_eq!(lookup_start(), LookupStep::TryNext);
}

#[test]
fn skip_self_success_resolves_immediately() {
    let step = lookup_advance(lookup_start(), Some(0x1000), 4);
    assert_eq!(step, LookupStep::Resolved { addr: 0x1000 });
}

#[test]
fn skip_self_failure_falls_back_to_first_candidate() {
    let step = lookup_advance(lookup_start(), None, 4);
    assert_eq!(step, LookupStep::TryCandidate { idx: 0 });
}

#[test]
fn candidates_are_tried_in_order_until_one_succeeds() {
    let mut step = lookup_advance(lookup_start(), None, 4);
    step = lookup_advance(step, None, 4);
    assert_eq!(step, LookupStep::TryCandidate { idx: 1 });
    step = lookup_advance(step, Some(0x2000), 4);
    assert_eq!(step, LookupStep::Resolved { addr: 0x2000 });
}

#[test]
fn exhausting_all_candidates_ends_unresolved() {
    let mut step = lookup_start();
    for _ in 0..5 {
        step = lookup_advance(step, None, 4);
    }
    assert_eq!(step, LookupStep::NotFound);
}

#[test]
fn no_candidates_means_skip_self_failure_is_final() {
    let step = lookup_advance(lookup_start(), None, 0);
    assert_eq!(step, LookupStep::NotFound);
}

#[test]
fn candidate_list_is_ordered_most_recent_first() {
    let names = soname_candidates();
    assert_eq!(
        names,
        vec!["libinput.so.10", "libinput.so.9", "libinput.so.8", "libinput.so"]
    );
}
