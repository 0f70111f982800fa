use daldalso::PendingFlows;

#[test]
fn a_new_store_accepts_nothing() {
    let mut pending = PendingFlows::new(60);
    assert!(!pending.consume("a", 0));
    assert!(!pending.consume("", 0));
}

#[test]
fn an_entered_state_is_accepted_once() {
    let mut pending = PendingFlows::new(60);
    assert!(pending.begin("a", 100));
    assert!(pending.consume("a", 100));
    assert!(!pending.consume("a", 100));
}

#[test]
fn a_state_is_good_until_its_lifetime_is_over() {
    for (now, good) in [(100, true), (101, true), (159, true), (160, true), (161, false), (u64::MAX, false)] {
        let mut pending = PendingFlows::new(60);
        assert!(pending.begin("a", 100));
        assert_eq!(pending.consume("a", now), good);
    }
}

#[test]
fn a_state_is_not_good_before_it_was_entered() {
    let mut pending = PendingFlows::new(60);
    assert!(pending.begin("a", 100));
    assert!(!pending.consume("a", 99));
    // Turned away, and gone all the same.
    assert!(!pending.consume("a", 100));
}

#[test]
fn a_lifetime_of_zero_leaves_the_moment_of_entry() {
    let mut pending = PendingFlows::new(0);
    assert!(pending.begin("a", 7));
    assert!(pending.begin("b", 7));
    assert!(pending.consume("a", 7));
    assert!(!pending.consume("b", 8));
}

#[test]
fn the_longest_lifetime_never_lapses() {
    let mut pending = PendingFlows::new(u64::MAX);
    assert!(pending.begin("a", 0));
    assert!(pending.consume("a", u64::MAX));
}

#[test]
fn a_pending_state_cannot_be_entered_again() {
    let mut pending = PendingFlows::new(60);
    assert!(pending.begin("a", 100));
    assert!(!pending.begin("a", 150));
    // The first entry stands: at 170 it has lapsed, the second would not have.
    assert!(!pending.consume("a", 170));
}

#[test]
fn a_consumed_state_can_be_entered_again() {
    let mut pending = PendingFlows::new(60);
    assert!(pending.begin("a", 100));
    assert!(pending.consume("a", 110));
    assert!(pending.begin("a", 120));
    assert!(pending.consume("a", 180));
}

#[test]
fn states_do_not_disturb_each_other() {
    let mut pending = PendingFlows::new(60);
    assert!(pending.begin("a", 100));
    assert!(pending.begin("b", 130));
    assert!(pending.begin("", 140));
    assert!(pending.consume("b", 150));
    assert!(pending.consume("a", 160));
    assert!(pending.consume("", 200));
    assert!(!pending.consume("a", 160));
    assert!(!pending.consume("b", 150));
}

#[test]
fn expiring_drops_the_lapsed_states_only() {
    let mut pending = PendingFlows::new(60);
    assert!(pending.begin("old", 100));
    assert!(pending.begin("new", 150));
    assert!(pending.begin("older", 90));
    pending.expire(165);
    // A dropped state can be entered again; a kept one cannot.
    assert!(pending.begin("old", 165));
    assert!(pending.begin("older", 165));
    assert!(!pending.begin("new", 165));
    assert!(pending.consume("new", 165));
}

#[test]
fn expiring_keeps_what_is_still_good() {
    let mut pending = PendingFlows::new(60);
    assert!(pending.begin("a", 100));
    assert!(pending.begin("b", 101));
    pending.expire(160);
    assert!(pending.consume("a", 160));
    assert!(pending.consume("b", 160));
    pending.expire(1000);
    assert!(!pending.consume("a", 160));
}

#[test]
fn expiring_an_empty_store_does_nothing() {
    let mut pending = PendingFlows::new(60);
    pending.expire(0);
    pending.expire(u64::MAX);
    assert!(pending.begin("a", 1));
}
