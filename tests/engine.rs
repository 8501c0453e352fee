use std::collections::BTreeSet;

use ipblacklist::config::NftablesConfig;
use ipblacklist::database::StoreOp;
use ipblacklist::engine::{status_code, ErrorKind, Event, Operation, Outcome, Request, Step};
use ipblacklist::nftables::{SetAction, SetCommand};
use ipblacklist::reconcile::{Startup, StartupEvent};

const SECRET: &[u8] = b"s3cret-token";

fn nft() -> NftablesConfig {
    NftablesConfig { set_table: "filter".to_string(), set_name: "blacklist".to_string() }
}

fn ip(a: u8, b: u8, c: u8, d: u8) -> u32 {
    u32::from_be_bytes([a, b, c, d])
}

/// In-memory stand-ins for the durable record and the firewall set.
#[derive(Default, Clone, Debug, PartialEq)]
struct World {
    store: BTreeSet<u32>,
    enforced: BTreeSet<u32>,
    store_ops: usize,
    enforce_ops: usize,
    fail_store: bool,
    fail_enforce: bool,
}

impl World {
    fn apply_enforce(&mut self, c: &SetCommand) -> bool {
        assert_eq!(c.table, "filter");
        assert_eq!(c.set, "blacklist");
        self.enforce_ops += 1;
        if self.fail_enforce {
            return false;
        }
        match c.action {
            SetAction::Flush => self.enforced.clear(),
            SetAction::AddElements => self.enforced.extend(c.elements.iter().copied()),
            SetAction::DeleteElements => {
                for a in &c.elements {
                    self.enforced.remove(a);
                }
            }
        }
        true
    }

    fn request(&mut self, op: Operation, addr: u32, presented: Option<&[u8]>) -> Outcome {
        let (mut req, mut step) = Request::begin(op, addr, presented, SECRET);
        loop {
            let event = match &step {
                Step::Finish(o) => return *o,
                Step::Store(sop) => {
                    self.store_ops += 1;
                    if self.fail_store {
                        Event::StoreFailed
                    } else {
                        match *sop {
                            StoreOp::Insert(a) => {
                                self.store.insert(a);
                                Event::StoreDone
                            }
                            StoreOp::Delete(a) => {
                                self.store.remove(&a);
                                Event::StoreDone
                            }
                            StoreOp::Contains(a) => Event::StoreAnswered(self.store.contains(&a)),
                            _ => panic!("unexpected store step"),
                        }
                    }
                }
                Step::Enforce(c) => {
                    if self.apply_enforce(c) {
                        Event::EnforceDone
                    } else {
                        Event::EnforceFailed
                    }
                }
            };
            step = req.advance(event, &nft());
        }
    }

    fn startup(&mut self) -> Outcome {
        let (mut st, mut step) = Startup::begin();
        loop {
            let event = match &step {
                Step::Finish(o) => return *o,
                Step::Store(StoreOp::InitSchema) => {
                    if self.fail_store { StartupEvent::StoreFailed } else { StartupEvent::StoreDone }
                }
                Step::Store(StoreOp::ListAll) => {
                    if self.fail_store {
                        StartupEvent::StoreFailed
                    } else {
                        StartupEvent::Listed(self.store.iter().copied().collect())
                    }
                }
                Step::Store(_) => panic!("unexpected store step"),
                Step::Enforce(c) => {
                    if self.apply_enforce(c) {
                        StartupEvent::EnforceDone
                    } else {
                        StartupEvent::EnforceFailed
                    }
                }
            };
            step = st.advance(event, &nft());
        }
    }
}

fn set(addrs: &[u32]) -> BTreeSet<u32> {
    addrs.iter().copied().collect()
}

#[test]
fn fresh_start_flushes_stale_entries() {
    let mut w = World { enforced: set(&[ip(10, 0, 0, 5)]), ..World::default() };
    assert_eq!(w.startup(), Outcome::Done);
    assert!(w.enforced.is_empty());
    assert!(w.store.is_empty());
}

#[test]
fn add_with_valid_credential_is_enforced_and_checked() {
    let mut w = World::default();
    let a = ip(192, 0, 2, 7);
    assert_eq!(w.request(Operation::Add, a, Some(SECRET)), Outcome::Done);
    assert_eq!(w.store, set(&[a]));
    assert_eq!(w.enforced, set(&[a]));
    assert_eq!(w.request(Operation::Check, a, Some(SECRET)), Outcome::Present(true));
}

#[test]
fn remove_of_absent_address_is_a_no_op() {
    let mut w = World::default();
    let a = ip(192, 0, 2, 7);
    assert_eq!(w.request(Operation::Remove, a, Some(SECRET)), Outcome::Done);
    assert!(w.store.is_empty());
    assert!(w.enforced.is_empty());
    assert_eq!(w.request(Operation::Check, a, Some(SECRET)), Outcome::Present(false));
}

#[test]
fn add_with_invalid_credential_is_unauthorized() {
    let mut w = World::default();
    let a = ip(203, 0, 113, 1);
    assert_eq!(w.request(Operation::Add, a, Some(b"wrong")), Outcome::Unauthorized);
    assert_eq!(w.store_ops + w.enforce_ops, 0);
    assert!(w.store.is_empty());
    assert!(w.enforced.is_empty());
    assert_eq!(w.request(Operation::Check, a, Some(SECRET)), Outcome::Present(false));
}

#[test]
fn restart_replaces_stale_set_with_record() {
    let a = ip(198, 51, 100, 2);
    let b = ip(198, 51, 100, 3);
    let mut w = World {
        store: set(&[a, b]),
        enforced: set(&[ip(198, 51, 100, 9)]),
        ..World::default()
    };
    assert_eq!(w.startup(), Outcome::Done);
    assert_eq!(w.enforced, set(&[a, b]));
    assert_eq!(w.store, set(&[a, b]));
}

#[test]
fn add_twice_equals_add_once() {
    let a = ip(192, 0, 2, 1);
    let mut once = World { store: set(&[ip(1, 2, 3, 4)]), ..World::default() };
    once.request(Operation::Add, a, Some(SECRET));
    let mut twice = World { store: set(&[ip(1, 2, 3, 4)]), ..World::default() };
    twice.request(Operation::Add, a, Some(SECRET));
    assert_eq!(twice.request(Operation::Add, a, Some(SECRET)), Outcome::Done);
    assert_eq!(once.store, twice.store);
    assert_eq!(once.enforced, twice.enforced);
}

#[test]
fn remove_twice_equals_remove_once() {
    let a = ip(192, 0, 2, 1);
    let start = World { store: set(&[a]), enforced: set(&[a]), ..World::default() };
    let mut once = start.clone();
    once.request(Operation::Remove, a, Some(SECRET));
    let mut twice = start.clone();
    twice.request(Operation::Remove, a, Some(SECRET));
    assert_eq!(twice.request(Operation::Remove, a, Some(SECRET)), Outcome::Done);
    assert_eq!(once.store, twice.store);
    assert_eq!(once.enforced, twice.enforced);
    assert!(once.store.is_empty());
}

#[test]
fn store_step_precedes_enforce_step() {
    let a = ip(192, 0, 2, 9);
    let (mut req, step) = Request::begin(Operation::Add, a, Some(SECRET), SECRET);
    assert!(matches!(step, Step::Store(StoreOp::Insert(x)) if x == a));
    let step = req.advance(Event::StoreDone, &nft());
    match step {
        Step::Enforce(c) => {
            assert_eq!(c.action, SetAction::AddElements);
            assert_eq!(c.elements, vec![a]);
        }
        _ => panic!("expected an enforce step"),
    }
    assert!(matches!(req.advance(Event::EnforceDone, &nft()), Step::Finish(Outcome::Done)));
}

#[test]
fn crash_between_steps_is_healed_by_restart() {
    let a = ip(192, 0, 2, 10);
    let mut w = World::default();
    // The durable step ran; the process stopped before the firewall step.
    let (_req, step) = Request::begin(Operation::Add, a, Some(SECRET), SECRET);
    assert!(matches!(step, Step::Store(StoreOp::Insert(_))));
    w.store.insert(a);
    assert!(w.enforced.is_empty());
    assert_eq!(w.startup(), Outcome::Done);
    assert_eq!(w.enforced, set(&[a]));
}

#[test]
fn serialized_add_then_remove_agree() {
    let a = ip(192, 0, 2, 11);
    let mut w = World::default();
    w.request(Operation::Add, a, Some(SECRET));
    w.request(Operation::Remove, a, Some(SECRET));
    assert_eq!(w.store, w.enforced);
    assert!(!w.store.contains(&a));
    w.request(Operation::Add, a, Some(SECRET));
    assert_eq!(w.store, w.enforced);
    assert!(w.store.contains(&a));
}

#[test]
fn missing_credential_reveals_nothing() {
    let a = ip(192, 0, 2, 12);
    let mut w = World { store: set(&[a]), enforced: set(&[a]), ..World::default() };
    assert_eq!(w.request(Operation::Check, a, None), Outcome::Unauthorized);
    assert_eq!(w.request(Operation::Check, ip(9, 9, 9, 9), None), Outcome::Unauthorized);
    assert_eq!(w.request(Operation::Remove, a, None), Outcome::Unauthorized);
    assert_eq!(w.store_ops + w.enforce_ops, 0);
    assert_eq!(w.store, set(&[a]));
}

#[test]
fn store_failure_skips_enforcement() {
    let a = ip(192, 0, 2, 13);
    let mut w = World { fail_store: true, ..World::default() };
    assert_eq!(w.request(Operation::Add, a, Some(SECRET)), Outcome::Failed(ErrorKind::Store));
    assert_eq!(w.enforce_ops, 0);
    assert_eq!(status_code(Outcome::Failed(ErrorKind::Store)), 500);
}

#[test]
fn enforcement_failure_leaves_divergence_until_restart() {
    let a = ip(192, 0, 2, 14);
    let mut w = World { fail_enforce: true, ..World::default() };
    assert_eq!(
        w.request(Operation::Add, a, Some(SECRET)),
        Outcome::Failed(ErrorKind::Enforcement)
    );
    assert!(w.store.contains(&a));
    assert!(!w.enforced.contains(&a));
    w.fail_enforce = false;
    assert_eq!(w.startup(), Outcome::Done);
    assert_eq!(w.enforced, set(&[a]));
}

#[test]
fn startup_failures_abort() {
    let mut w = World { fail_store: true, ..World::default() };
    assert_eq!(w.startup(), Outcome::Failed(ErrorKind::Store));
    assert_eq!(w.enforce_ops, 0);
    let mut w = World { store: set(&[1]), fail_enforce: true, ..World::default() };
    assert_eq!(w.startup(), Outcome::Failed(ErrorKind::Enforcement));
    assert_eq!(w.enforce_ops, 1);
}

#[test]
fn startup_with_empty_record_sends_only_a_flush() {
    let mut w = World { enforced: set(&[5, 6]), ..World::default() };
    assert_eq!(w.startup(), Outcome::Done);
    assert_eq!(w.enforce_ops, 1);
    assert!(w.enforced.is_empty());
}

#[test]
fn events_after_finish_keep_the_outcome() {
    let (mut req, _) = Request::begin(Operation::Add, 1, Some(b"nope"), SECRET);
    assert!(matches!(req.advance(Event::StoreDone, &nft()), Step::Finish(Outcome::Unauthorized)));
    let (mut req, _) = Request::begin(Operation::Check, 1, Some(SECRET), SECRET);
    assert!(matches!(req.advance(Event::StoreDone, &nft()), Step::Finish(Outcome::Failed(ErrorKind::Store))));
}

#[test]
fn status_codes() {
    assert_eq!(status_code(Outcome::Done), 200);
    assert_eq!(status_code(Outcome::Present(false)), 200);
    assert_eq!(status_code(Outcome::Unauthorized), 401);
    assert_eq!(status_code(Outcome::Failed(ErrorKind::Enforcement)), 500);
}
