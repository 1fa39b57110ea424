use reactivate::{Merge, ObserverList, Reactive, ReactiveBase};

#[test]
fn updates_compose_in_order() {
    let mut r = Reactive::new(3);

    r.update(|v: &i32| v + 1);
    r.update(|v: &i32| v * 2);
    r.update(|v: &i32| v - 5);

    assert_eq!(3, r.value());
}

#[test]
fn notification_reaches_each_observer_in_order() {
    let mut r = Reactive::new(1);
    let first = r.add_observer();
    let second = r.add_observer();

    r.update(|_: &i32| 2);
    r.set(3);

    assert_eq!(vec![2, 3], r.observed(first).clone());
    assert_eq!(vec![2, 3], r.observed(second).clone());
}

#[test]
fn identity_update_is_silent_but_unconditional_is_not() {
    let mut r = Reactive::new(5);
    let changes = r.add_observer();

    r.update(|v: &i32| *v);
    assert!(r.observed(changes).is_empty());

    r.update_unchecked(|v: &i32| *v);
    assert_eq!(vec![5], r.observed(changes).clone());
}

#[test]
fn derive_starts_caught_up_without_notifying() {
    let r = Reactive::new(10);
    let mut d = r.derive(|v: &i32| v * 3);
    let watched = d.add_observer();

    assert_eq!(30, d.value());
    assert!(d.observed(watched).is_empty());

    d.set(2);

    assert_eq!(vec![6], d.observed(watched).clone());
}

#[test]
fn cleared_observers_still_commit_updates() {
    let mut r = Reactive::new(10);
    let _early = r.add_observer();

    r.clear_observers();
    r.update(|n: &i32| n * 2);

    assert_eq!(20, r.value());

    let late = r.add_observer();
    r.update(|n: &i32| n + 1);

    assert_eq!(vec![21], r.observed(late).clone());
}

#[test]
fn fingerprint_update_commits_and_notifies_on_change() {
    let mut r = Reactive::new(String::from("x"));
    let changes = r.add_observer();

    r.update_inplace(|s: &String| {
        let mut next = s.clone();
        next.push('y');
        next
    });

    assert_eq!(String::from("xy"), r.value());
    assert_eq!(vec![String::from("xy")], r.observed(changes).clone());
}

#[test]
fn with_value_hands_out_current_value() {
    let r = Reactive::new(10);
    let mut seen = None;

    r.with_value(|v: &i32| seen = Some(*v));

    assert_eq!(Some(10), seen);
    assert_eq!(10, r.value());
}

#[test]
fn merged_pair_snapshots_and_propagates() {
    let m = (Reactive::new(1), Reactive::new(2)).merge();
    let mut m = m;

    assert_eq!((1, 2), m.value());

    m.update_left(|_: &i32| 7);
    assert_eq!((7, 2), m.value());

    m.update_right(|v: &i32| v + 1);
    assert_eq!((7, 3), m.value());
}

#[test]
fn merging_a_single_container_is_itself() {
    let r = Reactive::new(5).merge();

    assert_eq!(5, r.value());
}

#[test]
fn default_container_holds_default_value() {
    let r: Reactive<String> = Reactive::default();

    assert_eq!(String::new(), r.value());
}

#[test]
fn observer_list_registers_and_clears() {
    let mut obs: ObserverList<i32> = ObserverList::new();
    assert_eq!(0, obs.len());

    let slot = obs.add_observer();
    assert_eq!(0, slot);
    assert_eq!(1, obs.len());

    obs.notify_all(&3);
    obs.notify_all(&4);
    assert_eq!(vec![3, 4], obs.observed(slot).clone());

    obs.clear();
    assert_eq!(0, obs.len());
}

#[test]
fn base_cell_update_protocol() {
    let mut b = ReactiveBase::new(10);
    let changes = b.add_observer();

    let notified = b.update(|n: &i32| n + 5);
    assert!(notified);
    assert_eq!(15, *b.value());

    let notified = b.update(|n: &i32| *n);
    assert!(!notified);

    b.with_value(|n: &i32| assert_eq!(15, *n));

    b.notify();
    assert_eq!(vec![15, 15], b.observed(changes).clone());
}

#[test]
fn base_cell_unconditional_and_fingerprint_updates() {
    let mut b = ReactiveBase::new(vec![1, 2]);
    let changes = b.add_observer();

    b.update_unchecked(|v: &Vec<i32>| v.clone());
    assert_eq!(1, b.observed(changes).len());

    b.update_inplace_unchecked(|v: &Vec<i32>| v.clone());
    assert_eq!(2, b.observed(changes).len());

    let notified = b.update_inplace(|v: &Vec<i32>| v.clone());
    assert!(!notified);
    assert_eq!(2, b.observed(changes).len());

    let notified = b.update_inplace(|v: &Vec<i32>| {
        let mut next = v.clone();
        next.push(3);
        next
    });
    assert!(notified);
    assert_eq!(vec![1, 2, 3], *b.value());
}
