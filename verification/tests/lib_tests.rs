use reactivate::{Merge, ObserverList, Reactive};

#[test]
fn lib_tests_initial_derived_values_must_not_be_default() {
    let r = Reactive::new(10);
    let d = r.derive(|val: &i32| val + 5);

    assert_eq!(15, d.value());
}

#[test]
fn can_set() {
    let r = Reactive::new(10);
    let mut d = r.derive(|val: &i32| val + 35);

    d.set(34);

    assert_eq!(34, d.parent().value());
    assert_eq!(69, d.value());
}

#[test]
fn lib_tests_can_update() {
    let r = Reactive::new(10);
    let mut d = r.derive(|val: &i32| val + 5);

    d.update(|n: &i32| n * 2);

    assert_eq!(20, d.parent().value());
    assert_eq!(25, d.value());
}

#[test]
fn lib_tests_update_only_notifies_observers_when_value_changes() {
    let mut r: Reactive<String> = Reactive::default();
    let changes = r.add_observer();

    r.update(|_: &String| String::from("a"));
    r.update(|_: &String| String::from("a"));
    r.update(|_: &String| String::from("b"));
    r.update(|_: &String| String::from("b"));

    let expected = vec![String::from("a"), String::from("b")];

    assert_eq!(expected, r.observed(changes).clone());
}

#[test]
fn lib_tests_update_unchecked_notifies_observers_without_checking_if_value_changed() {
    let mut r: Reactive<String> = Reactive::default();
    let changes = r.add_observer();

    r.update_unchecked(|_: &String| String::from("a"));
    r.update_unchecked(|_: &String| String::from("a"));
    r.update_unchecked(|_: &String| String::from("b"));
    r.update_unchecked(|_: &String| String::from("b"));

    let expected = vec![
        String::from("a"),
        String::from("a"),
        String::from("b"),
        String::from("b"),
    ];

    assert_eq!(expected, r.observed(changes).clone());
}

#[test]
fn lib_tests_can_update_inplace() {
    let r = Reactive::new(vec![1, 2, 3]);
    let mut d = r.derive(|nums: &Vec<i32>| nums.iter().sum::<i32>());

    d.update_inplace(|nums: &Vec<i32>| {
        let mut next = nums.clone();
        next.push(4);
        next.push(5);
        next.push(6);
        next
    });

    assert_eq!(d.parent().value(), vec![1, 2, 3, 4, 5, 6]);
    assert_eq!(21, d.value());
}

#[test]
fn lib_tests_update_inplace_only_notifies_observers_when_value_changes() {
    let mut r: Reactive<String> = Reactive::default();
    let changes = r.add_observer();

    r.update_inplace(|s: &String| {
        let mut next = s.clone();
        next.push('a');
        next
    });
    r.update_inplace(|s: &String| {
        let mut next = s.clone();
        next.push('x');
        next.pop();
        next
    });
    r.update_inplace(|s: &String| {
        let mut next = s.clone();
        next.push('b');
        next
    });

    let expected = vec![String::from("a"), String::from("ab")];

    assert_eq!(expected, r.observed(changes).clone());
}

#[test]
fn lib_tests_update_inplace_unchecked_notifies_observers_without_checking_if_value_changed() {
    let mut r: Reactive<String> = Reactive::default();
    let changes = r.add_observer();

    r.update_inplace_unchecked(|s: &String| {
        let mut next = s.clone();
        next.push('a');
        next
    });
    r.update_inplace_unchecked(|s: &String| {
        let mut next = s.clone();
        next.push('x');
        next.pop();
        next
    });
    r.update_inplace_unchecked(|s: &String| {
        let mut next = s.clone();
        next.push('b');
        next
    });

    let expected = vec![String::from("a"), String::from("a"), String::from("ab")];

    assert_eq!(expected, r.observed(changes).clone());
}

#[test]
fn lib_tests_can_add_observers() {
    let mut r: Reactive<String> = Reactive::default();
    let changes = r.add_observer();

    r.update(|_: &String| String::from("a"));
    r.update_inplace(|s: &String| {
        let mut next = s.clone();
        next.clear();
        next.push('b');
        next
    });

    let expected = vec![String::from("a"), String::from("b")];

    assert_eq!(expected, r.observed(changes).clone());
}

#[test]
fn can_clear_observers() {
    let r = Reactive::new(10);
    let mut d = r.derive(|val: &i32| val + 1);

    d.clear_observers();
    d.update(|n: &i32| n * 2);

    assert_eq!(20, d.parent().value());
    assert_eq!(11, d.value());
}

#[test]
fn lib_tests_can_merge() {
    let a = Reactive::new(String::from("hazash"));
    let b = Reactive::new(0);
    let c = Reactive::new(0.);

    let mut d = (a, (b, c)).merge();

    assert_eq!((String::from("hazash"), (0, 0.)), d.value());

    d.update_left(|_: &String| String::from("mouse"));
    assert_eq!((String::from("mouse"), (0, 0.)), d.value());

    d.update_right_left(|_: &i32| 5);
    assert_eq!((String::from("mouse"), (5, 0.)), d.value());

    d.update_right_right(|_: &f64| 2.);
    assert_eq!((String::from("mouse"), (5, 2.)), d.value());
}

#[test]
fn can_notify() {
    let mut r: Reactive<String> = Reactive::new(String::from("ðŸ¦€"));
    let changes = r.add_observer();

    r.notify();
    r.notify();
    r.notify();

    let expected = vec![
        String::from("ðŸ¦€"),
        String::from("ðŸ¦€"),
        String::from("ðŸ¦€"),
    ];

    assert_eq!(expected, r.observed(changes).clone());
}

#[test]
fn can_access_internals() {
    let r = Reactive::new(10);

    let r = r.with(|val: i32, mut obs: ObserverList<i32>| {
        let val = val + 11;
        obs.notify_all(&val);
        (val, obs)
    });

    assert_eq!(21, r.value());
}
