use reactivate::{Merge, Reactive};

#[test]
fn integration_tests_initial_derived_values_must_not_be_default() {
    let r = Reactive::new(10);
    let d = r.derive(|val: &i32| val + 5);

    assert_eq!(15, d.value());
}

#[test]
fn integration_tests_can_update() {
    let r = Reactive::new(10);
    let mut d = r.derive(|val: &i32| val + 5);

    d.update(|_: &i32| 20);

    assert_eq!(25, d.value());
}

#[test]
fn integration_tests_update_only_notifies_observers_when_value_changes() {
    let mut r: Reactive<String> = Reactive::default();
    let changes = r.add_observer();

    r.update(|_: &String| String::from("a"));
    r.update(|_: &String| String::from("a"));
    r.update(|_: &String| String::from("b"));
    r.update(|_: &String| String::from("b"));

    assert_eq!(
        vec![String::from("a"), String::from("b")],
        r.observed(changes).clone()
    );
}

#[test]
fn integration_tests_update_unchecked_notifies_observers_without_checking_if_value_changed() {
    let mut r: Reactive<String> = Reactive::default();
    let changes = r.add_observer();

    r.update_unchecked(|_: &String| String::from("a"));
    r.update_unchecked(|_: &String| String::from("a"));
    r.update_unchecked(|_: &String| String::from("b"));
    r.update_unchecked(|_: &String| String::from("b"));

    assert_eq!(
        vec![
            String::from("a"),
            String::from("a"),
            String::from("b"),
            String::from("b")
        ],
        r.observed(changes).clone()
    );
}

#[test]
fn integration_tests_can_update_inplace() {
    let r = Reactive::new(vec![1, 2, 3]);
    let mut d = r.derive(|nums: &Vec<i32>| nums.iter().sum::<i32>());

    d.update_inplace(|nums: &Vec<i32>| {
        let mut next = nums.clone();
        next.push(4);
        next.push(5);
        next.push(6);
        next
    });

    assert_eq!(21, d.value());
}

#[test]
fn integration_tests_update_inplace_only_notifies_observers_when_value_changes() {
    let mut r: Reactive<String> = Reactive::default();
    let changes = r.add_observer();

    r.update_inplace(|s: &String| {
        let mut next = s.clone();
        next.push('a');
        next
    });
    r.update_inplace(|s: &String| {
        let mut next = s.clone();
        next.push('x');
        next.pop();
        next
    });
    r.update_inplace(|s: &String| {
        let mut next = s.clone();
        next.push('b');
        next
    });

    assert_eq!(
        vec![String::from("a"), String::from("ab")],
        r.observed(changes).clone()
    );
}

#[test]
fn integration_tests_update_inplace_unchecked_notifies_observers_without_checking_if_value_changed()
{
    let mut r: Reactive<String> = Reactive::default();
    let changes = r.add_observer();

    r.update_inplace_unchecked(|s: &String| {
        let mut next = s.clone();
        next.push('a');
        next
    });
    r.update_inplace_unchecked(|s: &String| {
        let mut next = s.clone();
        next.push('x');
        next.pop();
        next
    });
    r.update_inplace_unchecked(|s: &String| {
        let mut next = s.clone();
        next.push('b');
        next
    });

    assert_eq!(
        vec![String::from("a"), String::from("a"), String::from("ab")],
        r.observed(changes).clone()
    );
}

#[test]
fn integration_tests_can_add_observers() {
    let mut r: Reactive<String> = Reactive::default();
    let changes = r.add_observer();

    r.update(|_: &String| String::from("a"));
    r.update_inplace(|s: &String| {
        let mut next = s.clone();
        next.clear();
        next.push('b');
        next
    });

    assert_eq!(
        vec![String::from("a"), String::from("b")],
        r.observed(changes).clone()
    );
}

#[test]
fn integration_tests_can_merge() {
    let a = Reactive::new(String::from("hazash"));
    let b = Reactive::new(0);
    let mut d = (a, b)
        .merge()
        .derive(|(a_val, b_val): &(String, usize)| a_val.len() + b_val);

    assert_eq!(6, d.value());

    d.update_right(|_: &usize| 5);
    assert_eq!(11, d.value());

    d.update_left(|_: &String| String::from("mouse"));
    assert_eq!(10, d.value());
}
