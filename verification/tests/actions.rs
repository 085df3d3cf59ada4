use notify_rust::actions::{flatten, Action};

fn strings(items: &[&str]) -> Vec<String> {
    items.iter().map(|s| s.to_string()).collect()
}

fn action(tag: &str, description: &str) -> Action {
    Action { tag: tag.to_string(), description: description.to_string() }
}

#[test]
fn from_pair_takes_tag_and_label() {
    let tag = "open".to_string();
    let label = "Open it".to_string();
    let made = Action::from_pair((&tag, &label));
    assert_eq!(made, action("open", "Open it"));
}

#[test]
fn from_vec_pairs_two_by_two() {
    let raw = strings(&["open", "Open it", "snooze", "Later"]);
    let actions = Action::from_vec(&raw);
    assert_eq!(actions, vec![action("open", "Open it"), action("snooze", "Later")]);
}

#[test]
fn from_vec_drops_a_string_without_partner() {
    let raw = strings(&["open", "Open it", "snooze"]);
    assert_eq!(Action::from_vec(&raw), vec![action("open", "Open it")]);
    assert_eq!(Action::from_vec(&strings(&["alone"])), Vec::<Action>::new());
}

#[test]
fn from_vec_of_nothing_is_nothing() {
    assert_eq!(Action::from_vec(&[]), Vec::<Action>::new());
}

#[test]
fn flatten_puts_each_tag_before_its_label() {
    let actions = vec![action("a", "A"), action("b", "B"), action("c", "C")];
    assert_eq!(flatten(&actions), strings(&["a", "A", "b", "B", "c", "C"]));
    assert_eq!(flatten(&Vec::new()), Vec::<String>::new());
}

#[test]
fn flatten_then_from_vec_gives_the_list_back() {
    for k in 0..6 {
        let actions: Vec<Action> =
            (0..k).map(|i| action(&format!("tag{i}"), &format!("label {i}"))).collect();
        let raw = flatten(&actions);
        assert_eq!(raw.len(), 2 * k);
        assert_eq!(Action::from_vec(&raw), actions);
    }
}

#[test]
fn from_vec_then_flatten_gives_the_even_part_back() {
    let raw = strings(&["a", "A", "b", "B", "c"]);
    assert_eq!(flatten(&Action::from_vec(&raw)), strings(&["a", "A", "b", "B"]));
}

#[test]
fn action_clone_is_equal() {
    let a = action("x", "y");
    assert_eq!(a.clone(), a);
}
