use project_manager::starred::{toggle_project_star, StarredSet};

fn paths(set: &StarredSet) -> Vec<String> {
    set.paths().clone()
}

#[test]
fn toggle_stars_and_unstars() {
    let mut set = StarredSet::new();
    assert!(!set.contains("/ws/a"));
    set.toggle("/ws/a");
    assert!(set.contains("/ws/a"));
    set.toggle("/ws/b");
    assert_eq!(paths(&set), vec!["/ws/a", "/ws/b"]);
    set.toggle("/ws/a");
    assert!(!set.contains("/ws/a"));
    assert!(set.contains("/ws/b"));
    assert_eq!(paths(&set), vec!["/ws/b"]);
}

#[test]
fn toggle_twice_restores_membership() {
    for start in [vec![], vec!["/ws/a"], vec!["/ws/a", "/ws/b", "/ws/c"]] {
        for path in ["/ws/a", "/ws/b", "/ws/z", ""] {
            let mut set = StarredSet::new();
            for p in &start {
                set.toggle(p);
            }
            let was = set.contains(path);
            set.toggle(path);
            assert_eq!(set.contains(path), !was);
            set.toggle(path);
            assert_eq!(set.contains(path), was);
            let mut now = paths(&set);
            now.sort();
            let mut before: Vec<String> = start.iter().map(|p| p.to_string()).collect();
            before.sort();
            assert_eq!(now, before);
        }
    }
}

#[test]
fn stored_text_is_an_indented_json_array() {
    let mut set = StarredSet::new();
    assert_eq!(set.to_json(), "[]");
    set.toggle("/ws/a \"quoted\"");
    set.toggle("C:\\ws\\b");
    assert_eq!(set.to_json(), "[\n  \"/ws/a \\\"quoted\\\"\",\n  \"C:\\\\ws\\\\b\"\n]");
}

#[test]
fn stored_text_gives_the_set_back() {
    let set = StarredSet::from_json("[\"/ws/a\", \"/ws/b\",\n \"/ws/a\", \"\\u00e9\"]");
    assert_eq!(paths(&set), vec!["/ws/a", "/ws/b", "é"]);
    assert!(set.contains("/ws/b"));
    let mut first = StarredSet::new();
    first.toggle("x");
    first.toggle("y\n");
    assert_eq!(paths(&StarredSet::from_json(&first.to_json())), vec!["x", "y\n"]);
}

#[test]
fn unreadable_stored_text_gives_the_empty_set() {
    for text in ["", "{}", "[1, 2]", "[\"a\"", "null", "\"a\"", "[\"a\", null]"] {
        assert_eq!(paths(&StarredSet::from_json(text)), Vec::<String>::new());
    }
}

#[test]
fn toggle_on_stored_text() {
    assert_eq!(toggle_project_star("", "/ws/a"), "[\n  \"/ws/a\"\n]");
    assert_eq!(toggle_project_star("[\"/ws/a\"]", "/ws/b"), "[\n  \"/ws/a\",\n  \"/ws/b\"\n]");
    assert_eq!(toggle_project_star("[\"/ws/a\",\"/ws/b\"]", "/ws/a"), "[\n  \"/ws/b\"\n]");
    let once = toggle_project_star("[\"/ws/a\"]", "/ws/a");
    assert_eq!(once, "[]");
    assert_eq!(toggle_project_star(&once, "/ws/a"), "[\n  \"/ws/a\"\n]");
}
