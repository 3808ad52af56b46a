use rustyline_async::History;

#[test]
fn test_history() {
    let mut history = History::default();

    history.add_entry("foo".into());
    history.add_entry("bar".into());
    history.add_entry("baz".into());

    for _ in 0..2 {
        // Previous will navigate nowhere.
        assert_eq!(None, history.search_previous(""));

        // Going back in history.
        assert_eq!(Some("baz".to_string()), history.search_next(""));
        assert_eq!(Some("bar".to_string()), history.search_next(""));
        assert_eq!(Some("foo".to_string()), history.search_next(""));

        // Last entry should just repeat.
        assert_eq!(Some("foo".to_string()), history.search_next(""));

        // Going forward.
        assert_eq!(Some("bar".to_string()), history.search_previous(""));
        assert_eq!(Some("baz".to_string()), history.search_previous(""));

        // Alternate.
        assert_eq!(Some("bar".to_string()), history.search_next(""));
        assert_eq!(Some("baz".to_string()), history.search_previous(""));

        // Back to the beginning. Should return "" once.
        assert_eq!(Some(String::new()), history.search_previous(""));
        assert_eq!(None, history.search_previous(""));

        // Going back again.
        assert_eq!(Some("baz".to_string()), history.search_next(""));
        assert_eq!(Some("bar".to_string()), history.search_next(""));

        // Resetting the position.
        history.reset_position();
    }
}

#[test]
fn test_history_limit() {
    let mut history = History::default();
    history.set_max_size(3);

    history.add_entry("foo".into());
    history.add_entry("bar".into());
    history.add_entry("baz".into());
    history.add_entry("qux".into()); // Should remove "foo".

    assert_eq!(Some("qux".to_string()), history.search_next(""));
    assert_eq!(Some("baz".to_string()), history.search_next(""));
    assert_eq!(Some("bar".to_string()), history.search_next(""));
    assert_eq!(Some("bar".to_string()), history.search_next(""));

    history.set_max_size(2);

    assert_eq!(Some("qux".to_string()), history.search_next(""));
    assert_eq!(Some("baz".to_string()), history.search_next(""));
    assert_eq!(Some("baz".to_string()), history.search_next(""));
}

#[test]
fn test_history_reset_on_add() {
    let mut history = History::default();

    history.add_entry("foo".into());
    history.add_entry("bar".into());
    history.add_entry("baz".into());

    assert_eq!(None, history.search_previous(""));
    assert_eq!(Some("baz".to_string()), history.search_next(""));
    assert_eq!(Some("bar".to_string()), history.search_next(""));

    // This should reset the history position.
    history.add_entry("qux".into());

    assert_eq!(None, history.search_previous(""));
    assert_eq!(Some("qux".to_string()), history.search_next(""));
    assert_eq!(Some("baz".to_string()), history.search_next(""));
    assert_eq!(Some("bar".to_string()), history.search_next(""));
    assert_eq!(Some("foo".to_string()), history.search_next(""));
}

#[test]
fn test_history_export() {
    let mut history = History::default();
    history.set_max_size(3);

    assert_eq!(history.get_entries(), &Vec::<String>::new());

    history.add_entry("foo".into());
    history.add_entry("bar".into());
    history.add_entry("baz".into());

    assert_eq!(history.get_entries(), &["foo", "bar", "baz"]);

    history.add_entry("qux".into());

    assert_eq!(history.get_entries(), &["bar", "baz", "qux"]);

    history.set_entries(vec!["a".to_string(), "b".to_string(), "b".to_string()]);

    assert_eq!(Some("b".to_string()), history.search_next(""));
    assert_eq!(Some("a".to_string()), history.search_next(""));
    assert_eq!(Some("a".to_string()), history.search_next(""));
}

#[test]
fn test_history_drops_empty_and_duplicate_lines() {
    let mut history = History::default();

    history.add_entry(String::new());
    assert_eq!(history.get_entries(), &Vec::<String>::new());

    history.add_entry("foo".into());
    history.add_entry("foo".into());
    history.add_entry("".into());
    history.add_entry("bar".into());
    history.add_entry("foo".into());

    assert_eq!(history.get_entries(), &["foo", "bar", "foo"]);
}

#[test]
fn test_history_zero_capacity_stays_empty() {
    let mut history = History::default();
    history.set_max_size(0);

    history.add_entry("foo".into());
    history.add_entry("bar".into());

    assert_eq!(history.get_entries(), &Vec::<String>::new());
    assert_eq!(None, history.search_next(""));
}
