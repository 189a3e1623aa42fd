use rpfm_ui::table_state::{ColumnsState, FilterState, SearchState, TableState};
use rpfm_ui::table_states::TableStates;

fn states_path(parts: &[&str]) -> Vec<String> {
    parts.iter().map(|part| part.to_string()).collect()
}

fn states_state(filter: &str, column: i32) -> TableState {
    TableState {
        filter_state: FilterState::new(filter.to_owned(), column, true),
        search_state: SearchState::new("s".to_owned(), "r".to_owned(), column + 1, false),
        columns_state: ColumnsState::new((column, true), vec![(0, 2), (2, 0)], vec![1, 3]),
    }
}

#[test]
fn new_cache_is_empty() {
    let states = TableState::new();
    assert_eq!(states.len(), 0);
    assert!(states.is_empty());
    assert!(!states.contains(&states_path(&["a"])));
    assert!(states.paths().is_empty());
    let other = TableStates::new();
    assert!(other.is_empty());
}

#[test]
fn get_gives_the_untouched_state_for_a_path_without_entry() {
    let states = TableState::new();
    assert_eq!(states.get(&states_path(&["db", "t", "x"])), TableState::new_empty());
}

#[test]
fn put_then_get_gives_the_state_back() {
    let mut states = TableState::new();
    states.put(states_path(&["a", "b"]), states_state("one", 1));
    assert_eq!(states.get(&states_path(&["a", "b"])), states_state("one", 1));
    assert!(states.contains(&states_path(&["a", "b"])));
    assert!(!states.contains(&states_path(&["a"])));
    assert_eq!(states.len(), 1);
    assert!(!states.is_empty());
}

#[test]
fn put_replaces_the_whole_state() {
    let mut states = TableState::new();
    states.put(states_path(&["a"]), states_state("one", 1));
    states.put(states_path(&["b"]), states_state("two", 2));
    states.put(states_path(&["a"]), TableState::new_empty());
    assert_eq!(states.len(), 2);
    assert_eq!(states.get(&states_path(&["a"])), TableState::new_empty());
    assert_eq!(states.get(&states_path(&["b"])), states_state("two", 2));
}

#[test]
fn paths_are_case_sensitive() {
    let mut states = TableState::new();
    states.put(states_path(&["Data"]), states_state("upper", 1));
    states.put(states_path(&["data"]), states_state("lower", 2));
    assert_eq!(states.len(), 2);
    assert_eq!(states.get(&states_path(&["Data"])), states_state("upper", 1));
    assert_eq!(states.get(&states_path(&["data"])), states_state("lower", 2));
}

#[test]
fn remove_takes_the_entry_out() {
    let mut states = TableState::new();
    states.put(states_path(&["a"]), states_state("one", 1));
    states.put(states_path(&["b"]), states_state("two", 2));
    assert_eq!(states.remove(&states_path(&["a"])), Some(states_state("one", 1)));
    assert_eq!(states.remove(&states_path(&["a"])), None);
    assert_eq!(states.remove(&states_path(&["zzz"])), None);
    assert_eq!(states.len(), 1);
    assert!(states.contains(&states_path(&["b"])));
    assert_eq!(states.get(&states_path(&["a"])), TableState::new_empty());
}

#[test]
fn clear_empties_the_cache() {
    let mut states = TableState::new();
    states.put(states_path(&["a"]), states_state("one", 1));
    states.put(states_path(&["b"]), states_state("two", 2));
    states.clear();
    assert!(states.is_empty());
    assert!(!states.contains(&states_path(&["a"])));
}

#[test]
fn clear_except_keeps_exactly_the_open_paths_that_had_an_entry() {
    let mut states = TableState::new();
    states.put(states_path(&["a"]), states_state("one", 1));
    states.put(states_path(&["b"]), states_state("two", 2));
    states.put(states_path(&["c", "d"]), states_state("three", 3));
    states.put(states_path(&["e"]), states_state("four", 4));
    let open = vec![states_path(&["b"]), states_path(&["never", "cached"]), states_path(&["e"])];
    states.clear_except(&open);
    assert_eq!(states.len(), 2);
    assert!(!states.contains(&states_path(&["a"])));
    assert!(!states.contains(&states_path(&["c", "d"])));
    assert!(!states.contains(&states_path(&["never", "cached"])));
    assert_eq!(states.get(&states_path(&["b"])), states_state("two", 2));
    assert_eq!(states.get(&states_path(&["e"])), states_state("four", 4));
}

#[test]
fn clear_except_nothing_empties_the_cache() {
    let mut states = TableState::new();
    states.put(states_path(&["a"]), states_state("one", 1));
    states.clear_except(&Vec::new());
    assert!(states.is_empty());
}

#[test]
fn clear_except_everything_changes_nothing() {
    let mut states = TableState::new();
    states.put(states_path(&["a"]), states_state("one", 1));
    states.put(states_path(&["b"]), states_state("two", 2));
    states.clear_except(&vec![states_path(&["a"]), states_path(&["b"])]);
    assert_eq!(states.len(), 2);
    assert_eq!(states.get(&states_path(&["a"])), states_state("one", 1));
    assert_eq!(states.get(&states_path(&["b"])), states_state("two", 2));
}

#[test]
fn paths_lists_every_path_once_by_rising_path() {
    let mut states = TableState::new();
    states.put(states_path(&["b", "c"]), states_state("two", 2));
    states.put(states_path(&["a"]), states_state("one", 1));
    states.put(states_path(&["b"]), states_state("three", 3));
    states.put(states_path(&["a"]), states_state("again", 4));
    states.put(states_path(&[]), states_state("root", 5));
    states.put(states_path(&["B"]), states_state("upper", 6));
    assert_eq!(
        states.paths(),
        vec![
            states_path(&[]),
            states_path(&["B"]),
            states_path(&["a"]),
            states_path(&["b"]),
            states_path(&["b", "c"]),
        ]
    );
}

#[test]
fn the_order_of_paths_is_that_of_a_sorted_map() {
    let inserted = [
        vec!["db", "units", "x"],
        vec!["db"],
        vec![],
        vec!["text", "ä"],
        vec!["db", "unit", "y"],
        vec!["Text"],
        vec!["db", "units"],
        vec!["text", "a", "b"],
        vec![""],
        vec!["db", "units", "x"],
        vec!["z\\a"],
    ];
    let mut states = TableState::new();
    let mut expected = std::collections::BTreeMap::new();
    for (number, path) in inserted.iter().enumerate() {
        states.put(states_path(path), states_state("s", number as i32));
        expected.insert(states_path(path), number as i32);
    }
    states.remove(&states_path(&["db"]));
    expected.remove(&states_path(&["db"]));
    let expected_paths: Vec<Vec<String>> = expected.keys().cloned().collect();
    assert_eq!(states.paths(), expected_paths);
    for (path, number) in expected {
        assert_eq!(states.get(&path), states_state("s", number));
    }
}

#[test]
fn save_lists_the_records_by_rising_path() {
    let mut states = TableState::new();
    states.put(states_path(&["b"]), states_state("two", 2));
    states.put(states_path(&["a", "z"]), states_state("one", 1));
    states.put(states_path(&["a"]), states_state("zero", 0));
    assert_eq!(
        TableState::save(&states),
        vec![
            ("a".to_owned(), states_state("zero", 0)),
            ("a\\z".to_owned(), states_state("one", 1)),
            ("b".to_owned(), states_state("two", 2)),
        ]
    );
}

#[test]
fn of_two_paths_with_one_key_the_later_in_the_order_is_saved_last() {
    let mut states = TableState::new();
    states.put(states_path(&["a\\b"]), states_state("joined", 1));
    states.put(states_path(&["a", "b"]), states_state("split", 2));
    assert_eq!(
        TableState::save(&states),
        vec![
            ("a\\b".to_owned(), states_state("split", 2)),
            ("a\\b".to_owned(), states_state("joined", 1)),
        ]
    );
    let loaded = TableState::load(&TableState::save(&states));
    assert_eq!(loaded.len(), 1);
    assert_eq!(loaded.get(&states_path(&["a", "b"])), states_state("joined", 1));
}

#[test]
fn save_flattens_each_path_into_its_key() {
    let mut states = TableState::new();
    states.put(states_path(&["db", "units_tables", "data"]), states_state("one", 1));
    states.put(states_path(&["text", "file.loc"]), states_state("two", 2));
    let mut records = TableState::save(&states);
    records.sort_by(|a, b| a.0.cmp(&b.0));
    assert_eq!(
        records,
        vec![
            ("db\\units_tables\\data".to_owned(), states_state("one", 1)),
            ("text\\file.loc".to_owned(), states_state("two", 2)),
        ]
    );
}

#[test]
fn load_splits_each_key_into_its_path() {
    let records = vec![
        ("db\\units_tables\\data".to_owned(), states_state("one", 1)),
        ("text\\file.loc".to_owned(), states_state("two", 2)),
    ];
    let states = TableState::load(&records);
    assert_eq!(states.len(), 2);
    assert_eq!(states.get(&states_path(&["db", "units_tables", "data"])), states_state("one", 1));
    assert_eq!(states.get(&states_path(&["text", "file.loc"])), states_state("two", 2));
    assert!(!states.contains(&states_path(&["db\\units_tables\\data"])));
}

#[test]
fn load_lets_a_later_record_replace_an_earlier_one() {
    let records = vec![
        ("a\\b".to_owned(), states_state("one", 1)),
        ("a\\b".to_owned(), states_state("two", 2)),
    ];
    let states = TableState::load(&records);
    assert_eq!(states.len(), 1);
    assert_eq!(states.get(&states_path(&["a", "b"])), states_state("two", 2));
}

#[test]
fn load_of_nothing_is_the_empty_cache() {
    assert!(TableState::load(&Vec::new()).is_empty());
}

#[test]
fn load_of_save_gives_the_cache_back() {
    let mut states = TableState::new();
    states.put(states_path(&["db", "units_tables", "data"]), states_state("one", 1));
    states.put(states_path(&["text", "file.loc"]), states_state("two", 2));
    states.put(states_path(&["x"]), TableState::new_empty());
    states.put(states_path(&["", "odd"]), states_state("three", 3));
    let loaded = TableState::load(&TableState::save(&states));
    assert_eq!(loaded.len(), states.len());
    for path in states.paths() {
        assert!(loaded.contains(&path));
        assert_eq!(loaded.get(&path), states.get(&path));
    }
}

#[test]
fn load_of_save_holds_in_any_order_of_the_records() {
    let mut states = TableState::new();
    states.put(states_path(&["b"]), states_state("one", 1));
    states.put(states_path(&["a", "c"]), states_state("two", 2));
    states.put(states_path(&["a"]), states_state("three", 3));
    let mut records = TableState::save(&states);
    records.reverse();
    let loaded = TableState::load(&records);
    assert_eq!(loaded.len(), 3);
    for path in states.paths() {
        assert_eq!(loaded.get(&path), states.get(&path));
    }
}

#[test]
fn a_segment_with_a_backslash_does_not_come_back_from_the_file() {
    let mut states = TableState::new();
    states.put(states_path(&["a\\b"]), states_state("one", 1));
    let loaded = TableState::load(&TableState::save(&states));
    assert!(!loaded.contains(&states_path(&["a\\b"])));
    assert_eq!(loaded.get(&states_path(&["a", "b"])), states_state("one", 1));
}

#[test]
fn the_empty_path_does_not_come_back_from_the_file() {
    let mut states = TableState::new();
    states.put(states_path(&[]), states_state("one", 1));
    let loaded = TableState::load(&TableState::save(&states));
    assert!(!loaded.contains(&states_path(&[])));
    assert_eq!(loaded.get(&states_path(&[""])), states_state("one", 1));
}

#[test]
fn clone_copies_a_table_state() {
    let state = states_state("copy", 7);
    assert_eq!(state.clone(), state);
    assert_eq!(state.filter_state.clone(), state.filter_state);
    assert_eq!(state.search_state.clone(), state.search_state);
    assert_eq!(state.columns_state.clone(), state.columns_state);
}
