use rpfm_ui::archive_path::{
    clone_path, contains_path, join_path, path_survives_flattening, same_path, split_key,
    KEY_DELIMITER,
};
use rpfm_ui::name_order::{place_of, sort_by_name, sort_names, str_precedes, Place};
use rpfm_ui::text::{
    chars_of, join_strs, split_non_empty, split_str, str_contains_char, str_ends_with, str_eq,
    with_suffix,
};

fn paths_path(parts: &[&str]) -> Vec<String> {
    parts.iter().map(|part| part.to_string()).collect()
}

#[test]
fn the_delimiter_is_a_backslash() {
    assert_eq!(KEY_DELIMITER, '\\');
}

#[test]
fn join_path_puts_a_backslash_between_segments() {
    assert_eq!(join_path(&paths_path(&["db", "units_tables", "data"])), "db\\units_tables\\data");
    assert_eq!(join_path(&paths_path(&["single"])), "single");
    assert_eq!(join_path(&paths_path(&[])), "");
    assert_eq!(join_path(&paths_path(&["", ""])), "\\");
}

#[test]
fn split_key_splits_on_every_backslash() {
    assert_eq!(split_key("db\\units_tables\\data"), paths_path(&["db", "units_tables", "data"]));
    assert_eq!(split_key("single"), paths_path(&["single"]));
    assert_eq!(split_key(""), paths_path(&[""]));
    assert_eq!(split_key("\\"), paths_path(&["", ""]));
    assert_eq!(split_key("a\\\\b"), paths_path(&["a", "", "b"]));
    assert_eq!(split_key("a\\"), paths_path(&["a", ""]));
}

#[test]
fn split_key_agrees_with_the_split_of_std() {
    for key in ["", "a", "\\", "a\\b", "\\a\\", "text/file.txt", "ä\\ö\\ü", "a\\\\\\b"] {
        let expected: Vec<String> = key.split('\\').map(|piece| piece.to_owned()).collect();
        assert_eq!(split_key(key), expected);
    }
}

#[test]
fn join_path_agrees_with_the_join_of_std() {
    for parts in [vec![], vec!["a"], vec!["a", "b"], vec!["", "x", ""], vec!["ä", "ö"]] {
        let path = paths_path(&parts);
        assert_eq!(join_path(&path), path.join("\\"));
    }
}

#[test]
fn a_path_without_backslash_survives_flattening() {
    for parts in [vec!["a"], vec!["db", "t", "x"], vec![""], vec!["a", "", "b"]] {
        let path = paths_path(&parts);
        assert!(path_survives_flattening(&path));
        assert_eq!(split_key(&join_path(&path)), path);
    }
}

#[test]
fn a_path_with_a_backslash_in_a_segment_does_not_survive_flattening() {
    let path = paths_path(&["a\\b", "c"]);
    assert!(!path_survives_flattening(&path));
    assert_eq!(split_key(&join_path(&path)), paths_path(&["a", "b", "c"]));
}

#[test]
fn the_empty_path_does_not_survive_flattening() {
    let path = paths_path(&[]);
    assert!(!path_survives_flattening(&path));
    assert_eq!(split_key(&join_path(&path)), paths_path(&[""]));
}

#[test]
fn joining_the_split_of_a_key_gives_the_key() {
    for key in ["", "a", "\\", "a\\b", "\\a\\", "a\\\\b"] {
        assert_eq!(join_path(&split_key(key)), key);
    }
}

#[test]
fn same_path_compares_segment_by_segment() {
    assert!(same_path(&paths_path(&["a", "b"]), &paths_path(&["a", "b"])));
    assert!(!same_path(&paths_path(&["a", "b"]), &paths_path(&["a", "B"])));
    assert!(!same_path(&paths_path(&["a", "b"]), &paths_path(&["a"])));
    assert!(!same_path(&paths_path(&["a"]), &paths_path(&["a", "b"])));
    assert!(same_path(&paths_path(&[]), &paths_path(&[])));
    assert!(!same_path(&paths_path(&["ab"]), &paths_path(&["a", "b"])));
}

#[test]
fn clone_path_copies_every_segment() {
    let path = paths_path(&["x", "y", "z"]);
    assert_eq!(clone_path(&path), path);
    assert_eq!(clone_path(&paths_path(&[])), paths_path(&[]));
}

#[test]
fn contains_path_finds_whole_paths_only() {
    let list = vec![paths_path(&["a", "b"]), paths_path(&["c"])];
    assert!(contains_path(&list, &paths_path(&["a", "b"])));
    assert!(contains_path(&list, &paths_path(&["c"])));
    assert!(!contains_path(&list, &paths_path(&["a"])));
    assert!(!contains_path(&list, &paths_path(&["b"])));
    assert!(!contains_path(&Vec::new(), &paths_path(&["a"])));
}

#[test]
fn chars_of_lists_the_characters() {
    assert_eq!(chars_of("añ€"), vec!['a', 'ñ', '€']);
    assert_eq!(chars_of(""), Vec::<char>::new());
}

#[test]
fn str_eq_compares_characters() {
    assert!(str_eq("", ""));
    assert!(str_eq("warhammer", "warhammer"));
    assert!(!str_eq("warhammer", "warhammer_2"));
    assert!(!str_eq("warhammer_2", "warhammer"));
    assert!(!str_eq("abc", "abd"));
}

#[test]
fn str_ends_with_agrees_with_std() {
    let names = ["", "a", ".lua", "script.lua", "script.luac", "lua", "x.xml.shader", "ü.lua"];
    let suffixes = ["", ".lua", ".xml", ".xml.shader", "a", "ü.lua"];
    for name in names {
        for suffix in suffixes {
            assert_eq!(str_ends_with(name, suffix), name.ends_with(suffix), "{name} {suffix}");
        }
    }
}

#[test]
fn str_contains_char_agrees_with_std() {
    assert!(str_contains_char("a\\b", '\\'));
    assert!(!str_contains_char("a/b", '\\'));
    assert!(!str_contains_char("", '\\'));
    assert!(str_contains_char("\\", '\\'));
}

#[test]
fn split_str_keeps_empty_pieces() {
    assert_eq!(split_str("a/b", '/'), paths_path(&["a", "b"]));
    assert_eq!(split_str("/a//b/", '/'), paths_path(&["", "a", "", "b", ""]));
    assert_eq!(split_str("", '/'), paths_path(&[""]));
}

#[test]
fn split_non_empty_drops_empty_pieces() {
    assert_eq!(split_non_empty("a/b", '/'), paths_path(&["a", "b"]));
    assert_eq!(split_non_empty("/a//b/", '/'), paths_path(&["a", "b"]));
    assert_eq!(split_non_empty("", '/'), paths_path(&[]));
    assert_eq!(split_non_empty("///", '/'), paths_path(&[]));
    assert_eq!(split_non_empty("name.txt", '/'), paths_path(&["name.txt"]));
}

#[test]
fn join_strs_joins_with_the_delimiter() {
    assert_eq!(join_strs(&paths_path(&["a", "b", "c"]), '/', "/"), "a/b/c");
    assert_eq!(join_strs(&paths_path(&[]), '/', "/"), "");
    assert_eq!(join_strs(&paths_path(&["a"]), '/', "/"), "a");
}

#[test]
fn with_suffix_appends() {
    assert_eq!(with_suffix("name", ".loc"), "name.loc");
    assert_eq!(with_suffix("", ".txt"), ".txt");
}

#[test]
fn str_precedes_agrees_with_the_order_of_std() {
    let names = ["", "a", "A", "ab", "b", "aa", "ä", "z", "€", "a.pack", "a_pack", "B.pack"];
    for a in names {
        for b in names {
            assert_eq!(str_precedes(a, b), a < b, "{a} {b}");
        }
    }
}

#[test]
fn sort_names_sorts_as_std_does() {
    let names = paths_path(&["b.pack", "a.pack", "C.pack", "a.pack", "", "ä.pack", "ab.pack"]);
    let mut expected = names.clone();
    expected.sort();
    assert_eq!(sort_names(names), expected);
    assert_eq!(sort_names(Vec::new()), Vec::<String>::new());
}

#[test]
fn sort_by_name_keeps_every_entry() {
    let entries = vec![
        ("b".to_owned(), 2),
        ("a".to_owned(), 1),
        ("c".to_owned(), 3),
        ("a".to_owned(), 4),
    ];
    let sorted = sort_by_name(entries);
    let names: Vec<&str> = sorted.iter().map(|entry| entry.0.as_str()).collect();
    assert_eq!(names, vec!["a", "a", "b", "c"]);
    let mut numbers: Vec<i32> = sorted.iter().map(|entry| entry.1).collect();
    numbers.sort();
    assert_eq!(numbers, vec![1, 2, 3, 4]);
    assert_eq!(sorted[2], ("b".to_owned(), 2));
    assert_eq!(sorted[3], ("c".to_owned(), 3));
}

#[test]
fn place_of_agrees_with_the_order_of_std() {
    let paths = [
        vec![],
        vec![""],
        vec!["a"],
        vec!["a", "b"],
        vec!["a", "a"],
        vec!["ab"],
        vec!["b"],
        vec!["B", "z"],
        vec!["a\\b"],
        vec!["a", ""],
        vec!["ä"],
    ];
    for a in &paths {
        for b in &paths {
            let x = paths_path(a);
            let y = paths_path(b);
            let expected = match x.cmp(&y) {
                std::cmp::Ordering::Less => Place::Before,
                std::cmp::Ordering::Equal => Place::Same,
                std::cmp::Ordering::Greater => Place::After,
            };
            assert_eq!(place_of(&x, &y), expected, "{a:?} {b:?}");
        }
    }
}
