use recipe_pipeline::lists::{join_strings, split_string};

fn lines(items: &[&str]) -> Vec<String> {
    items.iter().map(|s| s.to_string()).collect()
}

#[test]
fn it_works() {
    let result = 2 + 2;
    assert_eq!(result, 4);
}

#[test]
fn join_escapes_each_special_character() {
    assert_eq!(join_strings(lines(&["a,b", "c;d", "e\\f"])), "a\\,b;c\\;d;e\\\\f");
}

#[test]
fn join_puts_one_semicolon_between_neighbours() {
    assert_eq!(join_strings(lines(&["flour", "sugar", "eggs"])), "flour;sugar;eggs");
    assert_eq!(join_strings(lines(&["flour"])), "flour");
    assert_eq!(join_strings(lines(&["", ""])), ";");
}

#[test]
fn join_writes_the_empty_list_as_the_empty_string() {
    assert_eq!(join_strings(Vec::new()), "");
}

#[test]
fn split_cuts_at_plain_semicolons_only() {
    assert_eq!(split_string("a\\;b;c".to_string()), lines(&["a;b", "c"]));
    assert_eq!(split_string("1 cup flour\\, sifted;salt".to_string()), lines(&["1 cup flour, sifted", "salt"]));
}

#[test]
fn split_reads_an_escaped_backslash_before_a_semicolon_as_the_end_of_a_line() {
    assert_eq!(split_string("a\\\\;b".to_string()), lines(&["a\\", "b"]));
}

#[test]
fn split_keeps_a_backslash_that_escapes_nothing() {
    assert_eq!(split_string("a\\b".to_string()), lines(&["a\\b"]));
    assert_eq!(split_string("tail\\".to_string()), lines(&["tail\\"]));
}

#[test]
fn split_reads_the_empty_string_as_one_empty_line() {
    assert_eq!(split_string(String::new()), lines(&[""]));
}

#[test]
fn split_reads_back_what_join_wrote() {
    let cases: Vec<Vec<String>> = vec![
        lines(&["flour"]),
        lines(&["1 cup flour, sifted", "salt; pepper", "back\\slash"]),
        lines(&["", "\\;", ",\\", ";;", "\\\\,"]),
        lines(&[""]),
        lines(&["", ""]),
        lines(&["tab\there", "line\nbreak", "caf\u{e9}"]),
        lines(&["\\", ";", ","]),
    ];
    for case in cases {
        assert_eq!(split_string(join_strings(case.clone())), case);
    }
}

#[test]
fn the_empty_list_does_not_come_back() {
    assert_eq!(split_string(join_strings(Vec::new())), lines(&[""]));
}
