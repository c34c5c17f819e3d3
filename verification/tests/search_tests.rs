use rustgrep::search;
use rustgrep::search_case_insensitive;

#[test]
fn one_result() {
    let query = "duct";
    let contents = "
Rust:
safe, fast, productive.
Pick three.";

    assert_eq!(vec!["safe, fast, productive."], search(query, contents));
}

#[test]
fn case_sensitive() {
    let query = "duct";
    let contents = "
Rust:
safe, fast, productive.
Pick three.
Duct tape";

    assert_eq!(vec!["safe, fast, productive."], search(query, contents));
}

#[test]
fn case_insensitive() {
    let query = "rUsT";
    let contents = "
Rust:
safe, fast, productive.
Pick three.
Trust me.";
    assert_eq!(
        vec!["Rust:", "Trust me."],
        search_case_insensitive(query, contents)
    )
}

#[test]
fn empty_query_returns_every_line() {
    let contents = "
Rust:
safe, fast, productive.
Pick three.";
    assert_eq!(
        vec!["", "Rust:", "safe, fast, productive.", "Pick three."],
        search("", contents)
    );
}

#[test]
fn empty_query_on_trailing_newline() {
    assert_eq!(vec!["a", "b"], search("", "a\nb\n"));
}

#[test]
fn no_match_returns_empty() {
    let contents = "
Rust:
safe, fast, productive.
Pick three.";
    assert!(search("nomatch", contents).is_empty());
    assert!(search_case_insensitive("nomatch", contents).is_empty());
}

#[test]
fn empty_contents_has_no_lines() {
    assert!(search("a", "").is_empty());
    assert!(search("", "").is_empty());
}

#[test]
fn carriage_return_newline_ends_a_line() {
    assert_eq!(vec!["alpha"], search("al", "alpha\r\nbeta\r\n"));
}

#[test]
fn lone_carriage_return_stays_in_the_line() {
    assert_eq!(vec!["bare\r"], search("bare", "bare\r"));
}

#[test]
fn insensitive_finds_at_least_as_much() {
    let query = "Rust";
    let contents = "
Rust:
trust me.
Pick three.";
    let sensitive = search(query, contents);
    let insensitive = search_case_insensitive(query, contents);
    assert_eq!(vec!["Rust:"], sensitive);
    assert_eq!(vec!["Rust:", "trust me."], insensitive);
    assert!(insensitive.len() >= sensitive.len());
}

#[test]
fn insensitive_lowercases_both_sides() {
    // Fails if lowercasing were the identity: the query and the line agree
    // in no character's case.
    assert_eq!(
        vec!["rust is here"],
        search_case_insensitive("RUST", "rust is here\nnothing else")
    );
}

#[test]
fn multiple_occurrences_yield_one_entry() {
    assert_eq!(vec!["aaa"], search("aa", "aaa\nb"));
}
