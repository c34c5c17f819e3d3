use rustgrep::matching_lines;
use rustgrep::Config;

fn args_of(parts: &[&str]) -> Vec<String> {
    parts.iter().map(|s| s.to_string()).collect()
}

#[test]
fn too_few_arguments_is_an_error() {
    let err = Config::new(&args_of(&["prog", "query"]), false).unwrap_err();
    assert!(err.contains("Not enough arguments"));
    assert!(Config::new(&args_of(&["prog"]), false).is_err());
    assert!(Config::new(&args_of(&[]), true).is_err());
}

#[test]
fn three_arguments_resolve() {
    let config = Config::new(&args_of(&["prog", "needle", "poem.txt"]), false).unwrap();
    assert_eq!("needle", config.query);
    assert_eq!("poem.txt", config.filename);
    assert!(config.case_sensitive);
}

#[test]
fn environment_toggle_switches_mode() {
    let config = Config::new(&args_of(&["prog", "needle", "poem.txt"]), true).unwrap();
    assert!(!config.case_sensitive);
}

#[test]
fn matching_lines_follows_the_mode() {
    let contents = "Rust:\ntrust me.";
    let sensitive = Config::new(&args_of(&["prog", "Rust", "f"]), false).unwrap();
    assert_eq!(vec!["Rust:"], matching_lines(&sensitive, contents));
    let insensitive = Config::new(&args_of(&["prog", "Rust", "f"]), true).unwrap();
    assert_eq!(
        vec!["Rust:", "trust me."],
        matching_lines(&insensitive, contents)
    );
}
