use grep::{ArgsError, Config};

fn args(v: &[&str]) -> Vec<String> {
    v.iter().map(|s| s.to_string()).collect()
}

#[test]
fn no_argument_is_missing_query() {
    assert_eq!(Err(ArgsError::MissingQuery), Config::build(&args(&[]), false));
}

#[test]
fn query_alone_is_missing_file_path() {
    assert_eq!(
        Err(ArgsError::MissingFilePath("needle".to_string())),
        Config::build(&args(&["needle"]), true)
    );
}

#[test]
fn query_and_path_build_config() {
    let c = Config::build(&args(&["needle", "poem.txt"]), true).unwrap();
    assert_eq!("needle", c.query);
    assert_eq!("poem.txt", c.file_path);
    assert!(c.ignore_case);
}

#[test]
fn extra_arguments_are_ignored() {
    let c = Config::build(&args(&["q", "f", "extra"]), false).unwrap();
    assert_eq!(
        Config { query: "q".to_string(), file_path: "f".to_string(), ignore_case: false },
        c
    );
}
