use grep::lines::split_lines;
use grep::text::{contains_chars, contains_str};
use grep::{search, search_case_insensitive, search_case_sensitive};

const POEM: &str = "\
Rust:
safe, fast, productive.
Pick three
Duct tape.";

const POEM_TRUST: &str = "\
Rust:
safe, fast, productive.
Pick three
Trust me.";

#[test]
fn zero_lines_case_insensitive() {
    let query = "Garbage collection";
    let contents = "\
Rust:
safe, fast, productive.
Pick three
Duct tape.";
    assert_eq!(Vec::<&str>::new(), search_case_insensitive(query, contents));
}

#[test]
fn zero_lines_case_sensitive() {
    let query = "dUcT";
    let contents = "\
Rust:
safe, fast, productive.
Pick three
Duct tape.";
    assert_eq!(Vec::<&str>::new(), search_case_sensitive(query, contents));
}

#[test]
fn insensitive_finds_two_lines() {
    assert_eq!(
        vec!["safe, fast, productive.", "Duct tape."],
        search_case_insensitive("Duct", POEM)
    );
}

#[test]
fn sensitive_finds_one_line() {
    assert_eq!(vec!["Duct tape."], search_case_sensitive("Duct", POEM));
}

#[test]
fn sensitive_lowercase_duct() {
    assert_eq!(vec!["safe, fast, productive."], search_case_sensitive("duct", POEM));
}

#[test]
fn sensitive_mixed_case_finds_nothing() {
    assert_eq!(Vec::<&str>::new(), search_case_sensitive("rUsT", POEM));
}

#[test]
fn insensitive_mixed_case_keeps_lines_as_written() {
    assert_eq!(vec!["Rust:", "Trust me."], search_case_insensitive("rUsT", POEM_TRUST));
}

#[test]
fn insensitive_contains_sensitive_result() {
    let exact = search_case_sensitive("Rust", POEM_TRUST);
    let folded = search_case_insensitive("Rust", POEM_TRUST);
    assert_eq!(vec!["Rust:"], exact);
    assert_eq!(vec!["Rust:", "Trust me."], folded);
    let kept: Vec<&str> = folded.iter().copied().filter(|l| l.contains("Rust")).collect();
    assert_eq!(exact, kept);
}

#[test]
fn search_twice_gives_same_result() {
    assert_eq!(search_case_sensitive("t", POEM), search_case_sensitive("t", POEM));
    assert_eq!(search_case_insensitive("T", POEM), search_case_insensitive("T", POEM));
    assert_eq!(
        vec!["Rust:", "safe, fast, productive.", "Pick three", "Duct tape."],
        search_case_sensitive("t", POEM)
    );
}

#[test]
fn empty_query_matches_every_line() {
    let all = vec!["Rust:", "safe, fast, productive.", "Pick three", "Duct tape."];
    assert_eq!(all, search_case_sensitive("", POEM));
    assert_eq!(all, search_case_insensitive("", POEM));
}

#[test]
fn empty_query_keeps_empty_lines() {
    assert_eq!(vec!["a", "", "b"], search_case_sensitive("", "a\n\nb\n"));
    assert_eq!(vec!["a", "", "b"], search_case_insensitive("", "a\n\nb\n"));
}

#[test]
fn absent_query_gives_empty_result() {
    assert!(search_case_sensitive("xyz", POEM).is_empty());
    assert!(search_case_insensitive("XYZ", POEM).is_empty());
}

#[test]
fn empty_contents_give_no_line() {
    assert!(search_case_sensitive("", "").is_empty());
    assert!(search_case_insensitive("", "").is_empty());
}

#[test]
fn repeated_lines_are_kept() {
    assert_eq!(vec!["ab", "ab"], search_case_sensitive("a", "ab\ncd\nab"));
}

#[test]
fn insensitive_lowers_non_ascii() {
    assert_eq!(vec!["ÄPFEL und Birnen"], search_case_insensitive("äpfel", "ÄPFEL und Birnen\nKirschen"));
    assert!(search_case_sensitive("äpfel", "ÄPFEL und Birnen\nKirschen").is_empty());
}

#[test]
fn search_chooses_mode() {
    assert_eq!(Vec::<&str>::new(), search("rUsT", POEM_TRUST, false));
    assert_eq!(vec!["Rust:", "Trust me."], search("rUsT", POEM_TRUST, true));
}

#[test]
fn lines_drop_terminators() {
    assert_eq!(vec!["a", "b"], split_lines("a\r\nb\n"));
    assert_eq!(vec!["a", "", "b"], split_lines("a\n\nb"));
    assert_eq!(vec![""], split_lines("\n"));
    assert_eq!(Vec::<&str>::new(), split_lines(""));
}

#[test]
fn lines_keep_lone_carriage_return() {
    assert_eq!(vec!["a\r"], split_lines("a\r"));
    assert_eq!(vec!["a\rb", "c"], split_lines("a\rb\nc"));
}

#[test]
fn lines_match_std() {
    let texts = ["x\ny\r\n\r\nz", "\n\n", "one", "é\nü\r\n"];
    for t in texts {
        let ours = split_lines(t);
        let theirs: Vec<&str> = t.lines().collect();
        assert_eq!(theirs, ours);
    }
}

#[test]
fn contains_finds_substrings() {
    assert!(contains_str("productive", "duct"));
    assert!(contains_str("abc", ""));
    assert!(contains_str("", ""));
    assert!(!contains_str("", "a"));
    assert!(!contains_str("ab", "abc"));
    assert!(contains_str("aab", "ab"));
    assert!(!contains_str("Duct", "duct"));
    assert!(contains_chars(&vec!['x', 'y', 'z'], &vec!['z']));
    assert!(!contains_chars(&vec!['x', 'y'], &vec!['y', 'x']));
}

#[test]
fn final_sigma_lowers_apart_from_query() {
    assert_eq!(vec!["ΑΣ"], search_case_sensitive("Σ", "ΑΣ"));
    assert_eq!(Vec::<&str>::new(), search_case_insensitive("Σ", "ΑΣ"));
}
