use rust_examples::io_example::{
    matching_lines, matching_lines_by_key, run, run_iter, search, search_case_insensitive,
    search_case_insensitive_iter, search_iter, Config,
};

#[test]
fn search_minds_the_case() {
    let contents = "Rust:\nsafe, fast, productive.\nPick three.\nTrust me.";
    assert_eq!(search("rUsT", contents), Vec::<&str>::new());
    assert_eq!(search("rust", contents), vec!["Trust me."]);
    assert_eq!(search_iter("rust", contents), vec!["Trust me."]);
    assert_eq!(search("", "a\nb"), vec!["a", "b"]);
    assert_eq!(search("a", ""), Vec::<&str>::new());
}

#[test]
fn search_cuts_the_text_into_lines() {
    assert_eq!(search("b", "ab\r\nbc\ncd\n"), vec!["ab", "bc"]);
    assert_eq!(search("b\nb", "ab\nbc"), Vec::<&str>::new());
}

#[test]
fn both_ways_of_searching_without_case_agree() {
    let contents = "Rust:\nsafe, fast, productive.\nPick three.\nTrust me.";
    assert_eq!(search_case_insensitive("RUST", contents), vec!["Rust:", "Trust me."]);
    assert_eq!(search_case_insensitive_iter("RUST", contents), vec!["Rust:", "Trust me."]);
    assert_eq!(search_case_insensitive("ÄRGER", "kein ärger\nkein Aerger"), vec!["kein ärger"]);
}

#[test]
fn matching_lines_keeps_the_lines_that_hold_the_query() {
    assert_eq!(matching_lines(vec!["one", "two", "three", "none"], "ne"), vec!["one", "none"]);
    assert_eq!(matching_lines(vec!["one", "two"], "x"), Vec::<&str>::new());
    assert_eq!(matching_lines(vec![], "x"), Vec::<&str>::new());
    assert_eq!(matching_lines(vec!["one", ""], ""), vec!["one", ""]);
    assert_eq!(matching_lines(vec!["ab", "ba"], "ab"), vec!["ab"]);
}

#[test]
fn config_takes_the_second_and_the_third_argument() {
    let args = vec![String::from("minigrep"), String::from("duct"), String::from("poem.txt")];
    let config = Config::new(&args, true).unwrap();
    assert_eq!(config.query, "duct");
    assert_eq!(config.filename, "poem.txt");
    assert!(config.case_sensitive);
    let config = Config::new(&args, false).unwrap();
    assert!(!config.case_sensitive);
}

#[test]
fn config_wants_three_arguments() {
    let args = vec![String::from("minigrep"), String::from("duct")];
    assert_eq!(Config::new(&args, true).err(), Some("not enough arguments"));
    assert_eq!(Config::new(&[], true).err(), Some("not enough arguments"));
}

#[test]
fn new_instance_takes_the_arguments_from_the_front() {
    let args = vec![String::from("duct"), String::from("poem.txt"), String::from("more")];
    let config = Config::new_instance(&args, false).unwrap();
    assert_eq!(config.query, "duct");
    assert_eq!(config.filename, "poem.txt");
    assert!(!config.case_sensitive);
    assert_eq!(Config::new_instance(&[], true).err(), Some("Didn't get a query string"));
    assert_eq!(Config::new_instance(&args[..1], true).err(), Some("Didn't get a file name"));
}

#[test]
fn run_searches_as_the_configuration_says() {
    let contents = "Rust:\nsafe, fast, productive.\nPick three.\nTrust me.";
    let mut config = Config {
        query: String::from("rUsT"),
        filename: String::from("poem.txt"),
        case_sensitive: true,
    };
    assert_eq!(run(&config, contents), Vec::<&str>::new());
    assert_eq!(run_iter(&config, contents), Vec::<&str>::new());
    config.case_sensitive = false;
    assert_eq!(run(&config, contents), vec!["Rust:", "Trust me."]);
    assert_eq!(run_iter(&config, contents), vec!["Rust:", "Trust me."]);
}

#[test]
fn matching_lines_by_key_looks_into_the_keys_and_keeps_the_lines() {
    let lines = vec!["Rust:", "safe, fast", "Trust me."];
    let keys = vec![String::from("rust:"), String::from("safe, fast"), String::from("trust me.")];
    assert_eq!(matching_lines_by_key(lines, keys, "rust"), vec!["Rust:", "Trust me."]);
    let lines = vec!["one", "two"];
    let keys = vec![String::from("x"), String::from("one")];
    assert_eq!(matching_lines_by_key(lines, keys, "one"), vec!["two"]);
    assert_eq!(matching_lines_by_key(vec![], vec![], "one"), Vec::<&str>::new());
    assert_eq!(matching_lines_by_key(vec!["a"], vec![String::new()], "a"), Vec::<&str>::new());
}
