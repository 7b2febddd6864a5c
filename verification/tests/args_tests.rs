use termbuf::args::Args;

#[test]
fn test_args_new() {
    let args = Args::new("ls -l");
    assert_eq!(args.args, vec!["ls", "-l"]);
}

#[test]
fn test_args_new_notrim() {
    let args = Args::new_notrim("ls -l ");
    assert_eq!(args.args, vec!["ls", "-l", ""]);
}

#[test]
fn test_args_from_vec() {
    let args = Args::from_vec(vec!["ls".to_string(), "-l".to_string()]);
    assert_eq!(args.args, vec!["ls", "-l"]);
}

#[test]
fn test_args_printable() {
    let args = Args::new("ls -l");
    assert_eq!(args.printable(), "ls -l");
}

#[test]
fn test_args_printable_with_quotes() {
    let args = Args::new("ls -l \"foo bar\"");
    assert_eq!(args.printable(), "ls -l \"foo bar\"");
}

#[test]
fn test_args_printable_with_quotes_and_escaped_quotes() {
    let args = Args::new("ls -l \"foo \\\"bar\\\"\"");
    assert_eq!(args.printable(), "ls -l \"foo \\\"bar\\\"\"");
}

#[test]
fn args_spaces_and_quotes() {
    let empty: Vec<String> = Vec::new();
    assert_eq!(Args::new("").args, empty);
    assert_eq!(Args::new("   ").args, empty);
    assert_eq!(Args::new("  a   b  ").args, vec!["a", "b"]);
    assert_eq!(Args::new("\"a b\" c").args, vec!["a b", "c"]);
    assert_eq!(Args::new("a\"b c\"d").args, vec!["ab cd"]);
    assert_eq!(Args::new("a\\ b").args, vec!["a b"]);
    assert_eq!(Args::new("a\\\\b").args, vec!["a\\b"]);
    assert_eq!(Args::new("\"open quote").args, vec!["open quote"]);
    assert_eq!(Args::new("end\\").args, vec!["end"]);
    // an empty quotation gives no argument
    assert_eq!(Args::new("a \"\" b").args, vec!["a", "b"]);
}

#[test]
fn args_notrim_edges() {
    let empty: Vec<String> = Vec::new();
    assert_eq!(Args::new_notrim("").args, empty);
    assert_eq!(Args::new_notrim("ls").args, vec!["ls"]);
    assert_eq!(Args::new_notrim(" ").args, vec![""]);
    assert_eq!(Args::new_notrim("ls ").args, vec!["ls", ""]);
    assert_eq!(Args::new_notrim("ls \\ ").args, vec!["ls", " ", ""]);
}

#[test]
fn args_printable_edges() {
    assert_eq!(Args::from_vec(Vec::new()).printable(), "");
    assert_eq!(Args::from_vec(vec![String::new()]).printable(), "");
    assert_eq!(
        Args::from_vec(vec!["a".to_string(), String::new()]).printable(),
        "a "
    );
    assert_eq!(
        Args::from_vec(vec!["say".to_string(), "\"hi\"".to_string()]).printable(),
        "say \\\"hi\\\""
    );
    assert_eq!(
        Args::from_vec(vec!["a b".to_string(), "c".to_string(), " ".to_string()]).printable(),
        "\"a b\" c \" \""
    );
}

#[test]
fn args_printable_cuts_back() {
    for words in [
        vec!["ls", "-l"],
        vec!["echo", "two words", "x"],
        vec!["a\"b", "c d\"e"],
    ] {
        let owned: Vec<String> = words.iter().map(|w| w.to_string()).collect();
        let line = Args::from_vec(owned.clone()).printable();
        assert_eq!(Args::new(&line).args, owned);
    }
}
