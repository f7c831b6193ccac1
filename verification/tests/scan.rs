use texlab::scan::{lines, str_starts_with};

#[test]
fn lines_like_std() {
    let inputs = [
        "", "a", "a\n", "a\r\n", "a\nb", "\n", "\n\n", "a\r", "a\r\rb\r\n\r\nc", "x\ny\n\n",
    ];
    for input in inputs {
        let expected: Vec<String> = input.lines().map(String::from).collect();
        assert_eq!(lines(input), expected, "input {:?}", input);
    }
}

#[test]
fn starts_with_prefixes() {
    assert!(str_starts_with("abc", "ab"));
    assert!(str_starts_with("abc", ""));
    assert!(!str_starts_with("ab", "abc"));
    assert!(!str_starts_with("abc", "b"));
}
