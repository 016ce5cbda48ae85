use heim_runtime::split_lines;

#[test]
fn three_terminated_lines() {
    assert_eq!(split_lines("a\nb\nc\n"), vec!["a", "b", "c"]);
}

#[test]
fn last_line_without_newline() {
    assert_eq!(split_lines("a\nb"), vec!["a", "b"]);
}

#[test]
fn crlf_endings_are_dropped() {
    assert_eq!(split_lines("a\r\nb\r\n"), vec!["a", "b"]);
}

#[test]
fn lone_carriage_return_is_kept() {
    assert_eq!(split_lines("a\rb\nc\r"), vec!["a\rb", "c\r"]);
}

#[test]
fn empty_text_has_no_lines() {
    assert!(split_lines("").is_empty());
}

#[test]
fn empty_lines_count() {
    assert_eq!(split_lines("\n\n"), vec!["", ""]);
    assert_eq!(split_lines("\n"), vec![""]);
}

#[test]
fn n_terminated_lines_give_n_items() {
    let lines = ["cpu 1 2 3", "", "intr 42", "ctxt 7"];
    let mut text = String::new();
    for l in lines.iter() {
        text.push_str(l);
        text.push('\n');
    }
    let got = split_lines(&text);
    assert_eq!(got.len(), lines.len());
    assert_eq!(got, lines.to_vec());
}

#[test]
fn non_ascii_lines() {
    assert_eq!(split_lines("é\nü€\n"), vec!["é", "ü€"]);
}
