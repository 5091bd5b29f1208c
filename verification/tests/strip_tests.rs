use sitegen::strip::strip_noise;

#[test]
fn strips_noise_prologue_once_only() {
    let out = strip_noise("\n>garbage\nreal line\n>looks like garbage\n");
    assert_eq!(out, "real line\n>looks like garbage\n");
}

#[test]
fn keeps_blank_lines_after_content() {
    assert_eq!(strip_noise("a\n\nb\n"), "a\n\nb\n");
}

#[test]
fn all_noise_leaves_nothing() {
    assert_eq!(strip_noise(""), "");
    assert_eq!(strip_noise("\n\n\n"), "");
    assert_eq!(strip_noise(">a\n>b"), "");
}

#[test]
fn content_without_final_newline_gains_one() {
    assert_eq!(strip_noise("hello"), "hello\n");
    assert_eq!(strip_noise(">x\nhello"), "hello\n");
}

#[test]
fn marker_inside_line_is_not_noise() {
    assert_eq!(strip_noise("a > b\n"), "a > b\n");
}
