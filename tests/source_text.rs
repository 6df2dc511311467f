use asm6502::source_text::remove_after_double_semicolon;

#[test]
fn test_remove_after_quote() {
    let s = "A=1 ;; comment";
    assert_eq!(remove_after_double_semicolon(s), "A=1 ");
}

#[test]
fn double_semicolon_inside_quotes_is_kept() {
    assert_eq!(
        remove_after_double_semicolon("?=\";;\",0 ;; note"),
        "?=\";;\",0 "
    );
    assert_eq!(remove_after_double_semicolon(";=X>1 A=0"), ";=X>1 A=0");
    assert_eq!(remove_after_double_semicolon(""), "");
}
