use hypergrab::items::parse_rows;

fn row(code: &str, desc: &str) -> (String, String) {
    (code.to_string(), desc.to_string())
}

#[test]
fn parse_rows_skips_header_and_trims_codes() {
    let rows = vec![row("Code", "Description"), row(" TC-01 ", "Login test")];
    let items = parse_rows(&rows);
    assert_eq!(items.len(), 1);
    assert_eq!(items[0].code, "TC-01");
    assert_eq!(items[0].description, "Login test");
}

#[test]
fn parse_rows_drops_rows_with_empty_codes() {
    let rows = vec![
        row("Code", "Description"),
        row("", "no code"),
        row("   ", "blank code"),
        row("TC-02", "kept"),
    ];
    let items = parse_rows(&rows);
    assert_eq!(items.len(), 1);
    assert_eq!(items[0].code, "TC-02");
    assert_eq!(items[0].description, "kept");
}

#[test]
fn parse_rows_keeps_order() {
    let rows = vec![
        row("Code", "Description"),
        row("TC-01", "first"),
        row("TC-02", "second"),
        row("TC-03", "third"),
    ];
    let items = parse_rows(&rows);
    let codes: Vec<&str> = items.iter().map(|i| i.code.as_str()).collect();
    assert_eq!(codes, vec!["TC-01", "TC-02", "TC-03"]);
}

#[test]
fn parse_rows_of_empty_sheet_is_empty() {
    let rows: Vec<(String, String)> = Vec::new();
    assert!(parse_rows(&rows).is_empty());
    let rows = vec![row("Code", "Description")];
    assert!(parse_rows(&rows).is_empty());
}
