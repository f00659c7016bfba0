use nuclear_monitor::regions::find_fillable_regions;

fn art() -> Vec<String> {
    vec![
        "   ________   ".to_string(),
        "  /        \\  ".to_string(),
        " |  ##  ##  | ".to_string(),
        " |  ##  ##  | ".to_string(),
        " |  ##  ##  | ".to_string(),
        " |  ##  ##  | ".to_string(),
        "  \\________/  ".to_string(),
        "              ".to_string(),
    ]
}

#[test]
fn scan_enters_content_before_closing_a_gap() {
    // The scan marks content on the first non-space of each stretch, so a gap
    // that content would close is re-entered instead of recorded.
    let regions = find_fillable_regions(&art());
    assert!(regions.is_empty());
}

#[test]
fn short_lines_are_skipped() {
    let lines = vec![
        "##".to_string(),
        "# #".to_string(),
        "# #".to_string(),
        "##".to_string(),
    ];
    assert!(find_fillable_regions(&lines).is_empty());
}

#[test]
fn empty_art_has_no_regions() {
    assert!(find_fillable_regions(&Vec::new()).is_empty());
}
