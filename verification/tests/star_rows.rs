use star_map::stars::{comma_pieces, star_summary};

#[test]
fn catalogue_row_becomes_eight_fields() {
    let row = r#"[["* alf CMa",101.28,-16.71,379.21,"A0mA1Va",-1.46]]"#;
    let fields = star_summary("-1.46".to_string(), "0.1".to_string(), row).unwrap();
    assert_eq!(
        fields,
        vec![
            "-1.46",
            "0.1",
            "\"* alf CMa\"",
            "101.28",
            "-16.71",
            "379.21",
            "\"A0mA1Va\"",
            ""
        ]
    );
}

#[test]
fn short_rows_are_refused() {
    assert_eq!(star_summary("7".to_string(), "0".to_string(), ""), None);
    assert_eq!(star_summary("7".to_string(), "0".to_string(), "[[a,b,c,d"), None);
}

#[test]
fn name_cut_after_two_bytes() {
    let fields = star_summary("1".to_string(), "2".to_string(), "é,b,c,d,e").unwrap();
    assert_eq!(fields[2], "");
    let fields = star_summary("1".to_string(), "2".to_string(), "ab,b,c,d,e").unwrap();
    assert_eq!(fields[2], "");
    // The third byte lies inside a character, or the piece is one byte long.
    assert_eq!(star_summary("1".to_string(), "2".to_string(), "a€,b,c,d,e"), None);
    assert_eq!(star_summary("1".to_string(), "2".to_string(), "a,b,c,d,e"), None);
}

#[test]
fn comma_pieces_like_split() {
    assert_eq!(comma_pieces("a,,b"), vec!["a", "", "b"]);
    assert_eq!(comma_pieces(""), vec![""]);
    assert_eq!(comma_pieces("x,"), vec!["x", ""]);
    let text = "[[\"Sirius\",1,2],[3]]";
    assert_eq!(comma_pieces(text).join(","), text);
}
