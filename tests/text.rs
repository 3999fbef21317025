use tui::text::{display_lines, insert_chunks, MAX_INSERT_HEIGHT};

fn owned(lines: &[&str]) -> Vec<String> {
    lines.iter().map(|l| l.to_string()).collect()
}

#[test]
fn three_lines() {
    assert_eq!(display_lines("a\nb\nc"), owned(&["a", "b", "c"]));
}

#[test]
fn empty_text_has_no_lines() {
    assert_eq!(display_lines(""), Vec::<String>::new());
}

#[test]
fn final_line_feed_adds_no_line() {
    assert_eq!(display_lines("a\n"), owned(&["a"]));
    assert_eq!(display_lines("a\nb\n"), owned(&["a", "b"]));
}

#[test]
fn blank_lines_are_kept() {
    assert_eq!(display_lines("\n"), owned(&[""]));
    assert_eq!(display_lines("\n\nx"), owned(&["", "", "x"]));
}

#[test]
fn carriage_return_before_line_feed_is_dropped() {
    assert_eq!(display_lines("a\r\nb\r\n"), owned(&["a", "b"]));
    assert_eq!(display_lines("\r\n"), owned(&[""]));
}

#[test]
fn lone_carriage_return_stays() {
    assert_eq!(display_lines("a\rb"), owned(&["a\rb"]));
    assert_eq!(display_lines("x\r"), owned(&["x\r"]));
}

#[test]
fn wide_characters_split_by_character() {
    assert_eq!(display_lines("héllo\nwörld ✓"), owned(&["héllo", "wörld ✓"]));
}

#[test]
fn agrees_with_std_lines() {
    for text in ["", "a", "a\n", "\n\n", "a\r\nb", "x\r", "é\r\n\r\nü", "one\ntwo\r\nthree"] {
        let expected: Vec<String> = text.lines().map(|l| l.to_string()).collect();
        assert_eq!(display_lines(text), expected, "text {:?}", text);
    }
}

#[test]
fn exactly_the_largest_height_fits_one_chunk() {
    let lines: Vec<String> = (0..65535).map(|k: u32| k.to_string()).collect();
    let chunks = insert_chunks(&lines);
    assert_eq!(chunks.len(), 1);
    assert_eq!(chunks[0].height, MAX_INSERT_HEIGHT);
    assert_eq!(chunks[0].lines, lines);
}

#[test]
fn one_line_past_the_largest_height_makes_a_second_chunk() {
    let lines: Vec<String> = (0..65536).map(|k: u32| k.to_string()).collect();
    let chunks = insert_chunks(&lines);
    assert_eq!(chunks.len(), 2);
    assert_eq!(chunks[0].height, 65535);
    assert_eq!(chunks[1].height, 1);
    assert_eq!(chunks[1].lines, vec!["65535".to_string()]);
}

#[test]
fn no_lines_make_no_chunks() {
    assert!(insert_chunks(&Vec::new()).is_empty());
}
