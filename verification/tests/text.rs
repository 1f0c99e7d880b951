use allegro_dialog::text::to_c_text;

#[test]
fn plain_text_gets_a_terminator() {
    assert_eq!(to_c_text("Body"), vec![66, 111, 100, 121, 0]);
    assert_eq!(to_c_text("T"), vec![84, 0]);
}

#[test]
fn empty_text_is_the_terminator_alone() {
    assert_eq!(to_c_text(""), vec![0]);
}

#[test]
fn text_is_cut_at_its_first_nul() {
    assert_eq!(to_c_text("a\0b"), vec![97, 0]);
    assert_eq!(to_c_text("ab\0cd\0ef"), vec![97, 98, 0]);
}

#[test]
fn text_that_starts_with_nul_is_empty() {
    assert_eq!(to_c_text("\0"), vec![0]);
    assert_eq!(to_c_text("\0abc"), vec![0]);
}

#[test]
fn text_that_ends_with_nul_gets_no_second_terminator() {
    assert_eq!(to_c_text("ab\0"), vec![97, 98, 0]);
}

#[test]
fn text_beyond_ascii_goes_as_utf8() {
    assert_eq!(to_c_text("é"), vec![0xC3, 0xA9, 0]);
    assert_eq!(to_c_text("日本"), vec![0xE6, 0x97, 0xA5, 0xE6, 0x9C, 0xAC, 0]);
    assert_eq!(to_c_text("ü\0ü"), vec![0xC3, 0xBC, 0]);
}

#[test]
fn encoded_text_has_one_nul_and_it_is_last() {
    for text in ["", "x", "hello world", "a\0b", "\0", "tab\there", "é\0é"] {
        let out = to_c_text(text);
        assert_eq!(out.last(), Some(&0));
        assert_eq!(out.iter().filter(|b| **b == 0).count(), 1);
        assert!(text.as_bytes().starts_with(&out[..out.len() - 1]));
        let cut = out.len() - 1;
        assert!(cut == text.len() || text.as_bytes()[cut] == 0);
    }
}
