use doc_vector_index::segmenter::{segment, SegmentError};

fn joined(slices: &[String]) -> String {
    slices.concat()
}

#[test]
fn zero_size_is_invalid_configuration() {
    assert_eq!(segment("some text", 0), Err(SegmentError::InvalidConfiguration));
    assert_eq!(segment("", 0), Err(SegmentError::InvalidConfiguration));
}

#[test]
fn empty_text_gives_no_slices() {
    assert_eq!(segment("", 5), Ok(vec![]));
}

#[test]
fn slices_reassemble_text_within_bound() {
    let text = "The cat sat. The dog ran.";
    let slices = segment(text, 10).unwrap();
    assert!(slices.len() >= 2);
    assert_eq!(joined(&slices), text);
    for s in &slices {
        assert!(s.chars().count() <= 10);
    }
}

#[test]
fn whitespace_is_kept_between_slices() {
    let text = "Some text\n\nfrom a\ndocument";
    let slices = segment(text, 10).unwrap();
    assert_eq!(joined(&slices), text);
    assert!(slices.iter().all(|s| s.chars().count() <= 10));
}

#[test]
fn multibyte_text_is_bounded_in_characters() {
    let text = "ééééé ééééé ééééé";
    let slices = segment(text, 6).unwrap();
    assert_eq!(joined(&slices), text);
    assert!(slices.iter().all(|s| s.chars().count() <= 6));
    assert!(slices.len() >= 3);
}

#[test]
fn short_text_is_one_slice() {
    assert_eq!(segment("abc", 256), Ok(vec!["abc".to_string()]));
}

