use convertoid::file_sequence::{SequenceElement, SequenceError, file_sequence_from_names};

fn names(v: &[&str]) -> Vec<String> {
    v.iter().map(|s| s.to_string()).collect()
}

#[test]
fn ten_contiguous_frames_resolve_sorted() {
    let listing = names(&[
        "0003.png", "0001.png", "0010.png", "0004.png", "0002.png", "0006.png", "0005.png",
        "0008.png", "0007.png", "0009.png",
    ]);
    let fs = file_sequence_from_names("frames".to_string(), &listing).unwrap();
    assert_eq!(fs.dir, "frames");
    assert_eq!(fs.files.len(), 10);
    for (i, e) in fs.files.iter().enumerate() {
        assert_eq!(e.index, i + 1);
    }
    assert_eq!(fs.files[0].file_name, "0001.png");
    assert_eq!(fs.files[9].file_name, "0010.png");
}

#[test]
fn a_skipped_index_is_a_sequence_error() {
    let listing = names(&[
        "0001.png", "0002.png", "0004.png", "0005.png", "0006.png", "0007.png", "0008.png",
        "0009.png", "0010.png",
    ]);
    let err = file_sequence_from_names("frames".to_string(), &listing).unwrap_err();
    assert!(matches!(err, SequenceError::Sequence(d) if d == "frames"));
}

#[test]
fn an_empty_directory_is_an_empty_error() {
    let err = file_sequence_from_names("frames".to_string(), &names(&[])).unwrap_err();
    assert!(matches!(err, SequenceError::Empty(d) if d == "frames"));
}

#[test]
fn non_matching_names_are_silently_excluded() {
    let listing = names(&["0002.png", "thumbs.db", "0001.png", "readme", "x01.png", "1.p"]);
    let fs = file_sequence_from_names("d".to_string(), &listing).unwrap();
    assert_eq!(fs.files.len(), 2);
    assert_eq!(fs.files[0].index, 1);
    assert_eq!(fs.files[1].index, 2);
}

#[test]
fn only_non_matching_names_is_an_empty_error() {
    let listing = names(&["thumbs.db", "readme"]);
    let err = file_sequence_from_names("d".to_string(), &listing).unwrap_err();
    assert!(matches!(err, SequenceError::Empty(_)));
}

#[test]
fn a_duplicate_cancelling_a_gap_passes_the_arithmetic_check() {
    // Known limitation of the cheap contiguity check: a duplicate index
    // paired with a gap that cancels out numerically is not detected.
    let listing = names(&["0001.png", "0002.jpg", "0002.png", "0004.png"]);
    let fs = file_sequence_from_names("d".to_string(), &listing).unwrap();
    assert_eq!(fs.files.len(), 4);
}

#[test]
fn an_oversized_index_is_a_parse_error() {
    let listing = names(&["0001.png", "99999999999999999999999999.png"]);
    let err = file_sequence_from_names("d".to_string(), &listing).unwrap_err();
    assert!(matches!(err, SequenceError::Parse(n) if n.starts_with("9999")));
}

#[test]
fn element_parsing_reads_index_and_keeps_the_name() {
    let e = SequenceElement::from_file_name(&"0042.webp".to_string()).unwrap();
    assert_eq!(e.index, 42);
    assert_eq!(e.file_name, "0042.webp");
    let e = SequenceElement::from_file_name(&"7.jpeg".to_string()).unwrap();
    assert_eq!(e.index, 7);
    assert!(matches!(
        SequenceElement::from_file_name(&"cover.png".to_string()),
        Err(SequenceError::NoMatch(_))
    ));
    assert!(matches!(
        SequenceElement::from_file_name(&"0001.a".to_string()),
        Err(SequenceError::NoMatch(_))
    ));
    assert!(matches!(
        SequenceElement::from_file_name(&"0001.toolong".to_string()),
        Err(SequenceError::NoMatch(_))
    ));
}
