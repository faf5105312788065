use puz::ParsePuzError;
use puz::PuzVersion;
use puz::PuzzleType;
use puz::SolutionType;

#[test]
fn version_digit_dot_digit_succeeds() {
    let v = PuzVersion::try_from([b'1', b'.', b'3', 0]).unwrap();
    assert_eq!(v.major, 1);
    assert_eq!(v.minor, 3);
    assert_eq!(v.extension, None);

    let v = PuzVersion::try_from([b'9', b'.', b'0', 0]).unwrap();
    assert_eq!(v.major, 9);
    assert_eq!(v.minor, 0);
    assert_eq!(v.extension, None);
}

#[test]
fn version_nonzero_last_byte_becomes_extension() {
    let v = PuzVersion::try_from([b'2', b'.', b'5', b'c']).unwrap();
    assert_eq!(v.major, 2);
    assert_eq!(v.minor, 5);
    assert_eq!(v.extension, Some('c'));
}

#[test]
fn version_rejections_carry_the_raw_bytes() {
    assert_eq!(
        PuzVersion::try_from([b'a', b'.', b'3', 0]),
        Err(ParsePuzError::UnexpectedVersionFormat(b'a', b'.', b'3', 0))
    );
    assert_eq!(
        PuzVersion::try_from([b'1', b',', b'3', 0]),
        Err(ParsePuzError::UnexpectedVersionFormat(b'1', b',', b'3', 0))
    );
    assert_eq!(
        PuzVersion::try_from([b'1', b'.', b':', 7]),
        Err(ParsePuzError::UnexpectedVersionFormat(b'1', b'.', b':', 7))
    );
    assert_eq!(
        PuzVersion::try_from([0, 0, 0, 0]),
        Err(ParsePuzError::UnexpectedVersionFormat(0, 0, 0, 0))
    );
}

#[test]
fn puzzle_type_table_is_exact() {
    assert!(matches!(PuzzleType::try_from(0x0001), Ok(PuzzleType::Normal)));
    assert!(matches!(PuzzleType::try_from(0x0401), Ok(PuzzleType::Diagramless)));
    assert_eq!(PuzzleType::try_from(0x0000), Err(ParsePuzError::UnknownPuzzleType(0x0000)));
    assert_eq!(PuzzleType::try_from(0x0002), Err(ParsePuzError::UnknownPuzzleType(0x0002)));
    // codes are matched exactly, never masked
    assert_eq!(PuzzleType::try_from(0x0101), Err(ParsePuzError::UnknownPuzzleType(0x0101)));
    assert_eq!(PuzzleType::try_from(0xFFFF), Err(ParsePuzError::UnknownPuzzleType(0xFFFF)));
}

#[test]
fn solution_type_table_is_exact() {
    assert!(matches!(SolutionType::try_from(0x0000), Ok(SolutionType::Normal)));
    assert!(matches!(SolutionType::try_from(0x0002), Ok(SolutionType::Missing)));
    assert!(matches!(SolutionType::try_from(0x0004), Ok(SolutionType::Scrambled)));
    assert_eq!(SolutionType::try_from(0x0001), Err(ParsePuzError::UnknownSolutionType(0x0001)));
    assert_eq!(SolutionType::try_from(0x0003), Err(ParsePuzError::UnknownSolutionType(0x0003)));
    assert_eq!(SolutionType::try_from(0x0006), Err(ParsePuzError::UnknownSolutionType(0x0006)));
    assert_eq!(SolutionType::try_from(0xFFFF), Err(ParsePuzError::UnknownSolutionType(0xFFFF)));
}
