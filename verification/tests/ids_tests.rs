use imposterbot::ids::IdParseError;
use imposterbot::ids::id_from_string;
use imposterbot::ids::id_to_string;
use imposterbot::media::extension_of;
use imposterbot::media::make_media_filename;

#[test]
fn id_to_string_exact_values() {
    assert_eq!(id_to_string(0), "0");
    assert_eq!(id_to_string(7), "7");
    assert_eq!(id_to_string(10), "10");
    assert_eq!(id_to_string(193136312759353344), "193136312759353344");
    assert_eq!(id_to_string(u64::MAX), "18446744073709551615");
}

#[test]
fn id_from_string_parses_valid_ids() {
    assert_eq!(id_from_string("0"), Ok(0));
    assert_eq!(id_from_string("318195473364156419"), Ok(318195473364156419));
    assert_eq!(id_from_string("18446744073709551615"), Ok(u64::MAX));
    assert_eq!(id_from_string("00123"), Ok(123));
}

#[test]
fn id_round_trips_through_its_string() {
    for v in [0u64, 1, 9, 10, 99, 100, 123456789, u64::MAX] {
        assert_eq!(id_from_string(&id_to_string(v)), Ok(v));
    }
}

#[test]
fn id_from_string_rejects_empty() {
    assert_eq!(id_from_string(""), Err(IdParseError::Empty));
}

#[test]
fn id_from_string_rejects_non_digits() {
    assert_eq!(id_from_string("12a4"), Err(IdParseError::InvalidDigit));
    assert_eq!(id_from_string("-5"), Err(IdParseError::InvalidDigit));
    assert_eq!(id_from_string(" 12"), Err(IdParseError::InvalidDigit));
}

#[test]
fn id_from_string_rejects_overflow() {
    assert_eq!(id_from_string("18446744073709551616"), Err(IdParseError::Overflow));
    assert_eq!(id_from_string("99999999999999999999999"), Err(IdParseError::Overflow));
}

#[test]
fn extension_of_exact_values() {
    assert_eq!(extension_of("photo.png"), Some("png".to_string()));
    assert_eq!(extension_of("archive.tar.gz"), Some("gz".to_string()));
    assert_eq!(extension_of("noext"), None);
    assert_eq!(extension_of(""), None);
    assert_eq!(extension_of("trailing."), Some("".to_string()));
}

#[test]
fn media_filename_keeps_the_extension() {
    let name = make_media_filename("photo.png");
    assert_eq!(name.len(), 40);
    assert!(name.ends_with(".png"));
    assert_ne!(name, "photo.png");
    let stem = &name[..36];
    assert!(stem.chars().all(|c| c.is_ascii_hexdigit() || c == '-'));
}

#[test]
fn media_filename_without_extension_is_bare_stem() {
    let name = make_media_filename("upload");
    assert_eq!(name.len(), 36);
    assert!(name.chars().all(|c| c.is_ascii_hexdigit() || c == '-'));
}

#[test]
fn media_filenames_are_collision_resistant() {
    let a = make_media_filename("x.png");
    let b = make_media_filename("x.png");
    assert_ne!(a, b);
}
