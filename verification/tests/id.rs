use dist_file_system::id::{parse_canonical, FileId};

#[test]
fn canonical_format_known_value() {
    let id = FileId(0x550e8400e29b41d4a716446655440000u128);
    assert_eq!(
        id.to_canonical_string().as_str(),
        "550e8400-e29b-41d4-a716-446655440000"
    );
}

#[test]
fn canonical_format_zero() {
    let id = FileId(0);
    assert_eq!(
        id.to_canonical_string().as_str(),
        "00000000-0000-0000-0000-000000000000"
    );
}

#[test]
fn canonical_format_all_ones() {
    let id = FileId(u128::MAX);
    assert_eq!(
        id.to_canonical_string().as_str(),
        "ffffffff-ffff-ffff-ffff-ffffffffffff"
    );
}

#[test]
fn parse_lowercase() {
    let r = parse_canonical("550e8400-e29b-41d4-a716-446655440000");
    assert_eq!(r, Some(FileId(0x550e8400e29b41d4a716446655440000u128)));
}

#[test]
fn parse_uppercase() {
    let r = parse_canonical("550E8400-E29B-41D4-A716-446655440000");
    assert_eq!(r, Some(FileId(0x550e8400e29b41d4a716446655440000u128)));
}

#[test]
fn parse_format_round_trip() {
    let id = FileId(0x0123456789abcdef0011223344556677u128);
    let s = id.to_canonical_string();
    assert_eq!(parse_canonical(s.as_str()), Some(id));
}

#[test]
fn parse_rejects_short_string() {
    assert_eq!(parse_canonical("550e8400-e29b-41d4-a716"), None);
}

#[test]
fn parse_rejects_empty_string() {
    assert_eq!(parse_canonical(""), None);
}

#[test]
fn parse_rejects_bad_digit() {
    assert_eq!(parse_canonical("550g8400-e29b-41d4-a716-446655440000"), None);
}

#[test]
fn parse_rejects_misplaced_hyphen() {
    assert_eq!(parse_canonical("550e84-00e29b-41d4-a716-446655440000"), None);
}

#[test]
fn parse_rejects_missing_hyphens() {
    assert_eq!(parse_canonical("550e8400e29b41d4a716446655440000aaaa"), None);
}
