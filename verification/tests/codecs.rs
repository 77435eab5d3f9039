use musicbrainz::enums::{AlbumMainType, AlbumSecondaryType, AlbumType, PersonType};
use musicbrainz::error::Error;
use musicbrainz::mbid::Uuid;

#[test]
fn test_person_type_round_trip() {
    let table = [
        ("Person", PersonType::Person),
        ("Group", PersonType::Group),
        ("Orchestra", PersonType::Orchestra),
        ("Choir", PersonType::Choir),
        ("Character", PersonType::Character),
        ("Other", PersonType::Other),
    ];
    for (text, variant) in table {
        assert_eq!(PersonType::from_str(text), Ok(variant));
        assert_eq!(variant.as_text(), text);
    }
}

#[test]
fn test_album_main_type_round_trip() {
    let table = [
        ("Album", AlbumMainType::Album),
        ("Single", AlbumMainType::Single),
        ("EP", AlbumMainType::EP),
        ("Broadcast", AlbumMainType::Broadcast),
        ("Other", AlbumMainType::Other),
    ];
    for (text, variant) in table {
        assert_eq!(AlbumMainType::from_str(text), Ok(variant));
        assert_eq!(variant.as_text(), text);
    }
}

#[test]
fn test_album_secondary_type_round_trip() {
    let table = [
        ("Compilation", AlbumSecondaryType::Compilation),
        ("Soundtrack", AlbumSecondaryType::Soundtrack),
        ("Spokenword", AlbumSecondaryType::Spokenword),
        ("Interview", AlbumSecondaryType::Interview),
        ("Audiobook", AlbumSecondaryType::Audiobook),
        ("Live", AlbumSecondaryType::Live),
        ("Remix", AlbumSecondaryType::Remix),
        ("DJ-mix", AlbumSecondaryType::DjMix),
        ("Mixtape/Street", AlbumSecondaryType::MixtapeStreet),
    ];
    for (text, variant) in table {
        assert_eq!(AlbumSecondaryType::from_str(text), Ok(variant));
        assert_eq!(variant.as_text(), text);
    }
}

#[test]
fn test_album_type_round_trip() {
    let table = [
        ("Album", AlbumType::Album),
        ("Single", AlbumType::Single),
        ("EP", AlbumType::EP),
        ("Broadcast", AlbumType::Broadcast),
        ("Compilation", AlbumType::Compilation),
        ("Soundtrack", AlbumType::Soundtrack),
        ("Spokenword", AlbumType::Spokenword),
        ("Interview", AlbumType::Interview),
        ("Audiobook", AlbumType::Audiobook),
        ("Live", AlbumType::Live),
        ("Remix", AlbumType::Remix),
        ("DJ-mix", AlbumType::DjMix),
        ("Mixtape/Street", AlbumType::MixtapeStreet),
        ("Other", AlbumType::Other),
    ];
    for (text, variant) in table {
        assert_eq!(AlbumType::from_str(text), Ok(variant));
        assert_eq!(variant.as_text(), text);
    }
}

#[test]
fn test_parse_dj_mix_secondary_type() {
    assert_eq!(
        AlbumSecondaryType::from_str("DJ-mix"),
        Ok(AlbumSecondaryType::DjMix)
    );
}

#[test]
fn test_parse_unknown_enum_value() {
    assert_eq!(
        AlbumSecondaryType::from_str("Bootleg"),
        Err(Error::UnrecognizedEnumValue)
    );
    assert_eq!(PersonType::from_str("person"), Err(Error::UnrecognizedEnumValue));
    assert_eq!(AlbumMainType::from_str(""), Err(Error::UnrecognizedEnumValue));
    assert_eq!(AlbumType::from_str("Demo"), Err(Error::UnrecognizedEnumValue));
}

#[test]
fn test_parse_uuid_canonical() {
    let text = "4a00ec9d-c635-463a-8cd4-eb61725f0c60";
    let id = Uuid::parse_str(text).expect("failed to parse artist ID as Uuid");
    assert_eq!(id.hyphenated(), text);
    assert_eq!(id.value, 0x4a00ec9dc635463a8cd4eb61725f0c60);
}

#[test]
fn test_parse_uuid_uppercase_digits() {
    let id = Uuid::parse_str("4A00EC9D-C635-463A-8CD4-EB61725F0C60")
        .expect("failed to parse artist ID as Uuid");
    assert_eq!(id.hyphenated(), "4a00ec9d-c635-463a-8cd4-eb61725f0c60");
}

#[test]
fn test_parse_uuid_malformed() {
    // Wrong length.
    assert_eq!(
        Uuid::parse_str("4a00ec9d-c635-463a-8cd4"),
        Err(Error::InvalidIdentifier)
    );
    // Invalid character in a digit position.
    assert_eq!(
        Uuid::parse_str("4a00ec9d-c635-463a-8cd4-eb61725f0c6g"),
        Err(Error::InvalidIdentifier)
    );
    // Hyphen out of place.
    assert_eq!(
        Uuid::parse_str("4a00ec9dc-635-463a-8cd4-eb61725f0c60"),
        Err(Error::InvalidIdentifier)
    );
    // Empty string.
    assert_eq!(Uuid::parse_str(""), Err(Error::InvalidIdentifier));
}

#[test]
fn test_nil_uuid() {
    let nil = Uuid::nil();
    assert_eq!(nil.value, 0);
    assert_eq!(nil.hyphenated(), "00000000-0000-0000-0000-000000000000");
}

#[test]
fn test_error_message() {
    assert_eq!(
        Error::RemoteRejected(String::from("Not Found")).message(),
        "rejected by the remote service: Not Found"
    );
    assert_eq!(Error::InvalidIdentifier.message(), "error parsing identifier");
}
