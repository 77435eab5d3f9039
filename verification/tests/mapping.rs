use musicbrainz::artist::Artist;
use musicbrainz::document::JsonTree;
use musicbrainz::enums::{AlbumMainType, AlbumSecondaryType, PersonType};
use musicbrainz::error::Error;
use musicbrainz::mbid::Uuid;
use musicbrainz::release_group::ReleaseGroup;

fn obj(fields: Vec<(&str, JsonTree)>) -> JsonTree {
    JsonTree::Object(
        fields
            .into_iter()
            .map(|(k, v)| (k.to_string(), v))
            .collect(),
    )
}

fn txt(s: &str) -> JsonTree {
    JsonTree::Text(s.to_string())
}

fn tag(name: &str) -> JsonTree {
    obj(vec![("name", txt(name))])
}

fn credit(artist_id: &str) -> JsonTree {
    obj(vec![("artist", obj(vec![("id", txt(artist_id))]))])
}

const ARTIST_ID: &str = "4a00ec9d-c635-463a-8cd4-eb61725f0c60";
const ALBUM_ID: &str = "638a007a-8423-40d6-a97c-f819d320d33c";

#[test]
fn test_search_zero_count_is_empty() {
    let page = obj(vec![
        ("count", JsonTree::Number(0)),
        ("artists", JsonTree::Array(vec![tag("ignored")])),
    ]);
    let found = Artist::search(&page).expect("a zero-count page is never an error");
    assert!(found.is_empty());

    let page = obj(vec![("count", JsonTree::Number(0))]);
    let found = ReleaseGroup::search(&page).expect("a zero-count page is never an error");
    assert!(found.is_empty());
}

#[test]
fn test_search_missing_count_is_envelope_error() {
    let page = obj(vec![("artists", JsonTree::Array(vec![]))]);
    assert_eq!(Artist::search(&page), Err(Error::EnvelopeUnparseable));
    let page = obj(vec![("count", txt("1"))]);
    assert_eq!(ReleaseGroup::search(&page), Err(Error::EnvelopeUnparseable));
}

#[test]
fn test_search_drops_non_maximal_score() {
    let strong = obj(vec![
        ("score", txt("100")),
        ("name", txt("Exact Match")),
        ("id", txt(ARTIST_ID)),
    ]);
    let weak = obj(vec![
        ("score", txt("72")),
        ("name", txt("Weak Match")),
        ("id", txt("ffffffff-ffff-ffff-ffff-ffffffffffff")),
    ]);
    let page = obj(vec![
        ("count", JsonTree::Number(2)),
        ("artists", JsonTree::Array(vec![strong, weak])),
    ]);
    let found = Artist::search(&page).expect("the page is well-formed");
    assert_eq!(found.len(), 1);
    assert_eq!(found[0].name, "Exact Match");
}

#[test]
fn test_search_skips_entry_without_name() {
    let nameless = obj(vec![("score", txt("100")), ("id", txt(ARTIST_ID))]);
    let page = obj(vec![
        ("count", JsonTree::Number(1)),
        ("artists", JsonTree::Array(vec![nameless])),
    ]);
    let found = Artist::search(&page).expect("nameless entries are skipped, not errors");
    assert!(found.is_empty());
}

#[test]
fn test_search_bad_id_aborts_page() {
    let entry = obj(vec![
        ("score", txt("100")),
        ("name", txt("Someone")),
        ("id", txt("not-a-uuid")),
    ]);
    let page = obj(vec![
        ("count", JsonTree::Number(1)),
        ("artists", JsonTree::Array(vec![entry])),
    ]);
    assert_eq!(Artist::search(&page), Err(Error::InvalidIdentifier));

    let entry = obj(vec![("score", txt("100")), ("name", txt("Someone"))]);
    let page = obj(vec![
        ("count", JsonTree::Number(1)),
        ("artists", JsonTree::Array(vec![entry])),
    ]);
    assert_eq!(Artist::search(&page), Err(Error::MissingRequiredField));
}

#[test]
fn test_search_metallica_end_to_end() {
    let entry = obj(vec![
        ("score", txt("100")),
        ("name", txt("Metallica")),
        ("id", txt(ARTIST_ID)),
        (
            "tags",
            JsonTree::Array(vec![tag("thrash metal"), tag("heavy metal")]),
        ),
    ]);
    let page = obj(vec![
        ("count", JsonTree::Number(1)),
        ("artists", JsonTree::Array(vec![entry])),
    ]);
    let found = Artist::search(&page).expect("the page is well-formed");
    assert_eq!(found.len(), 1);
    let artist = &found[0];
    assert_eq!(artist.name, "Metallica");
    assert_eq!(artist.gender, "");
    assert_eq!(artist.tags, vec!["thrash metal".to_string(), "heavy metal".to_string()]);
    assert!(artist.release_groups.is_empty());
    assert_eq!(artist.artist_type, PersonType::Other);
    assert_eq!(artist.id, Uuid::parse_str(ARTIST_ID).unwrap());
}

#[test]
fn test_lookup_remote_rejected() {
    let doc = obj(vec![
        ("error", txt("Not Found")),
        ("id", txt(ARTIST_ID)),
        ("type", txt("Person")),
    ]);
    assert_eq!(
        Artist::lookup(&doc),
        Err(Error::RemoteRejected(String::from("Not Found")))
    );
    assert_eq!(
        ReleaseGroup::lookup(&doc),
        Err(Error::RemoteRejected(String::from("Not Found")))
    );
}

#[test]
fn test_lookup_artist_full_detail() {
    let rg_entry = obj(vec![
        ("title", txt("For Lack of a Better Name")),
        ("first-release-date", txt("2009-09-22")),
        ("id", txt(ALBUM_ID)),
        ("primary-type", txt("Album")),
        (
            "secondary-types",
            JsonTree::Array(vec![txt("Compilation"), txt("DJ-mix")]),
        ),
    ]);
    let doc = obj(vec![
        ("id", txt(ARTIST_ID)),
        ("name", txt("deadmau5")),
        ("gender", txt("Male")),
        ("type", txt("Person")),
        ("tags", JsonTree::Array(vec![tag("electronic")])),
        ("release-groups", JsonTree::Array(vec![rg_entry])),
    ]);
    let artist = Artist::lookup(&doc).expect("the document is well-formed");
    assert_eq!(artist.id, Uuid::parse_str(ARTIST_ID).unwrap());
    assert_eq!(artist.name, "deadmau5");
    assert_eq!(artist.gender, "Male");
    assert_eq!(artist.artist_type, PersonType::Person);
    assert_eq!(artist.tags, vec!["electronic".to_string()]);
    assert_eq!(artist.release_groups.len(), 1);
    let rg = &artist.release_groups[0];
    assert_eq!(rg.title, "For Lack of a Better Name");
    assert_eq!(rg.release_date, "2009-09-22");
    assert_eq!(rg.id, Uuid::parse_str(ALBUM_ID).unwrap());
    // The back-reference comes from the parent document's identifier.
    assert_eq!(rg.artist, Uuid::parse_str(ARTIST_ID).unwrap());
    assert_eq!(rg.primary_type, AlbumMainType::Album);
    assert_eq!(
        rg.secondary_types,
        vec![AlbumSecondaryType::Compilation, AlbumSecondaryType::DjMix]
    );
}

#[test]
fn test_lookup_artist_missing_type() {
    let doc = obj(vec![("id", txt(ARTIST_ID)), ("name", txt("deadmau5"))]);
    assert_eq!(Artist::lookup(&doc), Err(Error::MissingRequiredField));
}

#[test]
fn test_lookup_artist_unknown_type() {
    let doc = obj(vec![("id", txt(ARTIST_ID)), ("type", txt("Wizard"))]);
    assert_eq!(Artist::lookup(&doc), Err(Error::UnrecognizedEnumValue));
}

#[test]
fn test_lookup_artist_bad_id() {
    let doc = obj(vec![("id", txt("0000")), ("type", txt("Person"))]);
    assert_eq!(Artist::lookup(&doc), Err(Error::InvalidIdentifier));
}

#[test]
fn test_lookup_artist_bad_nested_secondary_type() {
    let rg_entry = obj(vec![
        ("id", txt(ALBUM_ID)),
        ("primary-type", txt("Album")),
        ("secondary-types", JsonTree::Array(vec![txt("Bootleg")])),
    ]);
    let doc = obj(vec![
        ("id", txt(ARTIST_ID)),
        ("type", txt("Person")),
        ("release-groups", JsonTree::Array(vec![rg_entry])),
    ]);
    assert_eq!(Artist::lookup(&doc), Err(Error::UnrecognizedEnumValue));

    let rg_entry = obj(vec![
        ("id", txt(ALBUM_ID)),
        ("primary-type", txt("Album")),
        ("secondary-types", JsonTree::Array(vec![JsonTree::Number(7)])),
    ]);
    let doc = obj(vec![
        ("id", txt(ARTIST_ID)),
        ("type", txt("Person")),
        ("release-groups", JsonTree::Array(vec![rg_entry])),
    ]);
    assert_eq!(Artist::lookup(&doc), Err(Error::MissingRequiredField));
}

#[test]
fn test_lookup_release_group_detail() {
    let doc = obj(vec![
        ("id", txt(ALBUM_ID)),
        ("title", txt("For Lack of a Better Name")),
        ("first-release-date", txt("2009-09-22")),
        ("primary-type", txt("Album")),
        ("secondary-types", JsonTree::Array(vec![txt("Remix")])),
        ("artist-credit", JsonTree::Array(vec![credit(ARTIST_ID)])),
    ]);
    let rg = ReleaseGroup::lookup(&doc).expect("the document is well-formed");
    assert_eq!(rg.title, "For Lack of a Better Name");
    assert_eq!(rg.release_date, "2009-09-22");
    assert_eq!(rg.id, Uuid::parse_str(ALBUM_ID).unwrap());
    assert_eq!(rg.artist, Uuid::parse_str(ARTIST_ID).unwrap());
    assert_eq!(rg.primary_type, AlbumMainType::Album);
    assert_eq!(rg.secondary_types, vec![AlbumSecondaryType::Remix]);
}

#[test]
fn test_lookup_release_group_without_credit_gets_nil_artist() {
    let doc = obj(vec![("id", txt(ALBUM_ID)), ("primary-type", txt("EP"))]);
    let rg = ReleaseGroup::lookup(&doc).expect("the artist credit is optional in a lookup");
    assert_eq!(rg.artist, Uuid::nil());
    assert_eq!(rg.primary_type, AlbumMainType::EP);
    assert_eq!(rg.title, "");
}

#[test]
fn test_search_release_group_requires_credit() {
    let entry = obj(vec![("score", txt("100")), ("id", txt(ALBUM_ID))]);
    let page = obj(vec![
        ("count", JsonTree::Number(1)),
        ("release-groups", JsonTree::Array(vec![entry])),
    ]);
    assert_eq!(ReleaseGroup::search(&page), Err(Error::MissingRequiredField));
}

#[test]
fn test_search_release_group_page() {
    let strong = obj(vec![
        ("score", txt("100")),
        ("title", txt("For Lack of a Better Name")),
        ("id", txt(ALBUM_ID)),
        ("artist-credit", JsonTree::Array(vec![credit(ARTIST_ID)])),
    ]);
    let weak = obj(vec![
        ("score", txt("31")),
        ("title", txt("Some Other Record")),
        ("id", txt("ffffffff-ffff-ffff-ffff-ffffffffffff")),
    ]);
    let page = obj(vec![
        ("count", JsonTree::Number(2)),
        ("release-groups", JsonTree::Array(vec![strong, weak])),
    ]);
    let found = ReleaseGroup::search(&page).expect("the page is well-formed");
    assert_eq!(found.len(), 1);
    assert_eq!(found[0].title, "For Lack of a Better Name");
    assert_eq!(found[0].release_date, "");
    assert_eq!(found[0].primary_type, AlbumMainType::Other);
    assert!(found[0].secondary_types.is_empty());
}

#[test]
fn test_release_group_equality_by_identity() {
    let id = Uuid::parse_str(ALBUM_ID).unwrap();
    let artist = Uuid::parse_str(ARTIST_ID).unwrap();
    let a = ReleaseGroup::new(
        String::from("One Title"),
        String::from("2009-09-22"),
        id,
        artist,
        AlbumMainType::Album,
        vec![AlbumSecondaryType::Remix],
    );
    let b = ReleaseGroup::new(
        String::from("Another Title"),
        String::new(),
        id,
        artist,
        AlbumMainType::Other,
        Vec::new(),
    );
    assert_eq!(a, b);

    let other_id = Uuid::parse_str("ffffffff-ffff-ffff-ffff-ffffffffffff").unwrap();
    let c = ReleaseGroup::new(
        String::from("One Title"),
        String::from("2009-09-22"),
        other_id,
        artist,
        AlbumMainType::Album,
        Vec::new(),
    );
    assert_ne!(a, c);

    let d = ReleaseGroup::new(
        String::from("One Title"),
        String::from("2009-09-22"),
        id,
        other_id,
        AlbumMainType::Album,
        Vec::new(),
    );
    assert_ne!(a, d);
}

#[test]
fn test_artist_empty() {
    let artist = Artist::empty();
    assert_eq!(artist.id, Uuid::nil());
    assert_eq!(artist.name, "");
    assert_eq!(artist.gender, "");
    assert_eq!(artist.artist_type, PersonType::Other);
    assert!(artist.tags.is_empty());
    assert!(artist.release_groups.is_empty());
}
