use musicbrainz::artist::Artist;
use musicbrainz::document::JsonTree;
use musicbrainz::enums::{AlbumMainType, PersonType};
use musicbrainz::mbid::Uuid;
use musicbrainz::release_group::ReleaseGroup;

fn object(fields: Vec<(&str, JsonTree)>) -> JsonTree {
    JsonTree::Object(
        fields
            .into_iter()
            .map(|(k, v)| (k.to_string(), v))
            .collect(),
    )
}

fn text(s: &str) -> JsonTree {
    JsonTree::Text(s.to_string())
}

fn tag_entry(name: &str) -> JsonTree {
    object(vec![("name", text(name))])
}

#[test]
fn test_search_artist() {
    let generated = Artist::new(
        Uuid::parse_str("4a00ec9d-c635-463a-8cd4-eb61725f0c60")
            .expect("failed to parse artist ID as Uuid"),
        String::from("deadmau5"),
        String::from("male"),
        PersonType::Other,
        vec![
            String::from("electronic"),
            String::from("house"),
            String::from("seen live"),
            String::from("electro"),
            String::from("progressive house"),
            String::from("dance and electronica"),
        ],
        Vec::new(),
    );

    let entry = object(vec![
        ("score", text("100")),
        ("name", text("deadmau5")),
        ("gender", text("male")),
        ("id", text("4a00ec9d-c635-463a-8cd4-eb61725f0c60")),
        (
            "tags",
            JsonTree::Array(vec![
                tag_entry("electronic"),
                tag_entry("house"),
                tag_entry("seen live"),
                tag_entry("electro"),
                tag_entry("progressive house"),
                tag_entry("dance and electronica"),
            ]),
        ),
    ]);
    let page = object(vec![
        ("count", JsonTree::Number(1)),
        ("artists", JsonTree::Array(vec![entry])),
    ]);

    let correct = Artist::search(&page).unwrap().remove(0);

    assert_eq!(correct, generated);
}

#[test]
fn test_search_album() {
    let generated = ReleaseGroup::new(
        String::from("For Lack of a Better Name"),
        String::new(),
        Uuid::parse_str("638a007a-8423-40d6-a97c-f819d320d33c")
            .expect("failed to parse release group ID as Uuid"),
        Uuid::parse_str("4a00ec9d-c635-463a-8cd4-eb61725f0c60")
            .expect("failed to parse artist ID as Uuid"),
        AlbumMainType::Album,
        Vec::new(),
    );

    let entry = object(vec![
        ("score", text("100")),
        ("title", text("For Lack of a Better Name")),
        ("id", text("638a007a-8423-40d6-a97c-f819d320d33c")),
        (
            "artist-credit",
            JsonTree::Array(vec![object(vec![(
                "artist",
                object(vec![("id", text("4a00ec9d-c635-463a-8cd4-eb61725f0c60"))]),
            )])]),
        ),
    ]);
    let page = object(vec![
        ("count", JsonTree::Number(1)),
        ("release-groups", JsonTree::Array(vec![entry])),
    ]);

    let correct = ReleaseGroup::search(&page).unwrap().remove(0);

    assert_eq!(correct, generated);
}

#[test]
fn test_lookup_artist() {
    let generated = Artist::new(
        Uuid::parse_str("4a00ec9d-c635-463a-8cd4-eb61725f0c60")
            .expect("failed to parse artist ID as Uuid"),
        String::from("deadmau5"),
        String::from("Male"),
        PersonType::Person,
        Vec::new(),
        Vec::new(),
    );

    let doc = object(vec![
        ("id", text("4a00ec9d-c635-463a-8cd4-eb61725f0c60")),
        ("name", text("deadmau5")),
        ("gender", text("Male")),
        ("type", text("Person")),
    ]);

    let correct = Artist::lookup(&doc).unwrap();

    assert_eq!(correct, generated);
}

#[test]
fn test_lookup_album() {
    let generated = ReleaseGroup::new(
        String::from("For Lack of a Better Name"),
        String::new(),
        Uuid::parse_str("638a007a-8423-40d6-a97c-f819d320d33c")
            .expect("failed to parse release group ID as Uuid"),
        Uuid::parse_str("4a00ec9d-c635-463a-8cd4-eb61725f0c60")
            .expect("failed to parse artist ID as Uuid"),
        AlbumMainType::Album,
        Vec::new(),
    );

    let doc = object(vec![
        ("id", text("638a007a-8423-40d6-a97c-f819d320d33c")),
        ("title", text("For Lack of a Better Name")),
        ("primary-type", text("Album")),
        (
            "artist-credit",
            JsonTree::Array(vec![object(vec![(
                "artist",
                object(vec![("id", text("4a00ec9d-c635-463a-8cd4-eb61725f0c60"))]),
            )])]),
        ),
    ]);

    let correct = ReleaseGroup::lookup(&doc).unwrap();

    assert_eq!(correct, generated);
}
