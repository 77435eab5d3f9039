//! The artist entity: its value type, its shallow search equality, and
//! the mapping from search pages and detail documents.
use vstd::prelude::*;
use crate::document::{elements_of, get_of, opt_text_of, JsonTree};
use crate::enums::PersonType;
use crate::error::{Error, ErrorModel};
use crate::mapper::{
    id_field_model, lemma_mapped_entries_err_persists, lemma_mapped_entries_step,
    lemma_mapped_entries_take_all, mapped_entries, read_id_field,
};
use crate::mbid::Uuid;
use crate::release_group::{
    lemma_release_group_entry_complete, release_group_entry_wellformed,
    release_group_under_artist_model, ReleaseGroup, ReleaseGroupModel,
};

verus! {

/// An artist: a person, group, or other credited performer. Tags and
/// release groups stay empty unless the document supplies them.
#[derive(Debug, Clone)]
pub struct Artist {
    pub id: Uuid,
    pub name: String,
    pub gender: String,
    pub artist_type: PersonType,
    pub tags: Vec<String>,
    pub release_groups: Vec<ReleaseGroup>,
}

/// Mathematical model of an artist.
#[verifier::ext_equal]
pub struct ArtistModel {
    pub id: int,
    pub name: Seq<char>,
    pub gender: Seq<char>,
    pub artist_type: PersonType,
    pub tags: Seq<Seq<char>>,
    pub release_groups: Seq<ReleaseGroupModel>,
}

impl View for Artist {
    type V = ArtistModel;

    open spec fn view(&self) -> ArtistModel {
        ArtistModel {
            id: self.id.value as int,
            name: self.name@,
            gender: self.gender@,
            artist_type: self.artist_type,
            tags: self.tags.deep_view(),
            release_groups: self.release_groups@.map_values(|rg: ReleaseGroup| rg@),
        }
    }
}

/// Artists compare shallowly, as search results do: by identifier and
/// display name.
impl PartialEq for Artist {
    fn eq(&self, other: &Artist) -> (r: bool) {
        self.id == other.id && self.name == other.name
    }
}

impl vstd::std_specs::cmp::PartialEqSpecImpl for Artist {
    open spec fn obeys_eq_spec() -> bool {
        true
    }

    open spec fn eq_spec(&self, other: &Artist) -> bool {
        self.id == other.id && self.name@ == other.name@
    }
}

/// The tag names of a tags array, element-wise and null-tolerant: each
/// entry contributes its `name` field, absent names reading as empty.
pub open spec fn tags_model(entries: Seq<JsonTree>) -> Seq<Seq<char>> {
    entries.map_values(|e: JsonTree| opt_text_of(get_of(e, "name"@)))
}

/// Whether an artist search entry is retained: only entries at the
/// maximum confidence score that carry a textual name are; all others
/// are silently dropped.
pub open spec fn artist_entry_retained(e: JsonTree) -> bool {
    &&& get_of(e, "score"@) matches JsonTree::Text(s) && s@ == "100"@
    &&& get_of(e, "name"@) matches JsonTree::Text(_)
}

/// One retained search entry: the identifier is required; the search
/// schema never supplies the person type, so it defaults to its
/// catch-all, and no release groups are attached.
pub open spec fn artist_search_entry_model(e: JsonTree) -> Option<Result<ArtistModel, ErrorModel>> {
    if !artist_entry_retained(e) {
        None
    } else {
        Some(
            match id_field_model(get_of(e, "id"@)) {
                Err(err) => Err(err),
                Ok(idv) => Ok(
                    ArtistModel {
                        id: idv,
                        name: opt_text_of(get_of(e, "name"@)),
                        gender: opt_text_of(get_of(e, "gender"@)),
                        artist_type: PersonType::Other,
                        tags: tags_model(elements_of(get_of(e, "tags"@))),
                        release_groups: Seq::empty(),
                    },
                ),
            },
        )
    }
}

/// A whole artist search page: a zero count is an empty result, a
/// missing or non-numeric count an unparseable envelope, and otherwise
/// the retained entries of the result array in order.
pub open spec fn artist_search_model(doc: JsonTree) -> Result<Seq<ArtistModel>, ErrorModel> {
    match get_of(doc, "count"@) {
        JsonTree::Number(c) => if c == 0 {
            Ok(Seq::empty())
        } else {
            mapped_entries(
                elements_of(get_of(doc, "artists"@)),
                |e: JsonTree| artist_search_entry_model(e),
            )
        },
        _ => Err(ErrorModel::EnvelopeUnparseable),
    }
}

/// The release groups nested under an artist detail document, left to
/// right, the leftmost error winning; `owner` is the artist's own
/// identifier, which each release group carries as its back-reference.
pub open spec fn release_groups_model(entries: Seq<JsonTree>, owner: int) -> Result<
    Seq<ReleaseGroupModel>,
    ErrorModel,
>
    decreases entries.len(),
{
    if entries.len() == 0 {
        Ok(Seq::empty())
    } else {
        match release_groups_model(entries.drop_last(), owner) {
            Err(e) => Err(e),
            Ok(s) => match release_group_under_artist_model(entries.last(), owner) {
                Err(e) => Err(e),
                Ok(m) => Ok(s.push(m)),
            },
        }
    }
}

/// Unrolls `release_groups_model` over growing prefixes.
proof fn lemma_release_groups_model_step(entries: Seq<JsonTree>, owner: int, i: int)
    requires
        0 <= i < entries.len(),
    ensures
        release_groups_model(entries.take(i + 1), owner) == (match release_groups_model(
            entries.take(i),
            owner,
        ) {
            Err(e) => Err::<Seq<ReleaseGroupModel>, ErrorModel>(e),
            Ok(s) => match release_group_under_artist_model(entries[i], owner) {
                Err(e) => Err::<Seq<ReleaseGroupModel>, ErrorModel>(e),
                Ok(m) => Ok::<Seq<ReleaseGroupModel>, ErrorModel>(s.push(m)),
            },
        }),
{
    assert(entries.take(i + 1).drop_last() =~= entries.take(i));
    assert(entries.take(i + 1).last() == entries[i]);
}

/// Once a prefix of the release-group entries has aborted, every longer
/// prefix aborts with the same error.
proof fn lemma_release_groups_model_err_persists(entries: Seq<JsonTree>, owner: int, i: int, j: int)
    requires
        0 <= i <= j <= entries.len(),
        release_groups_model(entries.take(i), owner) matches Err(_),
    ensures
        release_groups_model(entries.take(j), owner) == release_groups_model(
            entries.take(i),
            owner,
        ),
    decreases j - i,
{
    if i < j {
        lemma_release_groups_model_err_persists(entries, owner, i, j - 1);
        lemma_release_groups_model_step(entries, owner, j - 1);
    }
}

/// An artist detail document: a remote error indicator aborts the
/// mapping; the person type and the identifier are required; tags and
/// release groups degrade to empty when absent.
pub open spec fn artist_detail_model(doc: JsonTree) -> Result<ArtistModel, ErrorModel> {
    if get_of(doc, "error"@) != JsonTree::Null {
        Err(ErrorModel::RemoteRejected(opt_text_of(get_of(doc, "error"@))))
    } else {
        match get_of(doc, "type"@) {
            JsonTree::Text(t) => match PersonType::from_text(t@) {
                None => Err(ErrorModel::UnrecognizedEnumValue),
                Some(pt) => match id_field_model(get_of(doc, "id"@)) {
                    Err(err) => Err(err),
                    Ok(idv) => match release_groups_model(
                        elements_of(get_of(doc, "release-groups"@)),
                        idv,
                    ) {
                        Err(err) => Err(err),
                        Ok(rgs) => Ok(
                            ArtistModel {
                                id: idv,
                                name: opt_text_of(get_of(doc, "name"@)),
                                gender: opt_text_of(get_of(doc, "gender"@)),
                                artist_type: pt,
                                tags: tags_model(elements_of(get_of(doc, "tags"@))),
                                release_groups: rgs,
                            },
                        ),
                    },
                },
            },
            _ => Err(ErrorModel::MissingRequiredField),
        }
    }
}

/// Collects the tag names under `entry`, absent or null tag lists
/// reading as empty.
#[verifier::loop_isolation(false)]
pub fn parse_tags(entry: &JsonTree) -> (r: Vec<String>)
    ensures
        r.deep_view() == tags_model(elements_of(get_of(*entry, "tags"@))),
{
    let mut out: Vec<String> = Vec::new();
    match entry.read_array("tags") {
        None => {
            proof {
                assert(out.deep_view() =~= tags_model(elements_of(get_of(*entry, "tags"@))));
            }
            out
        },
        Some(elems) => {
            let ghost entries = elems@;
            let n = elems.len();
            let mut i: usize = 0;
            proof {
                assert(out.deep_view() =~= tags_model(entries.take(0)));
            }
            while i < n
                invariant
                    i <= n,
                    out.deep_view() == tags_model(entries.take(i as int)),
                decreases n - i,
            {
                let name = elems[i].read_optional_text("name");
                let ghost prev = out.deep_view();
                let ghost name_view = name@;
                out.push(name);
                proof {
                    assert(out.deep_view() =~= prev.push(name_view));
                    assert(tags_model(entries.take(i as int + 1)) =~= tags_model(
                        entries.take(i as int),
                    ).push(opt_text_of(get_of(entries[i as int], "name"@))));
                }
                i += 1;
            }
            proof {
                assert(entries.take(n as int) =~= entries);
            }
            out
        },
    }
}

impl Artist {
    /// Builds an artist from its parts.
    pub fn new(
        id: Uuid,
        name: String,
        gender: String,
        artist_type: PersonType,
        tags: Vec<String>,
        release_groups: Vec<ReleaseGroup>,
    ) -> (r: Artist)
        ensures
            r.id == id,
            r.name == name,
            r.gender == gender,
            r.artist_type == artist_type,
            r.tags == tags,
            r.release_groups == release_groups,
    {
        Artist { id, name, gender, artist_type, tags, release_groups }
    }

    /// The placeholder artist: nil identifier, empty strings, the
    /// catch-all type, and no tags or release groups.
    pub fn empty() -> (r: Artist)
        ensures
            r.id.value == 0,
            r.name@ == Seq::<char>::empty(),
            r.gender@ == Seq::<char>::empty(),
            r.artist_type == PersonType::Other,
            r.tags@ == Seq::<String>::empty(),
            r.release_groups@ == Seq::<ReleaseGroup>::empty(),
    {
        Artist::new(
            Uuid::nil(),
            String::new(),
            String::new(),
            PersonType::Other,
            Vec::new(),
            Vec::new(),
        )
    }

    /// Maps an artist search page to the retained entities.
    #[verifier::loop_isolation(false)]
    pub fn search(doc: &JsonTree) -> (r: Result<Vec<Artist>, Error>)
        ensures
            match r {
                Ok(v) => artist_search_model(*doc) == Ok::<Seq<ArtistModel>, ErrorModel>(
                    v@.map_values(|a: Artist| a@),
                ),
                Err(e) => artist_search_model(*doc) == Err::<Seq<ArtistModel>, ErrorModel>(e@),
            },
    {
        let ghost f = |e: JsonTree| artist_search_entry_model(e);
        let count = match doc.read_number("count") {
            Some(c) => c,
            None => {
                return Err(Error::EnvelopeUnparseable);
            },
        };
        let mut out: Vec<Artist> = Vec::new();
        if count == 0 {
            proof {
                assert(out@.map_values(|a: Artist| a@) =~= Seq::<ArtistModel>::empty());
            }
            return Ok(out);
        }
        match doc.read_array("artists") {
            None => {
                proof {
                    assert(out@.map_values(|a: Artist| a@) =~= Seq::<ArtistModel>::empty());
                }
                Ok(out)
            },
            Some(elems) => {
                let ghost entries = elements_of(get_of(*doc, "artists"@));
                let n = elems.len();
                let mut i: usize = 0;
                proof {
                    assert(entries.take(0) =~= Seq::<JsonTree>::empty());
                    assert(out@.map_values(|a: Artist| a@) =~= Seq::<ArtistModel>::empty());
                }
                while i < n
                    invariant
                        n == entries.len(),
                        entries == elems@,
                        i <= n,
                        mapped_entries(entries.take(i as int), f) == Ok::<
                            Seq<ArtistModel>,
                            ErrorModel,
                        >(out@.map_values(|a: Artist| a@)),
                    decreases n - i,
                {
                    proof {
                        lemma_mapped_entries_step(entries, f, i as int);
                    }
                    let entry = &elems[i];
                    if entry.field_is_text("score", "100") && entry.read_required_text(
                        "name",
                    ).is_ok() {
                        let id = match read_id_field(entry, "id") {
                            Ok(u) => u,
                            Err(err) => {
                                proof {
                                    lemma_mapped_entries_err_persists(
                                        entries,
                                        f,
                                        i as int + 1,
                                        n as int,
                                    );
                                    lemma_mapped_entries_take_all(entries, f);
                                }
                                return Err(err);
                            },
                        };
                        let a = Artist {
                            id,
                            name: entry.read_optional_text("name"),
                            gender: entry.read_optional_text("gender"),
                            artist_type: PersonType::Other,
                            tags: parse_tags(entry),
                            release_groups: Vec::new(),
                        };
                        proof {
                            let ghost prev = out@.map_values(|a: Artist| a@);
                            assert(out@.push(a).map_values(|a: Artist| a@) =~= prev.push(a@));
                            assert(a@.release_groups =~= Seq::<ReleaseGroupModel>::empty());
                        }
                        out.push(a);
                    }
                    i += 1;
                }
                proof {
                    lemma_mapped_entries_take_all(entries, f);
                }
                Ok(out)
            },
        }
    }

    /// Maps an artist detail document to the entity it describes.
    #[verifier::loop_isolation(false)]
    pub fn lookup(doc: &JsonTree) -> (r: Result<Artist, Error>)
        ensures
            match r {
                Ok(a) => artist_detail_model(*doc) == Ok::<ArtistModel, ErrorModel>(a@),
                Err(e) => artist_detail_model(*doc) == Err::<ArtistModel, ErrorModel>(e@),
            },
    {
        if !doc.field_is_null("error") {
            return Err(Error::RemoteRejected(doc.read_optional_text("error")));
        }
        let artist_type = match doc.get("type") {
            Some(JsonTree::Text(t)) => match PersonType::from_str(t.as_str()) {
                Ok(pt) => pt,
                Err(err) => {
                    return Err(err);
                },
            },
            _ => {
                return Err(Error::MissingRequiredField);
            },
        };
        let tags = parse_tags(doc);
        let id = match read_id_field(doc, "id") {
            Ok(u) => u,
            Err(err) => {
                return Err(err);
            },
        };
        let ghost owner = id.value as int;
        let mut release_groups: Vec<ReleaseGroup> = Vec::new();
        match doc.read_array("release-groups") {
            None => {
                proof {
                    assert(release_groups@.map_values(|rg: ReleaseGroup| rg@) =~= Seq::<
                        ReleaseGroupModel,
                    >::empty());
                }
            },
            Some(elems) => {
                let ghost entries = elements_of(get_of(*doc, "release-groups"@));
                let n = elems.len();
                let mut i: usize = 0;
                proof {
                    assert(entries.take(0) =~= Seq::<JsonTree>::empty());
                    assert(release_groups@.map_values(|rg: ReleaseGroup| rg@) =~= Seq::<
                        ReleaseGroupModel,
                    >::empty());
                }
                while i < n
                    invariant
                        n == entries.len(),
                        entries == elems@,
                        i <= n,
                        release_groups_model(entries.take(i as int), owner) == Ok::<
                            Seq<ReleaseGroupModel>,
                            ErrorModel,
                        >(release_groups@.map_values(|rg: ReleaseGroup| rg@)),
                    decreases n - i,
                {
                    proof {
                        lemma_release_groups_model_step(entries, owner, i as int);
                    }
                    match ReleaseGroup::from_artist_entry(&elems[i], id) {
                        Ok(rg) => {
                            proof {
                                let ghost prev = release_groups@.map_values(
                                    |rg: ReleaseGroup| rg@,
                                );
                                assert(release_groups@.push(rg).map_values(|rg: ReleaseGroup| rg@)
                                    =~= prev.push(rg@));
                            }
                            release_groups.push(rg);
                        },
                        Err(err) => {
                            proof {
                                lemma_release_groups_model_err_persists(
                                    entries,
                                    owner,
                                    i as int + 1,
                                    n as int,
                                );
                                assert(entries.take(n as int) =~= entries);
                            }
                            return Err(err);
                        },
                    }
                    i += 1;
                }
                proof {
                    assert(entries.take(n as int) =~= entries);
                }
            },
        }
        Ok(
            Artist {
                id,
                name: doc.read_optional_text("name"),
                gender: doc.read_optional_text("gender"),
                artist_type,
                tags,
                release_groups,
            },
        )
    }
}


/// A remote error indicator short-circuits a lookup: the mapping yields
/// the remote rejection with the document's message and no entity.
pub proof fn lemma_artist_lookup_remote_rejected(doc: JsonTree)
    requires
        get_of(doc, "error"@) != JsonTree::Null,
    ensures
        artist_detail_model(doc) == Err::<ArtistModel, ErrorModel>(
            ErrorModel::RemoteRejected(opt_text_of(get_of(doc, "error"@))),
        ),
{
}

/// A search page whose count is zero maps to the empty collection, never
/// to an error.
pub proof fn lemma_artist_search_zero_count(doc: JsonTree)
    requires
        get_of(doc, "count"@) == JsonTree::Number(0),
    ensures
        artist_search_model(doc) == Ok::<Seq<ArtistModel>, ErrorModel>(Seq::empty()),
{
}

/// A search page that maps successfully holds exactly one entity for
/// each retained entry: entries whose score is not the maximum are
/// dropped, and retained entries are never lost.
pub proof fn lemma_artist_search_drops_low_scores(doc: JsonTree)
    ensures
        match artist_search_model(doc) {
            Ok(s) => get_of(doc, "count"@) != JsonTree::Number(0) ==> s.len() == elements_of(
                get_of(doc, "artists"@),
            ).filter(|e: JsonTree| artist_entry_retained(e)).len(),
            Err(_) => true,
        },
{
    let entries = elements_of(get_of(doc, "artists"@));
    let f = |e: JsonTree| artist_search_entry_model(e);
    let retained = |e: JsonTree| artist_entry_retained(e);
    assert forall|e: JsonTree| #[trigger] retained(e) == (f(e) is Some) by {
        if artist_entry_retained(e) {
            assert(artist_search_entry_model(e) is Some);
        } else {
            assert(artist_search_entry_model(e) is None);
        }
    }
    crate::mapper::lemma_mapped_entries_len(entries, f, retained);
}

/// Whether an artist detail document is wellformed: no error indicator,
/// every required field present and inside its codec's table, and every
/// nested release-group entry wellformed in turn.
pub open spec fn artist_detail_wellformed(doc: JsonTree) -> bool {
    &&& get_of(doc, "error"@) == JsonTree::Null
    &&& get_of(doc, "type"@) matches JsonTree::Text(t) && PersonType::from_text(t@) is Some
    &&& id_field_model(get_of(doc, "id"@)) is Ok
    &&& forall|i: int|
        0 <= i < elements_of(get_of(doc, "release-groups"@)).len()
            ==> release_group_entry_wellformed(
            #[trigger] elements_of(get_of(doc, "release-groups"@))[i],
        )
}

/// A list of wellformed release-group entries maps without error, entry
/// by entry in order.
proof fn lemma_release_groups_model_complete(entries: Seq<JsonTree>, owner: int)
    requires
        forall|i: int|
            0 <= i < entries.len() ==> release_group_entry_wellformed(#[trigger] entries[i]),
    ensures
        release_groups_model(entries, owner) matches Ok(s) && s.len() == entries.len() && (forall|
            i: int,
        |
            0 <= i < entries.len() ==> release_group_under_artist_model(entries[i], owner) == Ok::<
                ReleaseGroupModel,
                ErrorModel,
            >(#[trigger] s[i])),
    decreases entries.len(),
{
    if entries.len() > 0 {
        assert(forall|i: int|
            0 <= i < entries.drop_last().len() ==> release_group_entry_wellformed(
                #[trigger] entries.drop_last()[i],
            ));
        lemma_release_groups_model_complete(entries.drop_last(), owner);
        lemma_release_group_entry_complete(entries[entries.len() - 1], owner);
    }
}

/// Every wellformed artist detail document maps to an entity whose
/// fields equal the document's fields after codec transformation; in
/// particular each nested release group carries the artist's own
/// identifier as its back-reference.
pub proof fn lemma_artist_lookup_complete(doc: JsonTree)
    requires
        artist_detail_wellformed(doc),
    ensures
        artist_detail_model(doc) matches Ok(a) && {
            &&& Ok::<int, ErrorModel>(a.id) == id_field_model(get_of(doc, "id"@))
            &&& a.name == opt_text_of(get_of(doc, "name"@))
            &&& a.gender == opt_text_of(get_of(doc, "gender"@))
            &&& (get_of(doc, "type"@) matches JsonTree::Text(t) && PersonType::from_text(t@)
                == Some(a.artist_type))
            &&& a.tags == tags_model(elements_of(get_of(doc, "tags"@)))
            &&& a.release_groups.len() == elements_of(get_of(doc, "release-groups"@)).len()
            &&& forall|i: int|
                0 <= i < a.release_groups.len() ==> release_group_under_artist_model(
                    elements_of(get_of(doc, "release-groups"@))[i],
                    a.id,
                ) == Ok::<ReleaseGroupModel, ErrorModel>(#[trigger] a.release_groups[i])
        },
{
    if let Ok(idv) = id_field_model(get_of(doc, "id"@)) {
        lemma_release_groups_model_complete(elements_of(get_of(doc, "release-groups"@)), idv);
    }
}

} // verus!
