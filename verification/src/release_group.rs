//! The release-group entity: its value type, its identity-based equality,
//! and the mapping from search pages and detail documents.
use vstd::prelude::*;
use crate::document::{elements_of, get_of, opt_text_of, JsonTree};
use crate::enums::{AlbumMainType, AlbumSecondaryType};
use crate::error::{Error, ErrorModel};
use crate::mapper::{
    id_field_model, lemma_mapped_entries_err_persists, lemma_mapped_entries_step,
    lemma_mapped_entries_take_all, mapped_entries, read_id_field,
};
use crate::mbid::Uuid;
use vstd::std_specs::cmp::PartialEqSpec;

verus! {

/// A release group: a titled group of releases owned by one artist. The
/// owning artist is a weak back-reference by identifier, never an
/// embedded entity.
#[derive(Debug, Clone)]
pub struct ReleaseGroup {
    pub title: String,
    pub release_date: String,
    pub id: Uuid,
    pub artist: Uuid,
    pub primary_type: AlbumMainType,
    pub secondary_types: Vec<AlbumSecondaryType>,
}

/// Mathematical model of a release group.
#[verifier::ext_equal]
pub struct ReleaseGroupModel {
    pub title: Seq<char>,
    pub release_date: Seq<char>,
    pub id: int,
    pub artist: int,
    pub primary_type: AlbumMainType,
    pub secondary_types: Seq<AlbumSecondaryType>,
}

impl View for ReleaseGroup {
    type V = ReleaseGroupModel;

    open spec fn view(&self) -> ReleaseGroupModel {
        ReleaseGroupModel {
            title: self.title@,
            release_date: self.release_date@,
            id: self.id.value as int,
            artist: self.artist.value as int,
            primary_type: self.primary_type,
            secondary_types: self.secondary_types@,
        }
    }
}

/// Release groups compare by identity alone: their own identifier and the
/// owning artist's. Titles and dates are not part of identity.
impl PartialEq for ReleaseGroup {
    fn eq(&self, other: &ReleaseGroup) -> (r: bool) {
        self.id == other.id && self.artist == other.artist
    }
}

impl vstd::std_specs::cmp::PartialEqSpecImpl for ReleaseGroup {
    open spec fn obeys_eq_spec() -> bool {
        true
    }

    open spec fn eq_spec(&self, other: &ReleaseGroup) -> bool {
        self.id == other.id && self.artist == other.artist
    }
}

/// Two release groups are equal exactly when their identifier and their
/// owning-artist identifier agree, whatever their other fields hold.
pub proof fn lemma_release_group_identity(a: ReleaseGroup, b: ReleaseGroup)
    ensures
        a.eq_spec(&b) <==> (a.id == b.id && a.artist == b.artist),
{
}

/// One element of a secondary-types list: it must be text inside the
/// secondary vocabulary.
pub open spec fn secondary_entry_model(e: JsonTree) -> Result<AlbumSecondaryType, ErrorModel> {
    match e {
        JsonTree::Text(s) => match AlbumSecondaryType::from_text(s@) {
            Some(t) => Ok(t),
            None => Err(ErrorModel::UnrecognizedEnumValue),
        },
        _ => Err(ErrorModel::MissingRequiredField),
    }
}

/// The whole secondary-types list of an entry, the leftmost error winning.
pub open spec fn secondary_types_model(entries: Seq<JsonTree>) -> Result<
    Seq<AlbumSecondaryType>,
    ErrorModel,
> {
    mapped_entries(entries, |e: JsonTree| Some(secondary_entry_model(e)))
}

/// The owning artist of a detail document: the first credited artist when
/// an artist-credit list is present, the nil identifier when none is.
pub open spec fn credited_artist_model(credits: Seq<JsonTree>) -> Result<int, ErrorModel> {
    if credits.len() == 0 {
        Ok(0)
    } else {
        id_field_model(get_of(get_of(credits[0], "artist"@), "id"@))
    }
}

/// The owning artist of a search entry: the first credited artist,
/// required to be present.
pub open spec fn required_credited_artist_model(credits: Seq<JsonTree>) -> Result<
    int,
    ErrorModel,
> {
    if credits.len() == 0 {
        Err(ErrorModel::MissingRequiredField)
    } else {
        id_field_model(get_of(get_of(credits[0], "artist"@), "id"@))
    }
}

/// Whether a search entry is retained: only entries at the maximum
/// confidence score are; all others are silently dropped.
pub open spec fn release_group_entry_retained(e: JsonTree) -> bool {
    get_of(e, "score"@) matches JsonTree::Text(s) && s@ == "100"@
}

/// One retained search entry: identifier and first credited artist are
/// required; the search schema never supplies category fields, so the
/// primary type defaults to its catch-all and the secondary list and
/// release date stay empty.
pub open spec fn release_group_search_entry_model(e: JsonTree) -> Option<
    Result<ReleaseGroupModel, ErrorModel>,
> {
    if !release_group_entry_retained(e) {
        None
    } else {
        Some(
            match id_field_model(get_of(e, "id"@)) {
                Err(err) => Err(err),
                Ok(idv) => match required_credited_artist_model(
                    elements_of(get_of(e, "artist-credit"@)),
                ) {
                    Err(err) => Err(err),
                    Ok(aid) => Ok(
                        ReleaseGroupModel {
                            title: opt_text_of(get_of(e, "title"@)),
                            release_date: Seq::empty(),
                            id: idv,
                            artist: aid,
                            primary_type: AlbumMainType::Other,
                            secondary_types: Seq::empty(),
                        },
                    ),
                },
            },
        )
    }
}

/// A whole release-group search page: a zero count is an empty result,
/// a missing or non-numeric count an unparseable envelope, and otherwise
/// the retained entries of the result array in order.
pub open spec fn release_group_search_model(doc: JsonTree) -> Result<
    Seq<ReleaseGroupModel>,
    ErrorModel,
> {
    match get_of(doc, "count"@) {
        JsonTree::Number(c) => if c == 0 {
            Ok(Seq::empty())
        } else {
            mapped_entries(
                elements_of(get_of(doc, "release-groups"@)),
                |e: JsonTree| release_group_search_entry_model(e),
            )
        },
        _ => Err(ErrorModel::EnvelopeUnparseable),
    }
}

/// A release-group detail document: a remote error indicator aborts the
/// mapping; the primary type and the identifier are required; secondary
/// types and the artist credit degrade to empty and nil when absent.
pub open spec fn release_group_detail_model(doc: JsonTree) -> Result<
    ReleaseGroupModel,
    ErrorModel,
> {
    if get_of(doc, "error"@) != JsonTree::Null {
        Err(ErrorModel::RemoteRejected(opt_text_of(get_of(doc, "error"@))))
    } else {
        match get_of(doc, "primary-type"@) {
            JsonTree::Text(pt) => match AlbumMainType::from_text(pt@) {
                None => Err(ErrorModel::UnrecognizedEnumValue),
                Some(primary) => match secondary_types_model(
                    elements_of(get_of(doc, "secondary-types"@)),
                ) {
                    Err(err) => Err(err),
                    Ok(secs) => match credited_artist_model(
                        elements_of(get_of(doc, "artist-credit"@)),
                    ) {
                        Err(err) => Err(err),
                        Ok(aid) => match id_field_model(get_of(doc, "id"@)) {
                            Err(err) => Err(err),
                            Ok(idv) => Ok(
                                ReleaseGroupModel {
                                    title: opt_text_of(get_of(doc, "title"@)),
                                    release_date: opt_text_of(
                                        get_of(doc, "first-release-date"@),
                                    ),
                                    id: idv,
                                    artist: aid,
                                    primary_type: primary,
                                    secondary_types: secs,
                                },
                            ),
                        },
                    },
                },
            },
            _ => Err(ErrorModel::MissingRequiredField),
        }
    }
}

/// One release-group entry nested under an artist detail document: the
/// secondary types, the identifier and the primary type are required; the
/// owning artist is the parent document's identifier.
pub open spec fn release_group_under_artist_model(e: JsonTree, owner: int) -> Result<
    ReleaseGroupModel,
    ErrorModel,
> {
    match secondary_types_model(elements_of(get_of(e, "secondary-types"@))) {
        Err(err) => Err(err),
        Ok(secs) => match id_field_model(get_of(e, "id"@)) {
            Err(err) => Err(err),
            Ok(idv) => match get_of(e, "primary-type"@) {
                JsonTree::Text(pt) => match AlbumMainType::from_text(pt@) {
                    None => Err(ErrorModel::UnrecognizedEnumValue),
                    Some(primary) => Ok(
                        ReleaseGroupModel {
                            title: opt_text_of(get_of(e, "title"@)),
                            release_date: opt_text_of(get_of(e, "first-release-date"@)),
                            id: idv,
                            artist: owner,
                            primary_type: primary,
                            secondary_types: secs,
                        },
                    ),
                },
                _ => Err(ErrorModel::MissingRequiredField),
            },
        },
    }
}

/// Parses the secondary-types list of `entry`, absent or null lists
/// reading as empty.
#[verifier::loop_isolation(false)]
pub fn parse_secondary_types(entry: &JsonTree) -> (r: Result<Vec<AlbumSecondaryType>, Error>)
    ensures
        match r {
            Ok(v) => secondary_types_model(elements_of(get_of(*entry, "secondary-types"@)))
                == Ok::<Seq<AlbumSecondaryType>, ErrorModel>(v@),
            Err(e) => secondary_types_model(elements_of(get_of(*entry, "secondary-types"@)))
                == Err::<Seq<AlbumSecondaryType>, ErrorModel>(e@),
        },
{
    let ghost f = |e: JsonTree| Some(secondary_entry_model(e));
    match entry.read_array("secondary-types") {
        None => Ok(Vec::new()),
        Some(elems) => {
            let ghost entries = elems@;
            let n = elems.len();
            let mut out: Vec<AlbumSecondaryType> = Vec::new();
            let mut i: usize = 0;
            proof {
                assert(entries.take(0) =~= Seq::<JsonTree>::empty());
            }
            while i < n
                invariant
                    n == entries.len(),
                    entries == elems@,
                    i <= n,
                    mapped_entries(entries.take(i as int), f) == Ok::<
                        Seq<AlbumSecondaryType>,
                        ErrorModel,
                    >(out@),
                decreases n - i,
            {
                proof {
                    lemma_mapped_entries_step(entries, f, i as int);
                }
                let entry = &elems[i];
                proof {
                    assert(*entry == entries[i as int]);
                }
                let parsed = match entry {
                    JsonTree::Text(s) => AlbumSecondaryType::from_str(s.as_str()),
                    _ => Err(Error::MissingRequiredField),
                };
                match parsed {
                    Ok(t) => {
                        proof {
                            assert(secondary_entry_model(entries[i as int])
                                == Ok::<AlbumSecondaryType, ErrorModel>(t));
                        }
                        out.push(t);
                    },
                    Err(e) => {
                        proof {
                            assert(secondary_entry_model(entries[i as int])
                                == Err::<AlbumSecondaryType, ErrorModel>(e@));
                            assert(mapped_entries(entries.take(i as int + 1), f) == Err::<
                                Seq<AlbumSecondaryType>,
                                ErrorModel,
                            >(e@));
                            lemma_mapped_entries_err_persists(entries, f, i as int + 1, n as int);
                            lemma_mapped_entries_take_all(entries, f);
                        }
                        return Err(e);
                    },
                }
                i += 1;
            }
            proof {
                lemma_mapped_entries_take_all(entries, f);
            }
            Ok(out)
        },
    }
}

/// Reads the required primary type of `entry`.
fn parse_primary_type(entry: &JsonTree) -> (r: Result<AlbumMainType, Error>)
    ensures
        match r {
            Ok(t) => get_of(*entry, "primary-type"@) matches JsonTree::Text(pt)
                && AlbumMainType::from_text(pt@) == Some(t),
            Err(e) => match get_of(*entry, "primary-type"@) {
                JsonTree::Text(pt) => AlbumMainType::from_text(pt@) is None && e@
                    == ErrorModel::UnrecognizedEnumValue,
                _ => e@ == ErrorModel::MissingRequiredField,
            },
        },
{
    match entry.get("primary-type") {
        Some(JsonTree::Text(pt)) => AlbumMainType::from_str(pt.as_str()),
        _ => Err(Error::MissingRequiredField),
    }
}

impl ReleaseGroup {
    /// Builds a release group from its parts.
    pub fn new(
        title: String,
        release_date: String,
        id: Uuid,
        artist: Uuid,
        primary_type: AlbumMainType,
        secondary_types: Vec<AlbumSecondaryType>,
    ) -> (r: ReleaseGroup)
        ensures
            r.title == title,
            r.release_date == release_date,
            r.id == id,
            r.artist == artist,
            r.primary_type == primary_type,
            r.secondary_types == secondary_types,
    {
        ReleaseGroup { title, release_date, id, artist, primary_type, secondary_types }
    }

    /// Maps one release-group entry nested under an artist detail
    /// document; `owner` is the parent artist's identifier.
    pub fn from_artist_entry(e: &JsonTree, owner: Uuid) -> (r: Result<ReleaseGroup, Error>)
        ensures
            match r {
                Ok(rg) => release_group_under_artist_model(*e, owner.value as int) == Ok::<
                    ReleaseGroupModel,
                    ErrorModel,
                >(rg@),
                Err(err) => release_group_under_artist_model(*e, owner.value as int) == Err::<
                    ReleaseGroupModel,
                    ErrorModel,
                >(err@),
            },
    {
        let secondary_types = match parse_secondary_types(e) {
            Ok(v) => v,
            Err(err) => {
                return Err(err);
            },
        };
        let id = match read_id_field(e, "id") {
            Ok(u) => u,
            Err(err) => {
                return Err(err);
            },
        };
        let primary_type = match parse_primary_type(e) {
            Ok(t) => t,
            Err(err) => {
                return Err(err);
            },
        };
        Ok(
            ReleaseGroup {
                title: e.read_optional_text("title"),
                release_date: e.read_optional_text("first-release-date"),
                id,
                artist: owner,
                primary_type,
                secondary_types,
            },
        )
    }

    /// Maps a release-group search page to the retained entities.
    #[verifier::loop_isolation(false)]
    pub fn search(doc: &JsonTree) -> (r: Result<Vec<ReleaseGroup>, Error>)
        ensures
            match r {
                Ok(v) => release_group_search_model(*doc) == Ok::<
                    Seq<ReleaseGroupModel>,
                    ErrorModel,
                >(v@.map_values(|rg: ReleaseGroup| rg@)),
                Err(e) => release_group_search_model(*doc) == Err::<
                    Seq<ReleaseGroupModel>,
                    ErrorModel,
                >(e@),
            },
    {
        let ghost f = |e: JsonTree| release_group_search_entry_model(e);
        let count = match doc.read_number("count") {
            Some(c) => c,
            None => {
                return Err(Error::EnvelopeUnparseable);
            },
        };
        let mut out: Vec<ReleaseGroup> = Vec::new();
        if count == 0 {
            proof {
                assert(out@.map_values(|rg: ReleaseGroup| rg@) =~= Seq::<
                    ReleaseGroupModel,
                >::empty());
            }
            return Ok(out);
        }
        match doc.read_array("release-groups") {
            None => {
                proof {
                    assert(elements_of(get_of(*doc, "release-groups"@)).take(0)
                        =~= elements_of(get_of(*doc, "release-groups"@)));
                    assert(out@.map_values(|rg: ReleaseGroup| rg@) =~= Seq::<
                        ReleaseGroupModel,
                    >::empty());
                }
                Ok(out)
            },
            Some(elems) => {
                let ghost entries = elements_of(get_of(*doc, "release-groups"@));
                let n = elems.len();
                let mut i: usize = 0;
                proof {
                    assert(entries.take(0) =~= Seq::<JsonTree>::empty());
                    assert(out@.map_values(|rg: ReleaseGroup| rg@) =~= Seq::<
                        ReleaseGroupModel,
                    >::empty());
                }
                while i < n
                    invariant
                        n == entries.len(),
                        entries == elems@,
                        i <= n,
                        mapped_entries(entries.take(i as int), f) == Ok::<
                            Seq<ReleaseGroupModel>,
                            ErrorModel,
                        >(out@.map_values(|rg: ReleaseGroup| rg@)),
                    decreases n - i,
                {
                    proof {
                        lemma_mapped_entries_step(entries, f, i as int);
                    }
                    let entry = &elems[i];
                    if entry.field_is_text("score", "100") {
                        let id = match read_id_field(entry, "id") {
                            Ok(u) => u,
                            Err(err) => {
                                proof {
                                    lemma_mapped_entries_err_persists(
                                        entries,
                                        f,
                                        i as int + 1,
                                        n as int,
                                    );
                                    lemma_mapped_entries_take_all(entries, f);
                                }
                                return Err(err);
                            },
                        };
                        let artist = match Self::first_credit_id(entry) {
                            Ok(u) => u,
                            Err(err) => {
                                proof {
                                    lemma_mapped_entries_err_persists(
                                        entries,
                                        f,
                                        i as int + 1,
                                        n as int,
                                    );
                                    lemma_mapped_entries_take_all(entries, f);
                                }
                                return Err(err);
                            },
                        };
                        let rg = ReleaseGroup {
                            title: entry.read_optional_text("title"),
                            release_date: String::new(),
                            id,
                            artist,
                            primary_type: AlbumMainType::Other,
                            secondary_types: Vec::new(),
                        };
                        proof {
                            let ghost prev = out@.map_values(|rg: ReleaseGroup| rg@);
                            assert(out@.push(rg).map_values(|rg: ReleaseGroup| rg@) =~= prev.push(
                                rg@,
                            ));
                        }
                        out.push(rg);
                    }
                    i += 1;
                }
                proof {
                    lemma_mapped_entries_take_all(entries, f);
                }
                Ok(out)
            },
        }
    }

    /// The first credited artist of a search entry, which the search
    /// schema requires.
    fn first_credit_id(entry: &JsonTree) -> (r: Result<Uuid, Error>)
        ensures
            match r {
                Ok(u) => required_credited_artist_model(
                    elements_of(get_of(*entry, "artist-credit"@)),
                ) == Ok::<int, ErrorModel>(u.value as int),
                Err(e) => required_credited_artist_model(
                    elements_of(get_of(*entry, "artist-credit"@)),
                ) == Err::<int, ErrorModel>(e@),
            },
    {
        match entry.read_array("artist-credit") {
            Some(credits) => {
                if credits.len() > 0 {
                    match credits[0].get("artist") {
                        Some(artist) => read_id_field(artist, "id"),
                        None => Err(Error::MissingRequiredField),
                    }
                } else {
                    Err(Error::MissingRequiredField)
                }
            },
            None => Err(Error::MissingRequiredField),
        }
    }

    /// Maps a release-group detail document to the entity it describes.
    pub fn lookup(doc: &JsonTree) -> (r: Result<ReleaseGroup, Error>)
        ensures
            match r {
                Ok(rg) => release_group_detail_model(*doc) == Ok::<
                    ReleaseGroupModel,
                    ErrorModel,
                >(rg@),
                Err(e) => release_group_detail_model(*doc) == Err::<
                    ReleaseGroupModel,
                    ErrorModel,
                >(e@),
            },
    {
        if !doc.field_is_null("error") {
            return Err(Error::RemoteRejected(doc.read_optional_text("error")));
        }
        let primary_type = match parse_primary_type(doc) {
            Ok(t) => t,
            Err(err) => {
                return Err(err);
            },
        };
        let secondary_types = match parse_secondary_types(doc) {
            Ok(v) => v,
            Err(err) => {
                return Err(err);
            },
        };
        let artist = match Self::credited_artist(doc) {
            Ok(u) => u,
            Err(err) => {
                return Err(err);
            },
        };
        let id = match read_id_field(doc, "id") {
            Ok(u) => u,
            Err(err) => {
                return Err(err);
            },
        };
        Ok(
            ReleaseGroup {
                title: doc.read_optional_text("title"),
                release_date: doc.read_optional_text("first-release-date"),
                id,
                artist,
                primary_type,
                secondary_types,
            },
        )
    }

    /// The owning artist of a detail document: the first credited artist,
    /// or the nil identifier when no credit list is present.
    fn credited_artist(doc: &JsonTree) -> (r: Result<Uuid, Error>)
        ensures
            match r {
                Ok(u) => credited_artist_model(elements_of(get_of(*doc, "artist-credit"@)))
                    == Ok::<int, ErrorModel>(u.value as int),
                Err(e) => credited_artist_model(elements_of(get_of(*doc, "artist-credit"@)))
                    == Err::<int, ErrorModel>(e@),
            },
    {
        match doc.read_array("artist-credit") {
            Some(credits) => {
                if credits.len() > 0 {
                    match credits[0].get("artist") {
                        Some(artist) => read_id_field(artist, "id"),
                        None => Err(Error::MissingRequiredField),
                    }
                } else {
                    Ok(Uuid::nil())
                }
            },
            None => Ok(Uuid::nil()),
        }
    }
}


/// Whether one secondary-type element is wellformed: text inside the
/// secondary vocabulary.
pub open spec fn secondary_entry_wellformed(e: JsonTree) -> bool {
    e matches JsonTree::Text(s) && AlbumSecondaryType::from_text(s@) is Some
}

/// A wellformed secondary-types list maps without error.
pub proof fn lemma_secondary_types_complete(entries: Seq<JsonTree>)
    requires
        forall|i: int| 0 <= i < entries.len() ==> secondary_entry_wellformed(#[trigger] entries[i]),
    ensures
        secondary_types_model(entries) is Ok,
    decreases entries.len(),
{
    if entries.len() > 0 {
        assert(forall|i: int|
            0 <= i < entries.drop_last().len() ==> secondary_entry_wellformed(
                #[trigger] entries.drop_last()[i],
            ));
        lemma_secondary_types_complete(entries.drop_last());
        assert(secondary_entry_wellformed(entries[entries.len() - 1]));
    }
}

/// Whether one release-group entry nested under an artist document is
/// wellformed: every required field present and inside its codec's table.
pub open spec fn release_group_entry_wellformed(e: JsonTree) -> bool {
    &&& forall|i: int|
        0 <= i < elements_of(get_of(e, "secondary-types"@)).len() ==> secondary_entry_wellformed(
            #[trigger] elements_of(get_of(e, "secondary-types"@))[i],
        )
    &&& id_field_model(get_of(e, "id"@)) is Ok
    &&& get_of(e, "primary-type"@) matches JsonTree::Text(pt) && AlbumMainType::from_text(pt@)
        is Some
}

/// Every wellformed nested release-group entry maps to an entity whose
/// fields equal the entry's fields after codec transformation, with the
/// parent's identifier as the back-reference.
pub proof fn lemma_release_group_entry_complete(e: JsonTree, owner: int)
    requires
        release_group_entry_wellformed(e),
    ensures
        release_group_under_artist_model(e, owner) matches Ok(m) && {
            &&& m.title == opt_text_of(get_of(e, "title"@))
            &&& m.release_date == opt_text_of(get_of(e, "first-release-date"@))
            &&& Ok::<int, ErrorModel>(m.id) == id_field_model(get_of(e, "id"@))
            &&& m.artist == owner
            &&& (get_of(e, "primary-type"@) matches JsonTree::Text(pt) && AlbumMainType::from_text(
                pt@,
            ) == Some(m.primary_type))
            &&& secondary_types_model(elements_of(get_of(e, "secondary-types"@))) == Ok::<
                Seq<AlbumSecondaryType>,
                ErrorModel,
            >(m.secondary_types)
        },
{
    lemma_secondary_types_complete(elements_of(get_of(e, "secondary-types"@)));
}

/// Whether a release-group detail document is wellformed: no error
/// indicator, every required field present and inside its codec's table.
pub open spec fn release_group_detail_wellformed(doc: JsonTree) -> bool {
    &&& get_of(doc, "error"@) == JsonTree::Null
    &&& get_of(doc, "primary-type"@) matches JsonTree::Text(pt) && AlbumMainType::from_text(pt@)
        is Some
    &&& forall|i: int|
        0 <= i < elements_of(get_of(doc, "secondary-types"@)).len() ==> secondary_entry_wellformed(
            #[trigger] elements_of(get_of(doc, "secondary-types"@))[i],
        )
    &&& credited_artist_model(elements_of(get_of(doc, "artist-credit"@))) is Ok
    &&& id_field_model(get_of(doc, "id"@)) is Ok
}

/// Every wellformed release-group detail document maps to an entity
/// whose fields equal the document's fields after codec transformation.
pub proof fn lemma_release_group_lookup_complete(doc: JsonTree)
    requires
        release_group_detail_wellformed(doc),
    ensures
        release_group_detail_model(doc) matches Ok(m) && {
            &&& m.title == opt_text_of(get_of(doc, "title"@))
            &&& m.release_date == opt_text_of(get_of(doc, "first-release-date"@))
            &&& Ok::<int, ErrorModel>(m.id) == id_field_model(get_of(doc, "id"@))
            &&& Ok::<int, ErrorModel>(m.artist) == credited_artist_model(
                elements_of(get_of(doc, "artist-credit"@)),
            )
            &&& (get_of(doc, "primary-type"@) matches JsonTree::Text(pt)
                && AlbumMainType::from_text(pt@) == Some(m.primary_type))
            &&& secondary_types_model(elements_of(get_of(doc, "secondary-types"@))) == Ok::<
                Seq<AlbumSecondaryType>,
                ErrorModel,
            >(m.secondary_types)
        },
{
    lemma_secondary_types_complete(elements_of(get_of(doc, "secondary-types"@)));
}

/// A remote error indicator short-circuits a lookup: the mapping yields
/// the remote rejection with the document's message and no entity.
pub proof fn lemma_release_group_lookup_remote_rejected(doc: JsonTree)
    requires
        get_of(doc, "error"@) != JsonTree::Null,
    ensures
        release_group_detail_model(doc) == Err::<ReleaseGroupModel, ErrorModel>(
            ErrorModel::RemoteRejected(opt_text_of(get_of(doc, "error"@))),
        ),
{
}

/// A search page whose count is zero maps to the empty collection, never
/// to an error.
pub proof fn lemma_release_group_search_zero_count(doc: JsonTree)
    requires
        get_of(doc, "count"@) == JsonTree::Number(0),
    ensures
        release_group_search_model(doc) == Ok::<Seq<ReleaseGroupModel>, ErrorModel>(Seq::empty()),
{
}

/// A search page that maps successfully holds exactly one entity for
/// each entry at the maximum confidence score: entries at any other
/// score are dropped, and retained entries are never lost.
pub proof fn lemma_release_group_search_drops_low_scores(doc: JsonTree)
    ensures
        match release_group_search_model(doc) {
            Ok(s) => get_of(doc, "count"@) != JsonTree::Number(0) ==> s.len() == elements_of(
                get_of(doc, "release-groups"@),
            ).filter(|e: JsonTree| release_group_entry_retained(e)).len(),
            Err(_) => true,
        },
{
    let entries = elements_of(get_of(doc, "release-groups"@));
    let f = |e: JsonTree| release_group_search_entry_model(e);
    let retained = |e: JsonTree| release_group_entry_retained(e);
    assert forall|e: JsonTree| #[trigger] retained(e) == (f(e) is Some) by {
        if release_group_entry_retained(e) {
            assert(release_group_search_entry_model(e) is Some);
        } else {
            assert(release_group_search_entry_model(e) is None);
        }
    }
    crate::mapper::lemma_mapped_entries_len(entries, f, retained);
}

} // verus!
