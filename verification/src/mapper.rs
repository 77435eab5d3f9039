//! The generic search-page mapping contract: one fold over the entries of
//! a result array, in which an entry is either skipped, mapped to an
//! entity, or aborts the whole page with the first error. Each entity
//! kind instantiates it with its own per-entry mapping.
use vstd::prelude::*;
use crate::document::{get_of, JsonTree};
use crate::error::{Error, ErrorModel};
use crate::mbid::{is_canonical_uuid, uuid_value_of, Uuid};

verus! {

/// Folds a per-entry mapping over a result array, left to right. `None`
/// skips the entry; `Some(Ok(t))` keeps `t`; `Some(Err(e))` aborts the
/// page, the leftmost error winning.
pub open spec fn mapped_entries<T>(
    entries: Seq<JsonTree>,
    f: spec_fn(JsonTree) -> Option<Result<T, ErrorModel>>,
) -> Result<Seq<T>, ErrorModel>
    decreases entries.len(),
{
    if entries.len() == 0 {
        Ok(Seq::empty())
    } else {
        match mapped_entries(entries.drop_last(), f) {
            Err(e) => Err(e),
            Ok(s) => match f(entries.last()) {
                None => Ok(s),
                Some(Ok(t)) => Ok(s.push(t)),
                Some(Err(e)) => Err(e),
            },
        }
    }
}

/// Unrolls `mapped_entries` one entry at a time over growing prefixes,
/// the shape in which the mapping loops consume it.
pub proof fn lemma_mapped_entries_step<T>(
    entries: Seq<JsonTree>,
    f: spec_fn(JsonTree) -> Option<Result<T, ErrorModel>>,
    i: int,
)
    requires
        0 <= i < entries.len(),
    ensures
        mapped_entries(entries.take(i + 1), f) == (match mapped_entries(entries.take(i), f) {
            Err(e) => Err::<Seq<T>, ErrorModel>(e),
            Ok(s) => match f(entries[i]) {
                None => Ok::<Seq<T>, ErrorModel>(s),
                Some(Ok(t)) => Ok::<Seq<T>, ErrorModel>(s.push(t)),
                Some(Err(e)) => Err::<Seq<T>, ErrorModel>(e),
            },
        }),
{
    assert(entries.take(i + 1).drop_last() =~= entries.take(i));
    assert(entries.take(i + 1).last() == entries[i]);
}

/// Once a prefix of the entries has aborted with an error, every longer
/// prefix aborts with the same error.
pub proof fn lemma_mapped_entries_err_persists<T>(
    entries: Seq<JsonTree>,
    f: spec_fn(JsonTree) -> Option<Result<T, ErrorModel>>,
    i: int,
    j: int,
)
    requires
        0 <= i <= j <= entries.len(),
        mapped_entries(entries.take(i), f) matches Err(_),
    ensures
        mapped_entries(entries.take(j), f) == mapped_entries(entries.take(i), f),
    decreases j - i,
{
    if i < j {
        lemma_mapped_entries_err_persists(entries, f, i, j - 1);
        lemma_mapped_entries_step(entries, f, j - 1);
    }
}

/// The whole entry sequence is its own full prefix.
pub proof fn lemma_mapped_entries_take_all<T>(
    entries: Seq<JsonTree>,
    f: spec_fn(JsonTree) -> Option<Result<T, ErrorModel>>,
)
    ensures
        mapped_entries(entries.take(entries.len() as int), f) == mapped_entries(entries, f),
{
    assert(entries.take(entries.len() as int) =~= entries);
}

/// When a page maps successfully, it holds exactly one entity for each
/// retained entry: entries that the per-entry mapping skips contribute
/// nothing, and none is ever dropped for another reason.
pub proof fn lemma_mapped_entries_len<T>(
    entries: Seq<JsonTree>,
    f: spec_fn(JsonTree) -> Option<Result<T, ErrorModel>>,
    retained: spec_fn(JsonTree) -> bool,
)
    requires
        forall|e: JsonTree| #[trigger] retained(e) == (f(e) is Some),
    ensures
        mapped_entries(entries, f) matches Ok(s) ==> s.len() == entries.filter(retained).len(),
    decreases entries.len(),
{
    reveal(Seq::filter);
    if entries.len() > 0 {
        lemma_mapped_entries_len(entries.drop_last(), f, retained);
        assert(retained(entries.last()) == (f(entries.last()) is Some));
    }
}

/// What a field that must hold an entity identifier denotes: the value of
/// a canonical identifier, an invalid-identifier error for other text,
/// and a missing-required-field error for anything that is not text.
pub open spec fn id_field_model(t: JsonTree) -> Result<int, ErrorModel> {
    match t {
        JsonTree::Text(s) => if is_canonical_uuid(s@) {
            Ok(uuid_value_of(s@))
        } else {
            Err(ErrorModel::InvalidIdentifier)
        },
        _ => Err(ErrorModel::MissingRequiredField),
    }
}

/// Reads the identifier the schema requires under `key`.
pub fn read_id_field(t: &JsonTree, key: &str) -> (r: Result<Uuid, Error>)
    ensures
        match r {
            Ok(u) => id_field_model(get_of(*t, key@)) == Ok::<int, ErrorModel>(u.value as int),
            Err(e) => id_field_model(get_of(*t, key@)) == Err::<int, ErrorModel>(e@),
        },
{
    match t.get(key) {
        Some(JsonTree::Text(s)) => Uuid::parse_str(s.as_str()),
        _ => Err(Error::MissingRequiredField),
    }
}

} // verus!
