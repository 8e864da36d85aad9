//! Properties that relate several operations of the library.
use crate::bookmark::BookmarkResponse;
use crate::collection::{Collection, CollectionResponse, CollectionsResponse};
use crate::json::JsonModel;
use crate::update::{
    lemma_bookmark_update_collection, lemma_bookmark_update_excerpt,
    lemma_bookmark_update_important, lemma_bookmark_update_note, lemma_bookmark_update_tags,
    lemma_bookmark_update_title,
};
use crate::update::BookmarkUpdate;
use crate::user::User;
use crate::wire::{lemma_lookup_empty, lemma_lookup_then_skip_entry, skip_entry, Wire};
use vstd::prelude::*;

verus! {

/// Decoding a collection listing keeps every collection, in order: the
/// `items` array and the decoded list have the same length, and the i-th
/// collection is the decoding of the i-th element.
pub proof fn listing_keeps_length_and_order(j: JsonModel, r: CollectionsResponse)
    requires
        CollectionsResponse::wire_is(j, r),
    ensures
        j.field("items"@) matches Some(JsonModel::Array(items)) && items.len() == r.items@.len()
            && forall|i: int|
            0 <= i < items.len() ==> Collection::wire_is(#[trigger] items[i], r.items@[i]),
{
}

/// Decoding a single-collection envelope gives the collection whose id is the
/// wire `_id` of the `item` member.
pub proof fn collection_envelope_keeps_identity(j: JsonModel, r: CollectionResponse)
    requires
        CollectionResponse::wire_is(j, r),
    ensures
        j.field("item"@) matches Some(item) && item.field("_id"@) == Some(
            JsonModel::Int(r.item.id as int),
        ),
{
}

/// Decoding a single-bookmark envelope gives the bookmark whose id is the
/// wire `_id` of the `item` member.
pub proof fn bookmark_envelope_keeps_identity(j: JsonModel, r: BookmarkResponse)
    requires
        BookmarkResponse::wire_is(j, r),
    ensures
        j.field("item"@) matches Some(item) && item.field("_id"@) == Some(
            JsonModel::Int(r.item.id as int),
        ),
{
}

/// The body of a partial bookmark update names no identity field, and holds
/// exactly the fields the caller supplied, with their values.
pub proof fn bookmark_update_sends_only_given_fields(u: BookmarkUpdate)
    ensures
        BookmarkUpdate::wire_of(u).field("_id"@) is None,
        BookmarkUpdate::wire_of(u).field("id"@) is None,
        BookmarkUpdate::wire_of(u).field("title"@) == match u.title {
            Some(t) => Some(JsonModel::Str(t@)),
            None => None,
        },
        BookmarkUpdate::wire_of(u).field("excerpt"@) == match u.excerpt {
            Some(t) => Some(JsonModel::Str(t@)),
            None => None,
        },
        BookmarkUpdate::wire_of(u).field("note"@) == match u.note {
            Some(t) => Some(JsonModel::Str(t@)),
            None => None,
        },
        BookmarkUpdate::wire_of(u).field("tags"@) == match u.tags {
            Some(t) => Some(<Vec<String> as Wire>::wire_of(t)),
            None => None,
        },
        BookmarkUpdate::wire_of(u).field("collection"@) == match u.collection {
            Some(c) => Some(JsonModel::Int(c as int)),
            None => None,
        },
        BookmarkUpdate::wire_of(u).field("important"@) == match u.important {
            Some(b) => Some(JsonModel::Bool(b)),
            None => None,
        },
{
    lemma_bookmark_update_title(u);
    lemma_bookmark_update_excerpt(u);
    lemma_bookmark_update_note(u);
    lemma_bookmark_update_tags(u);
    lemma_bookmark_update_collection(u);
    lemma_bookmark_update_important(u);
    reveal_strlit("_id");
    reveal_strlit("id");
    reveal_strlit("title");
    reveal_strlit("excerpt");
    reveal_strlit("note");
    reveal_strlit("tags");
    reveal_strlit("collection");
    reveal_strlit("important");
    assert("_id"@.len() == 3);
    assert("id"@.len() == 2);
    assert("title"@.len() == 5);
    assert("excerpt"@.len() == 7);
    assert("note"@.len() == 4);
    assert("tags"@.len() == 4);
    assert("collection"@.len() == 10);
    assert("important"@.len() == 9);
    lemma_update_lacks(u, "_id"@);
    lemma_update_lacks(u, "id"@);
}

proof fn lemma_update_lacks(u: BookmarkUpdate, key: Seq<char>)
    requires
        key != "title"@,
        key != "excerpt"@,
        key != "note"@,
        key != "tags"@,
        key != "collection"@,
        key != "important"@,
    ensures
        BookmarkUpdate::wire_of(u).field(key) is None,
{
    let acc0 = Seq::<(Seq<char>, JsonModel)>::empty();
    let acc1 = acc0 + skip_entry::<String>("title"@, u.title);
    let acc2 = acc1 + skip_entry::<String>("excerpt"@, u.excerpt);
    let acc3 = acc2 + skip_entry::<String>("note"@, u.note);
    let acc4 = acc3 + skip_entry::<Vec<String>>("tags"@, u.tags);
    let acc5 = acc4 + skip_entry::<i64>("collection"@, u.collection);
    lemma_lookup_empty(key);
    lemma_lookup_then_skip_entry::<String>(acc0, "title"@, u.title, key);
    lemma_lookup_then_skip_entry::<String>(acc1, "excerpt"@, u.excerpt, key);
    lemma_lookup_then_skip_entry::<String>(acc2, "note"@, u.note, key);
    lemma_lookup_then_skip_entry::<Vec<String>>(acc3, "tags"@, u.tags, key);
    lemma_lookup_then_skip_entry::<i64>(acc4, "collection"@, u.collection, key);
    lemma_lookup_then_skip_entry::<bool>(acc5, "important"@, u.important, key);
}

/// Encoding an account and decoding it back gives the account again: the
/// encoding decodes, the account is its decoding, and any decoding of it
/// encodes exactly as the account does, optional fields included.
pub proof fn user_round_trip(u: User)
    ensures
        User::wire_ok(User::wire_of(u)),
        User::wire_is(User::wire_of(u), u),
        forall|v: User| #[trigger]
            User::wire_is(User::wire_of(u), v) ==> User::wire_of(v) == User::wire_of(u),
{
    User::lemma_round_trip(u);
}

} // verus!
