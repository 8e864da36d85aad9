//! Partial updates.
use crate::json::{Json, JsonModel};
use crate::wire::{lemma_lookup_then_skip_entry, lemma_opt_round_trip, lemma_lookup_empty, Wire, opt_ok, opt_is, skip_entry, decode_opt_field, push_skip, expect_object, object, no_fields};
use vstd::prelude::*;
use vstd::string::StringExecFns;

verus! {

/// A partial update of a collection: only the fields given are sent.
#[derive(Debug, Clone)]
pub struct CollectionUpdate {
    pub title: Option<String>,
    pub public: Option<bool>,
    pub view: Option<String>,
    pub sort: Option<String>,
}

impl Wire for CollectionUpdate {
    open spec fn wire_ok(j: JsonModel) -> bool {
        &&& j is Object
        &&& opt_ok::<String>(j.field("title"@))
        &&& opt_ok::<bool>(j.field("public"@))
        &&& opt_ok::<String>(j.field("view"@))
        &&& opt_ok::<String>(j.field("sort"@))
    }

    open spec fn wire_is(j: JsonModel, x: CollectionUpdate) -> bool {
        &&& j is Object
        &&& opt_is::<String>(j.field("title"@), x.title)
        &&& opt_is::<bool>(j.field("public"@), x.public)
        &&& opt_is::<String>(j.field("view"@), x.view)
        &&& opt_is::<String>(j.field("sort"@), x.sort)
    }

    open spec fn wire_of(x: CollectionUpdate) -> JsonModel {
        JsonModel::Object(
            Seq::empty()
                + skip_entry::<String>("title"@, x.title)
                + skip_entry::<bool>("public"@, x.public)
                + skip_entry::<String>("view"@, x.view)
                + skip_entry::<String>("sort"@, x.sort)
        )
    }

    fn decode(j: &Json) -> (r: Result<CollectionUpdate, String>) {
        match expect_object(j) {
            Ok(()) => {},
            Err(e) => return Err(e),
        }
        let title = match decode_opt_field::<String>(j, "title") {
            Ok(v) => v,
            Err(e) => return Err(e),
        };
        let public = match decode_opt_field::<bool>(j, "public") {
            Ok(v) => v,
            Err(e) => return Err(e),
        };
        let view = match decode_opt_field::<String>(j, "view") {
            Ok(v) => v,
            Err(e) => return Err(e),
        };
        let sort = match decode_opt_field::<String>(j, "sort") {
            Ok(v) => v,
            Err(e) => return Err(e),
        };
        Ok(CollectionUpdate { title, public, view, sort })
    }

    fn encode(&self) -> (r: Json) {
        let mut fields = no_fields();
        push_skip::<String>(&mut fields, "title", &self.title);
        push_skip::<bool>(&mut fields, "public", &self.public);
        push_skip::<String>(&mut fields, "view", &self.view);
        push_skip::<String>(&mut fields, "sort", &self.sort);
        object(fields)
    }

    proof fn lemma_round_trip(x: Self) {
        lemma_collection_update_title(x);
        lemma_opt_round_trip::<String>(x.title);
        lemma_collection_update_public(x);
        lemma_opt_round_trip::<bool>(x.public);
        lemma_collection_update_view(x);
        lemma_opt_round_trip::<String>(x.view);
        lemma_collection_update_sort(x);
        lemma_opt_round_trip::<String>(x.sort);
        let j = Self::wire_of(x);
        assert(opt_ok::<String>(j.field("title"@)));
        assert(opt_ok::<bool>(j.field("public"@)));
        assert(opt_ok::<String>(j.field("view"@)));
        assert(opt_ok::<String>(j.field("sort"@)));
        assert(opt_is::<String>(j.field("title"@), x.title));
        assert(opt_is::<bool>(j.field("public"@), x.public));
        assert(opt_is::<String>(j.field("view"@), x.view));
        assert(opt_is::<String>(j.field("sort"@), x.sort));
        assert forall|y: Self| #[trigger] Self::wire_is(j, y) implies Self::wire_of(y) == j by {
            assert(skip_entry::<String>("title"@, y.title) == skip_entry::<String>("title"@, x.title));
            assert(skip_entry::<bool>("public"@, y.public) == skip_entry::<bool>("public"@, x.public));
            assert(skip_entry::<String>("view"@, y.view) == skip_entry::<String>("view"@, x.view));
            assert(skip_entry::<String>("sort"@, y.sort) == skip_entry::<String>("sort"@, x.sort));
        }
    }
}

/// The `title` member of an encoded `CollectionUpdate`.
pub(crate) proof fn lemma_collection_update_title(x: CollectionUpdate)
    ensures
        CollectionUpdate::wire_of(x).field("title"@) == match x.title { Some(y) => Some(<String as Wire>::wire_of(y)), None => None },
{
    reveal_strlit("title");
    assert("title"@.len() == 5);
    reveal_strlit("public");
    assert("public"@.len() == 6);
    reveal_strlit("view");
    assert("view"@.len() == 4);
    reveal_strlit("sort");
    assert("sort"@.len() == 4);
    let acc0 = Seq::<(Seq<char>, JsonModel)>::empty();
    lemma_lookup_empty("title"@);
    let acc1 = acc0 + skip_entry::<String>("title"@, x.title);
    let acc2 = acc1 + skip_entry::<bool>("public"@, x.public);
    let acc3 = acc2 + skip_entry::<String>("view"@, x.view);
    let acc4 = acc3 + skip_entry::<String>("sort"@, x.sort);
    lemma_lookup_then_skip_entry::<String>(acc0, "title"@, x.title, "title"@);
    lemma_lookup_then_skip_entry::<bool>(acc1, "public"@, x.public, "title"@);
    lemma_lookup_then_skip_entry::<String>(acc2, "view"@, x.view, "title"@);
    lemma_lookup_then_skip_entry::<String>(acc3, "sort"@, x.sort, "title"@);
}

/// The `public` member of an encoded `CollectionUpdate`.
pub(crate) proof fn lemma_collection_update_public(x: CollectionUpdate)
    ensures
        CollectionUpdate::wire_of(x).field("public"@) == match x.public { Some(y) => Some(<bool as Wire>::wire_of(y)), None => None },
{
    reveal_strlit("public");
    assert("public"@.len() == 6);
    reveal_strlit("title");
    assert("title"@.len() == 5);
    reveal_strlit("view");
    assert("view"@.len() == 4);
    reveal_strlit("sort");
    assert("sort"@.len() == 4);
    let acc0 = Seq::<(Seq<char>, JsonModel)>::empty();
    lemma_lookup_empty("public"@);
    let acc1 = acc0 + skip_entry::<String>("title"@, x.title);
    let acc2 = acc1 + skip_entry::<bool>("public"@, x.public);
    let acc3 = acc2 + skip_entry::<String>("view"@, x.view);
    let acc4 = acc3 + skip_entry::<String>("sort"@, x.sort);
    lemma_lookup_then_skip_entry::<String>(acc0, "title"@, x.title, "public"@);
    lemma_lookup_then_skip_entry::<bool>(acc1, "public"@, x.public, "public"@);
    lemma_lookup_then_skip_entry::<String>(acc2, "view"@, x.view, "public"@);
    lemma_lookup_then_skip_entry::<String>(acc3, "sort"@, x.sort, "public"@);
}

/// The `view` member of an encoded `CollectionUpdate`.
pub(crate) proof fn lemma_collection_update_view(x: CollectionUpdate)
    ensures
        CollectionUpdate::wire_of(x).field("view"@) == match x.view { Some(y) => Some(<String as Wire>::wire_of(y)), None => None },
{
    reveal_strlit("view");
    assert("view"@.len() == 4);
    reveal_strlit("title");
    assert("title"@.len() == 5);
    reveal_strlit("public");
    assert("public"@.len() == 6);
    reveal_strlit("sort");
    assert("sort"@[0] != "view"@[0]);
    let acc0 = Seq::<(Seq<char>, JsonModel)>::empty();
    lemma_lookup_empty("view"@);
    let acc1 = acc0 + skip_entry::<String>("title"@, x.title);
    let acc2 = acc1 + skip_entry::<bool>("public"@, x.public);
    let acc3 = acc2 + skip_entry::<String>("view"@, x.view);
    let acc4 = acc3 + skip_entry::<String>("sort"@, x.sort);
    lemma_lookup_then_skip_entry::<String>(acc0, "title"@, x.title, "view"@);
    lemma_lookup_then_skip_entry::<bool>(acc1, "public"@, x.public, "view"@);
    lemma_lookup_then_skip_entry::<String>(acc2, "view"@, x.view, "view"@);
    lemma_lookup_then_skip_entry::<String>(acc3, "sort"@, x.sort, "view"@);
}

/// The `sort` member of an encoded `CollectionUpdate`.
pub(crate) proof fn lemma_collection_update_sort(x: CollectionUpdate)
    ensures
        CollectionUpdate::wire_of(x).field("sort"@) == match x.sort { Some(y) => Some(<String as Wire>::wire_of(y)), None => None },
{
    reveal_strlit("sort");
    assert("sort"@.len() == 4);
    reveal_strlit("title");
    assert("title"@.len() == 5);
    reveal_strlit("public");
    assert("public"@.len() == 6);
    reveal_strlit("view");
    assert("view"@[0] != "sort"@[0]);
    let acc0 = Seq::<(Seq<char>, JsonModel)>::empty();
    lemma_lookup_empty("sort"@);
    let acc1 = acc0 + skip_entry::<String>("title"@, x.title);
    let acc2 = acc1 + skip_entry::<bool>("public"@, x.public);
    let acc3 = acc2 + skip_entry::<String>("view"@, x.view);
    let acc4 = acc3 + skip_entry::<String>("sort"@, x.sort);
    lemma_lookup_then_skip_entry::<String>(acc0, "title"@, x.title, "sort"@);
    lemma_lookup_then_skip_entry::<bool>(acc1, "public"@, x.public, "sort"@);
    lemma_lookup_then_skip_entry::<String>(acc2, "view"@, x.view, "sort"@);
    lemma_lookup_then_skip_entry::<String>(acc3, "sort"@, x.sort, "sort"@);
}

/// A partial update of a bookmark: only the fields given are sent.
#[derive(Debug, Clone)]
pub struct BookmarkUpdate {
    pub title: Option<String>,
    pub excerpt: Option<String>,
    pub note: Option<String>,
    pub tags: Option<Vec<String>>,
    pub collection: Option<i64>,
    pub important: Option<bool>,
}

impl Wire for BookmarkUpdate {
    open spec fn wire_ok(j: JsonModel) -> bool {
        &&& j is Object
        &&& opt_ok::<String>(j.field("title"@))
        &&& opt_ok::<String>(j.field("excerpt"@))
        &&& opt_ok::<String>(j.field("note"@))
        &&& opt_ok::<Vec<String>>(j.field("tags"@))
        &&& opt_ok::<i64>(j.field("collection"@))
        &&& opt_ok::<bool>(j.field("important"@))
    }

    open spec fn wire_is(j: JsonModel, x: BookmarkUpdate) -> bool {
        &&& j is Object
        &&& opt_is::<String>(j.field("title"@), x.title)
        &&& opt_is::<String>(j.field("excerpt"@), x.excerpt)
        &&& opt_is::<String>(j.field("note"@), x.note)
        &&& opt_is::<Vec<String>>(j.field("tags"@), x.tags)
        &&& opt_is::<i64>(j.field("collection"@), x.collection)
        &&& opt_is::<bool>(j.field("important"@), x.important)
    }

    open spec fn wire_of(x: BookmarkUpdate) -> JsonModel {
        JsonModel::Object(
            Seq::empty()
                + skip_entry::<String>("title"@, x.title)
                + skip_entry::<String>("excerpt"@, x.excerpt)
                + skip_entry::<String>("note"@, x.note)
                + skip_entry::<Vec<String>>("tags"@, x.tags)
                + skip_entry::<i64>("collection"@, x.collection)
                + skip_entry::<bool>("important"@, x.important)
        )
    }

    fn decode(j: &Json) -> (r: Result<BookmarkUpdate, String>) {
        match expect_object(j) {
            Ok(()) => {},
            Err(e) => return Err(e),
        }
        let title = match decode_opt_field::<String>(j, "title") {
            Ok(v) => v,
            Err(e) => return Err(e),
        };
        let excerpt = match decode_opt_field::<String>(j, "excerpt") {
            Ok(v) => v,
            Err(e) => return Err(e),
        };
        let note = match decode_opt_field::<String>(j, "note") {
            Ok(v) => v,
            Err(e) => return Err(e),
        };
        let tags = match decode_opt_field::<Vec<String>>(j, "tags") {
            Ok(v) => v,
            Err(e) => return Err(e),
        };
        let collection = match decode_opt_field::<i64>(j, "collection") {
            Ok(v) => v,
            Err(e) => return Err(e),
        };
        let important = match decode_opt_field::<bool>(j, "important") {
            Ok(v) => v,
            Err(e) => return Err(e),
        };
        Ok(BookmarkUpdate { title, excerpt, note, tags, collection, important })
    }

    fn encode(&self) -> (r: Json) {
        let mut fields = no_fields();
        push_skip::<String>(&mut fields, "title", &self.title);
        push_skip::<String>(&mut fields, "excerpt", &self.excerpt);
        push_skip::<String>(&mut fields, "note", &self.note);
        push_skip::<Vec<String>>(&mut fields, "tags", &self.tags);
        push_skip::<i64>(&mut fields, "collection", &self.collection);
        push_skip::<bool>(&mut fields, "important", &self.important);
        object(fields)
    }

    proof fn lemma_round_trip(x: Self) {
        lemma_bookmark_update_title(x);
        lemma_opt_round_trip::<String>(x.title);
        lemma_bookmark_update_excerpt(x);
        lemma_opt_round_trip::<String>(x.excerpt);
        lemma_bookmark_update_note(x);
        lemma_opt_round_trip::<String>(x.note);
        lemma_bookmark_update_tags(x);
        lemma_opt_round_trip::<Vec<String>>(x.tags);
        lemma_bookmark_update_collection(x);
        lemma_opt_round_trip::<i64>(x.collection);
        lemma_bookmark_update_important(x);
        lemma_opt_round_trip::<bool>(x.important);
        let j = Self::wire_of(x);
        assert(opt_ok::<String>(j.field("title"@)));
        assert(opt_ok::<String>(j.field("excerpt"@)));
        assert(opt_ok::<String>(j.field("note"@)));
        assert(opt_ok::<Vec<String>>(j.field("tags"@)));
        assert(opt_ok::<i64>(j.field("collection"@)));
        assert(opt_ok::<bool>(j.field("important"@)));
        assert(opt_is::<String>(j.field("title"@), x.title));
        assert(opt_is::<String>(j.field("excerpt"@), x.excerpt));
        assert(opt_is::<String>(j.field("note"@), x.note));
        assert(opt_is::<Vec<String>>(j.field("tags"@), x.tags));
        assert(opt_is::<i64>(j.field("collection"@), x.collection));
        assert(opt_is::<bool>(j.field("important"@), x.important));
        assert forall|y: Self| #[trigger] Self::wire_is(j, y) implies Self::wire_of(y) == j by {
            assert(skip_entry::<String>("title"@, y.title) == skip_entry::<String>("title"@, x.title));
            assert(skip_entry::<String>("excerpt"@, y.excerpt) == skip_entry::<String>("excerpt"@, x.excerpt));
            assert(skip_entry::<String>("note"@, y.note) == skip_entry::<String>("note"@, x.note));
            assert(skip_entry::<Vec<String>>("tags"@, y.tags) == skip_entry::<Vec<String>>("tags"@, x.tags));
            assert(skip_entry::<i64>("collection"@, y.collection) == skip_entry::<i64>("collection"@, x.collection));
            assert(skip_entry::<bool>("important"@, y.important) == skip_entry::<bool>("important"@, x.important));
        }
    }
}

/// The `title` member of an encoded `BookmarkUpdate`.
pub(crate) proof fn lemma_bookmark_update_title(x: BookmarkUpdate)
    ensures
        BookmarkUpdate::wire_of(x).field("title"@) == match x.title { Some(y) => Some(<String as Wire>::wire_of(y)), None => None },
{
    reveal_strlit("title");
    assert("title"@.len() == 5);
    reveal_strlit("excerpt");
    assert("excerpt"@.len() == 7);
    reveal_strlit("note");
    assert("note"@.len() == 4);
    reveal_strlit("tags");
    assert("tags"@.len() == 4);
    reveal_strlit("collection");
    assert("collection"@.len() == 10);
    reveal_strlit("important");
    assert("important"@.len() == 9);
    let acc0 = Seq::<(Seq<char>, JsonModel)>::empty();
    lemma_lookup_empty("title"@);
    let acc1 = acc0 + skip_entry::<String>("title"@, x.title);
    let acc2 = acc1 + skip_entry::<String>("excerpt"@, x.excerpt);
    let acc3 = acc2 + skip_entry::<String>("note"@, x.note);
    let acc4 = acc3 + skip_entry::<Vec<String>>("tags"@, x.tags);
    let acc5 = acc4 + skip_entry::<i64>("collection"@, x.collection);
    let acc6 = acc5 + skip_entry::<bool>("important"@, x.important);
    lemma_lookup_then_skip_entry::<String>(acc0, "title"@, x.title, "title"@);
    lemma_lookup_then_skip_entry::<String>(acc1, "excerpt"@, x.excerpt, "title"@);
    lemma_lookup_then_skip_entry::<String>(acc2, "note"@, x.note, "title"@);
    lemma_lookup_then_skip_entry::<Vec<String>>(acc3, "tags"@, x.tags, "title"@);
    lemma_lookup_then_skip_entry::<i64>(acc4, "collection"@, x.collection, "title"@);
    lemma_lookup_then_skip_entry::<bool>(acc5, "important"@, x.important, "title"@);
}

/// The `excerpt` member of an encoded `BookmarkUpdate`.
pub(crate) proof fn lemma_bookmark_update_excerpt(x: BookmarkUpdate)
    ensures
        BookmarkUpdate::wire_of(x).field("excerpt"@) == match x.excerpt { Some(y) => Some(<String as Wire>::wire_of(y)), None => None },
{
    reveal_strlit("excerpt");
    assert("excerpt"@.len() == 7);
    reveal_strlit("title");
    assert("title"@.len() == 5);
    reveal_strlit("note");
    assert("note"@.len() == 4);
    reveal_strlit("tags");
    assert("tags"@.len() == 4);
    reveal_strlit("collection");
    assert("collection"@.len() == 10);
    reveal_strlit("important");
    assert("important"@.len() == 9);
    let acc0 = Seq::<(Seq<char>, JsonModel)>::empty();
    lemma_lookup_empty("excerpt"@);
    let acc1 = acc0 + skip_entry::<String>("title"@, x.title);
    let acc2 = acc1 + skip_entry::<String>("excerpt"@, x.excerpt);
    let acc3 = acc2 + skip_entry::<String>("note"@, x.note);
    let acc4 = acc3 + skip_entry::<Vec<String>>("tags"@, x.tags);
    let acc5 = acc4 + skip_entry::<i64>("collection"@, x.collection);
    let acc6 = acc5 + skip_entry::<bool>("important"@, x.important);
    lemma_lookup_then_skip_entry::<String>(acc0, "title"@, x.title, "excerpt"@);
    lemma_lookup_then_skip_entry::<String>(acc1, "excerpt"@, x.excerpt, "excerpt"@);
    lemma_lookup_then_skip_entry::<String>(acc2, "note"@, x.note, "excerpt"@);
    lemma_lookup_then_skip_entry::<Vec<String>>(acc3, "tags"@, x.tags, "excerpt"@);
    lemma_lookup_then_skip_entry::<i64>(acc4, "collection"@, x.collection, "excerpt"@);
    lemma_lookup_then_skip_entry::<bool>(acc5, "important"@, x.important, "excerpt"@);
}

/// The `note` member of an encoded `BookmarkUpdate`.
pub(crate) proof fn lemma_bookmark_update_note(x: BookmarkUpdate)
    ensures
        BookmarkUpdate::wire_of(x).field("note"@) == match x.note { Some(y) => Some(<String as Wire>::wire_of(y)), None => None },
{
    reveal_strlit("note");
    assert("note"@.len() == 4);
    reveal_strlit("title");
    assert("title"@.len() == 5);
    reveal_strlit("excerpt");
    assert("excerpt"@.len() == 7);
    reveal_strlit("tags");
    assert("tags"@[0] != "note"@[0]);
    reveal_strlit("collection");
    assert("collection"@.len() == 10);
    reveal_strlit("important");
    assert("important"@.len() == 9);
    let acc0 = Seq::<(Seq<char>, JsonModel)>::empty();
    lemma_lookup_empty("note"@);
    let acc1 = acc0 + skip_entry::<String>("title"@, x.title);
    let acc2 = acc1 + skip_entry::<String>("excerpt"@, x.excerpt);
    let acc3 = acc2 + skip_entry::<String>("note"@, x.note);
    let acc4 = acc3 + skip_entry::<Vec<String>>("tags"@, x.tags);
    let acc5 = acc4 + skip_entry::<i64>("collection"@, x.collection);
    let acc6 = acc5 + skip_entry::<bool>("important"@, x.important);
    lemma_lookup_then_skip_entry::<String>(acc0, "title"@, x.title, "note"@);
    lemma_lookup_then_skip_entry::<String>(acc1, "excerpt"@, x.excerpt, "note"@);
    lemma_lookup_then_skip_entry::<String>(acc2, "note"@, x.note, "note"@);
    lemma_lookup_then_skip_entry::<Vec<String>>(acc3, "tags"@, x.tags, "note"@);
    lemma_lookup_then_skip_entry::<i64>(acc4, "collection"@, x.collection, "note"@);
    lemma_lookup_then_skip_entry::<bool>(acc5, "important"@, x.important, "note"@);
}

/// The `tags` member of an encoded `BookmarkUpdate`.
pub(crate) proof fn lemma_bookmark_update_tags(x: BookmarkUpdate)
    ensures
        BookmarkUpdate::wire_of(x).field("tags"@) == match x.tags { Some(y) => Some(<Vec<String> as Wire>::wire_of(y)), None => None },
{
    reveal_strlit("tags");
    assert("tags"@.len() == 4);
    reveal_strlit("title");
    assert("title"@.len() == 5);
    reveal_strlit("excerpt");
    assert("excerpt"@.len() == 7);
    reveal_strlit("note");
    assert("note"@[0] != "tags"@[0]);
    reveal_strlit("collection");
    assert("collection"@.len() == 10);
    reveal_strlit("important");
    assert("important"@.len() == 9);
    let acc0 = Seq::<(Seq<char>, JsonModel)>::empty();
    lemma_lookup_empty("tags"@);
    let acc1 = acc0 + skip_entry::<String>("title"@, x.title);
    let acc2 = acc1 + skip_entry::<String>("excerpt"@, x.excerpt);
    let acc3 = acc2 + skip_entry::<String>("note"@, x.note);
    let acc4 = acc3 + skip_entry::<Vec<String>>("tags"@, x.tags);
    let acc5 = acc4 + skip_entry::<i64>("collection"@, x.collection);
    let acc6 = acc5 + skip_entry::<bool>("important"@, x.important);
    lemma_lookup_then_skip_entry::<String>(acc0, "title"@, x.title, "tags"@);
    lemma_lookup_then_skip_entry::<String>(acc1, "excerpt"@, x.excerpt, "tags"@);
    lemma_lookup_then_skip_entry::<String>(acc2, "note"@, x.note, "tags"@);
    lemma_lookup_then_skip_entry::<Vec<String>>(acc3, "tags"@, x.tags, "tags"@);
    lemma_lookup_then_skip_entry::<i64>(acc4, "collection"@, x.collection, "tags"@);
    lemma_lookup_then_skip_entry::<bool>(acc5, "important"@, x.important, "tags"@);
}

/// The `collection` member of an encoded `BookmarkUpdate`.
pub(crate) proof fn lemma_bookmark_update_collection(x: BookmarkUpdate)
    ensures
        BookmarkUpdate::wire_of(x).field("collection"@) == match x.collection { Some(y) => Some(<i64 as Wire>::wire_of(y)), None => None },
{
    reveal_strlit("collection");
    assert("collection"@.len() == 10);
    reveal_strlit("title");
    assert("title"@.len() == 5);
    reveal_strlit("excerpt");
    assert("excerpt"@.len() == 7);
    reveal_strlit("note");
    assert("note"@.len() == 4);
    reveal_strlit("tags");
    assert("tags"@.len() == 4);
    reveal_strlit("important");
    assert("important"@.len() == 9);
    let acc0 = Seq::<(Seq<char>, JsonModel)>::empty();
    lemma_lookup_empty("collection"@);
    let acc1 = acc0 + skip_entry::<String>("title"@, x.title);
    let acc2 = acc1 + skip_entry::<String>("excerpt"@, x.excerpt);
    let acc3 = acc2 + skip_entry::<String>("note"@, x.note);
    let acc4 = acc3 + skip_entry::<Vec<String>>("tags"@, x.tags);
    let acc5 = acc4 + skip_entry::<i64>("collection"@, x.collection);
    let acc6 = acc5 + skip_entry::<bool>("important"@, x.important);
    lemma_lookup_then_skip_entry::<String>(acc0, "title"@, x.title, "collection"@);
    lemma_lookup_then_skip_entry::<String>(acc1, "excerpt"@, x.excerpt, "collection"@);
    lemma_lookup_then_skip_entry::<String>(acc2, "note"@, x.note, "collection"@);
    lemma_lookup_then_skip_entry::<Vec<String>>(acc3, "tags"@, x.tags, "collection"@);
    lemma_lookup_then_skip_entry::<i64>(acc4, "collection"@, x.collection, "collection"@);
    lemma_lookup_then_skip_entry::<bool>(acc5, "important"@, x.important, "collection"@);
}

/// The `important` member of an encoded `BookmarkUpdate`.
pub(crate) proof fn lemma_bookmark_update_important(x: BookmarkUpdate)
    ensures
        BookmarkUpdate::wire_of(x).field("important"@) == match x.important { Some(y) => Some(<bool as Wire>::wire_of(y)), None => None },
{
    reveal_strlit("important");
    assert("important"@.len() == 9);
    reveal_strlit("title");
    assert("title"@.len() == 5);
    reveal_strlit("excerpt");
    assert("excerpt"@.len() == 7);
    reveal_strlit("note");
    assert("note"@.len() == 4);
    reveal_strlit("tags");
    assert("tags"@.len() == 4);
    reveal_strlit("collection");
    assert("collection"@.len() == 10);
    let acc0 = Seq::<(Seq<char>, JsonModel)>::empty();
    lemma_lookup_empty("important"@);
    let acc1 = acc0 + skip_entry::<String>("title"@, x.title);
    let acc2 = acc1 + skip_entry::<String>("excerpt"@, x.excerpt);
    let acc3 = acc2 + skip_entry::<String>("note"@, x.note);
    let acc4 = acc3 + skip_entry::<Vec<String>>("tags"@, x.tags);
    let acc5 = acc4 + skip_entry::<i64>("collection"@, x.collection);
    let acc6 = acc5 + skip_entry::<bool>("important"@, x.important);
    lemma_lookup_then_skip_entry::<String>(acc0, "title"@, x.title, "important"@);
    lemma_lookup_then_skip_entry::<String>(acc1, "excerpt"@, x.excerpt, "important"@);
    lemma_lookup_then_skip_entry::<String>(acc2, "note"@, x.note, "important"@);
    lemma_lookup_then_skip_entry::<Vec<String>>(acc3, "tags"@, x.tags, "important"@);
    lemma_lookup_then_skip_entry::<i64>(acc4, "collection"@, x.collection, "important"@);
    lemma_lookup_then_skip_entry::<bool>(acc5, "important"@, x.important, "important"@);
}

/// Changes applied to every bookmark of a batch: only the fields given are sent.
#[derive(Debug, Clone)]
pub struct BatchUpdate {
    pub collection: Option<i64>,
    pub tags: Option<Vec<String>>,
    pub important: Option<bool>,
}

impl Wire for BatchUpdate {
    open spec fn wire_ok(j: JsonModel) -> bool {
        &&& j is Object
        &&& opt_ok::<i64>(j.field("collection"@))
        &&& opt_ok::<Vec<String>>(j.field("tags"@))
        &&& opt_ok::<bool>(j.field("important"@))
    }

    open spec fn wire_is(j: JsonModel, x: BatchUpdate) -> bool {
        &&& j is Object
        &&& opt_is::<i64>(j.field("collection"@), x.collection)
        &&& opt_is::<Vec<String>>(j.field("tags"@), x.tags)
        &&& opt_is::<bool>(j.field("important"@), x.important)
    }

    open spec fn wire_of(x: BatchUpdate) -> JsonModel {
        JsonModel::Object(
            Seq::empty()
                + skip_entry::<i64>("collection"@, x.collection)
                + skip_entry::<Vec<String>>("tags"@, x.tags)
                + skip_entry::<bool>("important"@, x.important)
        )
    }

    fn decode(j: &Json) -> (r: Result<BatchUpdate, String>) {
        match expect_object(j) {
            Ok(()) => {},
            Err(e) => return Err(e),
        }
        let collection = match decode_opt_field::<i64>(j, "collection") {
            Ok(v) => v,
            Err(e) => return Err(e),
        };
        let tags = match decode_opt_field::<Vec<String>>(j, "tags") {
            Ok(v) => v,
            Err(e) => return Err(e),
        };
        let important = match decode_opt_field::<bool>(j, "important") {
            Ok(v) => v,
            Err(e) => return Err(e),
        };
        Ok(BatchUpdate { collection, tags, important })
    }

    fn encode(&self) -> (r: Json) {
        let mut fields = no_fields();
        push_skip::<i64>(&mut fields, "collection", &self.collection);
        push_skip::<Vec<String>>(&mut fields, "tags", &self.tags);
        push_skip::<bool>(&mut fields, "important", &self.important);
        object(fields)
    }

    proof fn lemma_round_trip(x: Self) {
        lemma_batch_update_collection(x);
        lemma_opt_round_trip::<i64>(x.collection);
        lemma_batch_update_tags(x);
        lemma_opt_round_trip::<Vec<String>>(x.tags);
        lemma_batch_update_important(x);
        lemma_opt_round_trip::<bool>(x.important);
        let j = Self::wire_of(x);
        assert(opt_ok::<i64>(j.field("collection"@)));
        assert(opt_ok::<Vec<String>>(j.field("tags"@)));
        assert(opt_ok::<bool>(j.field("important"@)));
        assert(opt_is::<i64>(j.field("collection"@), x.collection));
        assert(opt_is::<Vec<String>>(j.field("tags"@), x.tags));
        assert(opt_is::<bool>(j.field("important"@), x.important));
        assert forall|y: Self| #[trigger] Self::wire_is(j, y) implies Self::wire_of(y) == j by {
            assert(skip_entry::<i64>("collection"@, y.collection) == skip_entry::<i64>("collection"@, x.collection));
            assert(skip_entry::<Vec<String>>("tags"@, y.tags) == skip_entry::<Vec<String>>("tags"@, x.tags));
            assert(skip_entry::<bool>("important"@, y.important) == skip_entry::<bool>("important"@, x.important));
        }
    }
}

/// The `collection` member of an encoded `BatchUpdate`.
pub(crate) proof fn lemma_batch_update_collection(x: BatchUpdate)
    ensures
        BatchUpdate::wire_of(x).field("collection"@) == match x.collection { Some(y) => Some(<i64 as Wire>::wire_of(y)), None => None },
{
    reveal_strlit("collection");
    assert("collection"@.len() == 10);
    reveal_strlit("tags");
    assert("tags"@.len() == 4);
    reveal_strlit("important");
    assert("important"@.len() == 9);
    let acc0 = Seq::<(Seq<char>, JsonModel)>::empty();
    lemma_lookup_empty("collection"@);
    let acc1 = acc0 + skip_entry::<i64>("collection"@, x.collection);
    let acc2 = acc1 + skip_entry::<Vec<String>>("tags"@, x.tags);
    let acc3 = acc2 + skip_entry::<bool>("important"@, x.important);
    lemma_lookup_then_skip_entry::<i64>(acc0, "collection"@, x.collection, "collection"@);
    lemma_lookup_then_skip_entry::<Vec<String>>(acc1, "tags"@, x.tags, "collection"@);
    lemma_lookup_then_skip_entry::<bool>(acc2, "important"@, x.important, "collection"@);
}

/// The `tags` member of an encoded `BatchUpdate`.
pub(crate) proof fn lemma_batch_update_tags(x: BatchUpdate)
    ensures
        BatchUpdate::wire_of(x).field("tags"@) == match x.tags { Some(y) => Some(<Vec<String> as Wire>::wire_of(y)), None => None },
{
    reveal_strlit("tags");
    assert("tags"@.len() == 4);
    reveal_strlit("collection");
    assert("collection"@.len() == 10);
    reveal_strlit("important");
    assert("important"@.len() == 9);
    let acc0 = Seq::<(Seq<char>, JsonModel)>::empty();
    lemma_lookup_empty("tags"@);
    let acc1 = acc0 + skip_entry::<i64>("collection"@, x.collection);
    let acc2 = acc1 + skip_entry::<Vec<String>>("tags"@, x.tags);
    let acc3 = acc2 + skip_entry::<bool>("important"@, x.important);
    lemma_lookup_then_skip_entry::<i64>(acc0, "collection"@, x.collection, "tags"@);
    lemma_lookup_then_skip_entry::<Vec<String>>(acc1, "tags"@, x.tags, "tags"@);
    lemma_lookup_then_skip_entry::<bool>(acc2, "important"@, x.important, "tags"@);
}

/// The `important` member of an encoded `BatchUpdate`.
pub(crate) proof fn lemma_batch_update_important(x: BatchUpdate)
    ensures
        BatchUpdate::wire_of(x).field("important"@) == match x.important { Some(y) => Some(<bool as Wire>::wire_of(y)), None => None },
{
    reveal_strlit("important");
    assert("important"@.len() == 9);
    reveal_strlit("collection");
    assert("collection"@.len() == 10);
    reveal_strlit("tags");
    assert("tags"@.len() == 4);
    let acc0 = Seq::<(Seq<char>, JsonModel)>::empty();
    lemma_lookup_empty("important"@);
    let acc1 = acc0 + skip_entry::<i64>("collection"@, x.collection);
    let acc2 = acc1 + skip_entry::<Vec<String>>("tags"@, x.tags);
    let acc3 = acc2 + skip_entry::<bool>("important"@, x.important);
    lemma_lookup_then_skip_entry::<i64>(acc0, "collection"@, x.collection, "important"@);
    lemma_lookup_then_skip_entry::<Vec<String>>(acc1, "tags"@, x.tags, "important"@);
    lemma_lookup_then_skip_entry::<bool>(acc2, "important"@, x.important, "important"@);
}

} // verus!
