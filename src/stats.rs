//! Statistics.
use crate::json::{Json, JsonModel};
use crate::wire::{lemma_lookup_then_entry, lemma_lookup_empty, Wire, req_ok, req_is, entry, decode_field, push_field, expect_object, object, no_fields};
use vstd::prelude::*;
use vstd::string::StringExecFns;

verus! {

/// Counts over an account.
#[derive(Debug, Clone)]
pub struct UserStats {
    pub count: i32,
    pub last_bookmark_created: String,
    pub last_bookmark_updated: String,
    pub today: i32,
    pub tags: i32,
    pub collections: i32,
}

impl Wire for UserStats {
    open spec fn wire_ok(j: JsonModel) -> bool {
        &&& j is Object
        &&& req_ok::<i32>(j.field("count"@))
        &&& req_ok::<String>(j.field("lastBookmarkCreated"@))
        &&& req_ok::<String>(j.field("lastBookmarkUpdated"@))
        &&& req_ok::<i32>(j.field("today"@))
        &&& req_ok::<i32>(j.field("tags"@))
        &&& req_ok::<i32>(j.field("collections"@))
    }

    open spec fn wire_is(j: JsonModel, x: UserStats) -> bool {
        &&& j is Object
        &&& req_is::<i32>(j.field("count"@), x.count)
        &&& req_is::<String>(j.field("lastBookmarkCreated"@), x.last_bookmark_created)
        &&& req_is::<String>(j.field("lastBookmarkUpdated"@), x.last_bookmark_updated)
        &&& req_is::<i32>(j.field("today"@), x.today)
        &&& req_is::<i32>(j.field("tags"@), x.tags)
        &&& req_is::<i32>(j.field("collections"@), x.collections)
    }

    open spec fn wire_of(x: UserStats) -> JsonModel {
        JsonModel::Object(
            Seq::empty()
                + entry::<i32>("count"@, x.count)
                + entry::<String>("lastBookmarkCreated"@, x.last_bookmark_created)
                + entry::<String>("lastBookmarkUpdated"@, x.last_bookmark_updated)
                + entry::<i32>("today"@, x.today)
                + entry::<i32>("tags"@, x.tags)
                + entry::<i32>("collections"@, x.collections)
        )
    }

    fn decode(j: &Json) -> (r: Result<UserStats, String>) {
        match expect_object(j) {
            Ok(()) => {},
            Err(e) => return Err(e),
        }
        let count = match decode_field::<i32>(j, "count") {
            Ok(v) => v,
            Err(e) => return Err(e),
        };
        let last_bookmark_created = match decode_field::<String>(j, "lastBookmarkCreated") {
            Ok(v) => v,
            Err(e) => return Err(e),
        };
        let last_bookmark_updated = match decode_field::<String>(j, "lastBookmarkUpdated") {
            Ok(v) => v,
            Err(e) => return Err(e),
        };
        let today = match decode_field::<i32>(j, "today") {
            Ok(v) => v,
            Err(e) => return Err(e),
        };
        let tags = match decode_field::<i32>(j, "tags") {
            Ok(v) => v,
            Err(e) => return Err(e),
        };
        let collections = match decode_field::<i32>(j, "collections") {
            Ok(v) => v,
            Err(e) => return Err(e),
        };
        Ok(UserStats { count, last_bookmark_created, last_bookmark_updated, today, tags, collections })
    }

    fn encode(&self) -> (r: Json) {
        let mut fields = no_fields();
        push_field::<i32>(&mut fields, "count", &self.count);
        push_field::<String>(&mut fields, "lastBookmarkCreated", &self.last_bookmark_created);
        push_field::<String>(&mut fields, "lastBookmarkUpdated", &self.last_bookmark_updated);
        push_field::<i32>(&mut fields, "today", &self.today);
        push_field::<i32>(&mut fields, "tags", &self.tags);
        push_field::<i32>(&mut fields, "collections", &self.collections);
        object(fields)
    }

    proof fn lemma_round_trip(x: Self) {
        lemma_user_stats_count(x);
        <i32 as Wire>::lemma_round_trip(x.count);
        lemma_user_stats_last_bookmark_created(x);
        <String as Wire>::lemma_round_trip(x.last_bookmark_created);
        lemma_user_stats_last_bookmark_updated(x);
        <String as Wire>::lemma_round_trip(x.last_bookmark_updated);
        lemma_user_stats_today(x);
        <i32 as Wire>::lemma_round_trip(x.today);
        lemma_user_stats_tags(x);
        <i32 as Wire>::lemma_round_trip(x.tags);
        lemma_user_stats_collections(x);
        <i32 as Wire>::lemma_round_trip(x.collections);
        let j = Self::wire_of(x);
        assert(req_ok::<i32>(j.field("count"@)));
        assert(req_ok::<String>(j.field("lastBookmarkCreated"@)));
        assert(req_ok::<String>(j.field("lastBookmarkUpdated"@)));
        assert(req_ok::<i32>(j.field("today"@)));
        assert(req_ok::<i32>(j.field("tags"@)));
        assert(req_ok::<i32>(j.field("collections"@)));
        assert(req_is::<i32>(j.field("count"@), x.count));
        assert(req_is::<String>(j.field("lastBookmarkCreated"@), x.last_bookmark_created));
        assert(req_is::<String>(j.field("lastBookmarkUpdated"@), x.last_bookmark_updated));
        assert(req_is::<i32>(j.field("today"@), x.today));
        assert(req_is::<i32>(j.field("tags"@), x.tags));
        assert(req_is::<i32>(j.field("collections"@), x.collections));
        assert forall|y: Self| #[trigger] Self::wire_is(j, y) implies Self::wire_of(y) == j by {
            assert(entry::<i32>("count"@, y.count) == entry::<i32>("count"@, x.count));
            assert(entry::<String>("lastBookmarkCreated"@, y.last_bookmark_created) == entry::<String>("lastBookmarkCreated"@, x.last_bookmark_created));
            assert(entry::<String>("lastBookmarkUpdated"@, y.last_bookmark_updated) == entry::<String>("lastBookmarkUpdated"@, x.last_bookmark_updated));
            assert(entry::<i32>("today"@, y.today) == entry::<i32>("today"@, x.today));
            assert(entry::<i32>("tags"@, y.tags) == entry::<i32>("tags"@, x.tags));
            assert(entry::<i32>("collections"@, y.collections) == entry::<i32>("collections"@, x.collections));
        }
    }
}

/// The `count` member of an encoded `UserStats`.
pub(crate) proof fn lemma_user_stats_count(x: UserStats)
    ensures
        UserStats::wire_of(x).field("count"@) == Some(<i32 as Wire>::wire_of(x.count)),
{
    reveal_strlit("count");
    assert("count"@.len() == 5);
    reveal_strlit("lastBookmarkCreated");
    assert("lastBookmarkCreated"@.len() == 19);
    reveal_strlit("lastBookmarkUpdated");
    assert("lastBookmarkUpdated"@.len() == 19);
    reveal_strlit("today");
    assert("today"@[0] != "count"@[0]);
    reveal_strlit("tags");
    assert("tags"@.len() == 4);
    reveal_strlit("collections");
    assert("collections"@.len() == 11);
    let acc0 = Seq::<(Seq<char>, JsonModel)>::empty();
    lemma_lookup_empty("count"@);
    let acc1 = acc0 + entry::<i32>("count"@, x.count);
    let acc2 = acc1 + entry::<String>("lastBookmarkCreated"@, x.last_bookmark_created);
    let acc3 = acc2 + entry::<String>("lastBookmarkUpdated"@, x.last_bookmark_updated);
    let acc4 = acc3 + entry::<i32>("today"@, x.today);
    let acc5 = acc4 + entry::<i32>("tags"@, x.tags);
    let acc6 = acc5 + entry::<i32>("collections"@, x.collections);
    lemma_lookup_then_entry::<i32>(acc0, "count"@, x.count, "count"@);
    lemma_lookup_then_entry::<String>(acc1, "lastBookmarkCreated"@, x.last_bookmark_created, "count"@);
    lemma_lookup_then_entry::<String>(acc2, "lastBookmarkUpdated"@, x.last_bookmark_updated, "count"@);
    lemma_lookup_then_entry::<i32>(acc3, "today"@, x.today, "count"@);
    lemma_lookup_then_entry::<i32>(acc4, "tags"@, x.tags, "count"@);
    lemma_lookup_then_entry::<i32>(acc5, "collections"@, x.collections, "count"@);
}

/// The `lastBookmarkCreated` member of an encoded `UserStats`.
pub(crate) proof fn lemma_user_stats_last_bookmark_created(x: UserStats)
    ensures
        UserStats::wire_of(x).field("lastBookmarkCreated"@) == Some(<String as Wire>::wire_of(x.last_bookmark_created)),
{
    reveal_strlit("lastBookmarkCreated");
    assert("lastBookmarkCreated"@.len() == 19);
    reveal_strlit("count");
    assert("count"@.len() == 5);
    reveal_strlit("lastBookmarkUpdated");
    assert("lastBookmarkUpdated"@[12] != "lastBookmarkCreated"@[12]);
    reveal_strlit("today");
    assert("today"@.len() == 5);
    reveal_strlit("tags");
    assert("tags"@.len() == 4);
    reveal_strlit("collections");
    assert("collections"@.len() == 11);
    let acc0 = Seq::<(Seq<char>, JsonModel)>::empty();
    lemma_lookup_empty("lastBookmarkCreated"@);
    let acc1 = acc0 + entry::<i32>("count"@, x.count);
    let acc2 = acc1 + entry::<String>("lastBookmarkCreated"@, x.last_bookmark_created);
    let acc3 = acc2 + entry::<String>("lastBookmarkUpdated"@, x.last_bookmark_updated);
    let acc4 = acc3 + entry::<i32>("today"@, x.today);
    let acc5 = acc4 + entry::<i32>("tags"@, x.tags);
    let acc6 = acc5 + entry::<i32>("collections"@, x.collections);
    lemma_lookup_then_entry::<i32>(acc0, "count"@, x.count, "lastBookmarkCreated"@);
    lemma_lookup_then_entry::<String>(acc1, "lastBookmarkCreated"@, x.last_bookmark_created, "lastBookmarkCreated"@);
    lemma_lookup_then_entry::<String>(acc2, "lastBookmarkUpdated"@, x.last_bookmark_updated, "lastBookmarkCreated"@);
    lemma_lookup_then_entry::<i32>(acc3, "today"@, x.today, "lastBookmarkCreated"@);
    lemma_lookup_then_entry::<i32>(acc4, "tags"@, x.tags, "lastBookmarkCreated"@);
    lemma_lookup_then_entry::<i32>(acc5, "collections"@, x.collections, "lastBookmarkCreated"@);
}

/// The `lastBookmarkUpdated` member of an encoded `UserStats`.
pub(crate) proof fn lemma_user_stats_last_bookmark_updated(x: UserStats)
    ensures
        UserStats::wire_of(x).field("lastBookmarkUpdated"@) == Some(<String as Wire>::wire_of(x.last_bookmark_updated)),
{
    reveal_strlit("lastBookmarkUpdated");
    assert("lastBookmarkUpdated"@.len() == 19);
    reveal_strlit("count");
    assert("count"@.len() == 5);
    reveal_strlit("lastBookmarkCreated");
    assert("lastBookmarkCreated"@[12] != "lastBookmarkUpdated"@[12]);
    reveal_strlit("today");
    assert("today"@.len() == 5);
    reveal_strlit("tags");
    assert("tags"@.len() == 4);
    reveal_strlit("collections");
    assert("collections"@.len() == 11);
    let acc0 = Seq::<(Seq<char>, JsonModel)>::empty();
    lemma_lookup_empty("lastBookmarkUpdated"@);
    let acc1 = acc0 + entry::<i32>("count"@, x.count);
    let acc2 = acc1 + entry::<String>("lastBookmarkCreated"@, x.last_bookmark_created);
    let acc3 = acc2 + entry::<String>("lastBookmarkUpdated"@, x.last_bookmark_updated);
    let acc4 = acc3 + entry::<i32>("today"@, x.today);
    let acc5 = acc4 + entry::<i32>("tags"@, x.tags);
    let acc6 = acc5 + entry::<i32>("collections"@, x.collections);
    lemma_lookup_then_entry::<i32>(acc0, "count"@, x.count, "lastBookmarkUpdated"@);
    lemma_lookup_then_entry::<String>(acc1, "lastBookmarkCreated"@, x.last_bookmark_created, "lastBookmarkUpdated"@);
    lemma_lookup_then_entry::<String>(acc2, "lastBookmarkUpdated"@, x.last_bookmark_updated, "lastBookmarkUpdated"@);
    lemma_lookup_then_entry::<i32>(acc3, "today"@, x.today, "lastBookmarkUpdated"@);
    lemma_lookup_then_entry::<i32>(acc4, "tags"@, x.tags, "lastBookmarkUpdated"@);
    lemma_lookup_then_entry::<i32>(acc5, "collections"@, x.collections, "lastBookmarkUpdated"@);
}

/// The `today` member of an encoded `UserStats`.
pub(crate) proof fn lemma_user_stats_today(x: UserStats)
    ensures
        UserStats::wire_of(x).field("today"@) == Some(<i32 as Wire>::wire_of(x.today)),
{
    reveal_strlit("today");
    assert("today"@.len() == 5);
    reveal_strlit("count");
    assert("count"@[0] != "today"@[0]);
    reveal_strlit("lastBookmarkCreated");
    assert("lastBookmarkCreated"@.len() == 19);
    reveal_strlit("lastBookmarkUpdated");
    assert("lastBookmarkUpdated"@.len() == 19);
    reveal_strlit("tags");
    assert("tags"@.len() == 4);
    reveal_strlit("collections");
    assert("collections"@.len() == 11);
    let acc0 = Seq::<(Seq<char>, JsonModel)>::empty();
    lemma_lookup_empty("today"@);
    let acc1 = acc0 + entry::<i32>("count"@, x.count);
    let acc2 = acc1 + entry::<String>("lastBookmarkCreated"@, x.last_bookmark_created);
    let acc3 = acc2 + entry::<String>("lastBookmarkUpdated"@, x.last_bookmark_updated);
    let acc4 = acc3 + entry::<i32>("today"@, x.today);
    let acc5 = acc4 + entry::<i32>("tags"@, x.tags);
    let acc6 = acc5 + entry::<i32>("collections"@, x.collections);
    lemma_lookup_then_entry::<i32>(acc0, "count"@, x.count, "today"@);
    lemma_lookup_then_entry::<String>(acc1, "lastBookmarkCreated"@, x.last_bookmark_created, "today"@);
    lemma_lookup_then_entry::<String>(acc2, "lastBookmarkUpdated"@, x.last_bookmark_updated, "today"@);
    lemma_lookup_then_entry::<i32>(acc3, "today"@, x.today, "today"@);
    lemma_lookup_then_entry::<i32>(acc4, "tags"@, x.tags, "today"@);
    lemma_lookup_then_entry::<i32>(acc5, "collections"@, x.collections, "today"@);
}

/// The `tags` member of an encoded `UserStats`.
pub(crate) proof fn lemma_user_stats_tags(x: UserStats)
    ensures
        UserStats::wire_of(x).field("tags"@) == Some(<i32 as Wire>::wire_of(x.tags)),
{
    reveal_strlit("tags");
    assert("tags"@.len() == 4);
    reveal_strlit("count");
    assert("count"@.len() == 5);
    reveal_strlit("lastBookmarkCreated");
    assert("lastBookmarkCreated"@.len() == 19);
    reveal_strlit("lastBookmarkUpdated");
    assert("lastBookmarkUpdated"@.len() == 19);
    reveal_strlit("today");
    assert("today"@.len() == 5);
    reveal_strlit("collections");
    assert("collections"@.len() == 11);
    let acc0 = Seq::<(Seq<char>, JsonModel)>::empty();
    lemma_lookup_empty("tags"@);
    let acc1 = acc0 + entry::<i32>("count"@, x.count);
    let acc2 = acc1 + entry::<String>("lastBookmarkCreated"@, x.last_bookmark_created);
    let acc3 = acc2 + entry::<String>("lastBookmarkUpdated"@, x.last_bookmark_updated);
    let acc4 = acc3 + entry::<i32>("today"@, x.today);
    let acc5 = acc4 + entry::<i32>("tags"@, x.tags);
    let acc6 = acc5 + entry::<i32>("collections"@, x.collections);
    lemma_lookup_then_entry::<i32>(acc0, "count"@, x.count, "tags"@);
    lemma_lookup_then_entry::<String>(acc1, "lastBookmarkCreated"@, x.last_bookmark_created, "tags"@);
    lemma_lookup_then_entry::<String>(acc2, "lastBookmarkUpdated"@, x.last_bookmark_updated, "tags"@);
    lemma_lookup_then_entry::<i32>(acc3, "today"@, x.today, "tags"@);
    lemma_lookup_then_entry::<i32>(acc4, "tags"@, x.tags, "tags"@);
    lemma_lookup_then_entry::<i32>(acc5, "collections"@, x.collections, "tags"@);
}

/// The `collections` member of an encoded `UserStats`.
pub(crate) proof fn lemma_user_stats_collections(x: UserStats)
    ensures
        UserStats::wire_of(x).field("collections"@) == Some(<i32 as Wire>::wire_of(x.collections)),
{
    reveal_strlit("collections");
    assert("collections"@.len() == 11);
    reveal_strlit("count");
    assert("count"@.len() == 5);
    reveal_strlit("lastBookmarkCreated");
    assert("lastBookmarkCreated"@.len() == 19);
    reveal_strlit("lastBookmarkUpdated");
    assert("lastBookmarkUpdated"@.len() == 19);
    reveal_strlit("today");
    assert("today"@.len() == 5);
    reveal_strlit("tags");
    assert("tags"@.len() == 4);
    let acc0 = Seq::<(Seq<char>, JsonModel)>::empty();
    lemma_lookup_empty("collections"@);
    let acc1 = acc0 + entry::<i32>("count"@, x.count);
    let acc2 = acc1 + entry::<String>("lastBookmarkCreated"@, x.last_bookmark_created);
    let acc3 = acc2 + entry::<String>("lastBookmarkUpdated"@, x.last_bookmark_updated);
    let acc4 = acc3 + entry::<i32>("today"@, x.today);
    let acc5 = acc4 + entry::<i32>("tags"@, x.tags);
    let acc6 = acc5 + entry::<i32>("collections"@, x.collections);
    lemma_lookup_then_entry::<i32>(acc0, "count"@, x.count, "collections"@);
    lemma_lookup_then_entry::<String>(acc1, "lastBookmarkCreated"@, x.last_bookmark_created, "collections"@);
    lemma_lookup_then_entry::<String>(acc2, "lastBookmarkUpdated"@, x.last_bookmark_updated, "collections"@);
    lemma_lookup_then_entry::<i32>(acc3, "today"@, x.today, "collections"@);
    lemma_lookup_then_entry::<i32>(acc4, "tags"@, x.tags, "collections"@);
    lemma_lookup_then_entry::<i32>(acc5, "collections"@, x.collections, "collections"@);
}

/// Counts over a collection.
#[derive(Debug, Clone)]
pub struct CollectionStats {
    pub count: i32,
    pub last_bookmark_created: String,
    pub last_bookmark_updated: String,
    pub oldest: BookmarkStat,
    pub newest: BookmarkStat,
}

impl Wire for CollectionStats {
    open spec fn wire_ok(j: JsonModel) -> bool {
        &&& j is Object
        &&& req_ok::<i32>(j.field("count"@))
        &&& req_ok::<String>(j.field("lastBookmarkCreated"@))
        &&& req_ok::<String>(j.field("lastBookmarkUpdated"@))
        &&& req_ok::<BookmarkStat>(j.field("oldest"@))
        &&& req_ok::<BookmarkStat>(j.field("newest"@))
    }

    open spec fn wire_is(j: JsonModel, x: CollectionStats) -> bool {
        &&& j is Object
        &&& req_is::<i32>(j.field("count"@), x.count)
        &&& req_is::<String>(j.field("lastBookmarkCreated"@), x.last_bookmark_created)
        &&& req_is::<String>(j.field("lastBookmarkUpdated"@), x.last_bookmark_updated)
        &&& req_is::<BookmarkStat>(j.field("oldest"@), x.oldest)
        &&& req_is::<BookmarkStat>(j.field("newest"@), x.newest)
    }

    open spec fn wire_of(x: CollectionStats) -> JsonModel {
        JsonModel::Object(
            Seq::empty()
                + entry::<i32>("count"@, x.count)
                + entry::<String>("lastBookmarkCreated"@, x.last_bookmark_created)
                + entry::<String>("lastBookmarkUpdated"@, x.last_bookmark_updated)
                + entry::<BookmarkStat>("oldest"@, x.oldest)
                + entry::<BookmarkStat>("newest"@, x.newest)
        )
    }

    fn decode(j: &Json) -> (r: Result<CollectionStats, String>) {
        match expect_object(j) {
            Ok(()) => {},
            Err(e) => return Err(e),
        }
        let count = match decode_field::<i32>(j, "count") {
            Ok(v) => v,
            Err(e) => return Err(e),
        };
        let last_bookmark_created = match decode_field::<String>(j, "lastBookmarkCreated") {
            Ok(v) => v,
            Err(e) => return Err(e),
        };
        let last_bookmark_updated = match decode_field::<String>(j, "lastBookmarkUpdated") {
            Ok(v) => v,
            Err(e) => return Err(e),
        };
        let oldest = match decode_field::<BookmarkStat>(j, "oldest") {
            Ok(v) => v,
            Err(e) => return Err(e),
        };
        let newest = match decode_field::<BookmarkStat>(j, "newest") {
            Ok(v) => v,
            Err(e) => return Err(e),
        };
        Ok(CollectionStats { count, last_bookmark_created, last_bookmark_updated, oldest, newest })
    }

    fn encode(&self) -> (r: Json) {
        let mut fields = no_fields();
        push_field::<i32>(&mut fields, "count", &self.count);
        push_field::<String>(&mut fields, "lastBookmarkCreated", &self.last_bookmark_created);
        push_field::<String>(&mut fields, "lastBookmarkUpdated", &self.last_bookmark_updated);
        push_field::<BookmarkStat>(&mut fields, "oldest", &self.oldest);
        push_field::<BookmarkStat>(&mut fields, "newest", &self.newest);
        object(fields)
    }

    proof fn lemma_round_trip(x: Self) {
        lemma_collection_stats_count(x);
        <i32 as Wire>::lemma_round_trip(x.count);
        lemma_collection_stats_last_bookmark_created(x);
        <String as Wire>::lemma_round_trip(x.last_bookmark_created);
        lemma_collection_stats_last_bookmark_updated(x);
        <String as Wire>::lemma_round_trip(x.last_bookmark_updated);
        lemma_collection_stats_oldest(x);
        <BookmarkStat as Wire>::lemma_round_trip(x.oldest);
        lemma_collection_stats_newest(x);
        <BookmarkStat as Wire>::lemma_round_trip(x.newest);
        let j = Self::wire_of(x);
        assert(req_ok::<i32>(j.field("count"@)));
        assert(req_ok::<String>(j.field("lastBookmarkCreated"@)));
        assert(req_ok::<String>(j.field("lastBookmarkUpdated"@)));
        assert(req_ok::<BookmarkStat>(j.field("oldest"@)));
        assert(req_ok::<BookmarkStat>(j.field("newest"@)));
        assert(req_is::<i32>(j.field("count"@), x.count));
        assert(req_is::<String>(j.field("lastBookmarkCreated"@), x.last_bookmark_created));
        assert(req_is::<String>(j.field("lastBookmarkUpdated"@), x.last_bookmark_updated));
        assert(req_is::<BookmarkStat>(j.field("oldest"@), x.oldest));
        assert(req_is::<BookmarkStat>(j.field("newest"@), x.newest));
        assert forall|y: Self| #[trigger] Self::wire_is(j, y) implies Self::wire_of(y) == j by {
            assert(entry::<i32>("count"@, y.count) == entry::<i32>("count"@, x.count));
            assert(entry::<String>("lastBookmarkCreated"@, y.last_bookmark_created) == entry::<String>("lastBookmarkCreated"@, x.last_bookmark_created));
            assert(entry::<String>("lastBookmarkUpdated"@, y.last_bookmark_updated) == entry::<String>("lastBookmarkUpdated"@, x.last_bookmark_updated));
            assert(entry::<BookmarkStat>("oldest"@, y.oldest) == entry::<BookmarkStat>("oldest"@, x.oldest));
            assert(entry::<BookmarkStat>("newest"@, y.newest) == entry::<BookmarkStat>("newest"@, x.newest));
        }
    }
}

/// The `count` member of an encoded `CollectionStats`.
pub(crate) proof fn lemma_collection_stats_count(x: CollectionStats)
    ensures
        CollectionStats::wire_of(x).field("count"@) == Some(<i32 as Wire>::wire_of(x.count)),
{
    reveal_strlit("count");
    assert("count"@.len() == 5);
    reveal_strlit("lastBookmarkCreated");
    assert("lastBookmarkCreated"@.len() == 19);
    reveal_strlit("lastBookmarkUpdated");
    assert("lastBookmarkUpdated"@.len() == 19);
    reveal_strlit("oldest");
    assert("oldest"@.len() == 6);
    reveal_strlit("newest");
    assert("newest"@.len() == 6);
    let acc0 = Seq::<(Seq<char>, JsonModel)>::empty();
    lemma_lookup_empty("count"@);
    let acc1 = acc0 + entry::<i32>("count"@, x.count);
    let acc2 = acc1 + entry::<String>("lastBookmarkCreated"@, x.last_bookmark_created);
    let acc3 = acc2 + entry::<String>("lastBookmarkUpdated"@, x.last_bookmark_updated);
    let acc4 = acc3 + entry::<BookmarkStat>("oldest"@, x.oldest);
    let acc5 = acc4 + entry::<BookmarkStat>("newest"@, x.newest);
    lemma_lookup_then_entry::<i32>(acc0, "count"@, x.count, "count"@);
    lemma_lookup_then_entry::<String>(acc1, "lastBookmarkCreated"@, x.last_bookmark_created, "count"@);
    lemma_lookup_then_entry::<String>(acc2, "lastBookmarkUpdated"@, x.last_bookmark_updated, "count"@);
    lemma_lookup_then_entry::<BookmarkStat>(acc3, "oldest"@, x.oldest, "count"@);
    lemma_lookup_then_entry::<BookmarkStat>(acc4, "newest"@, x.newest, "count"@);
}

/// The `lastBookmarkCreated` member of an encoded `CollectionStats`.
pub(crate) proof fn lemma_collection_stats_last_bookmark_created(x: CollectionStats)
    ensures
        CollectionStats::wire_of(x).field("lastBookmarkCreated"@) == Some(<String as Wire>::wire_of(x.last_bookmark_created)),
{
    reveal_strlit("lastBookmarkCreated");
    assert("lastBookmarkCreated"@.len() == 19);
    reveal_strlit("count");
    assert("count"@.len() == 5);
    reveal_strlit("lastBookmarkUpdated");
    assert("lastBookmarkUpdated"@[12] != "lastBookmarkCreated"@[12]);
    reveal_strlit("oldest");
    assert("oldest"@.len() == 6);
    reveal_strlit("newest");
    assert("newest"@.len() == 6);
    let acc0 = Seq::<(Seq<char>, JsonModel)>::empty();
    lemma_lookup_empty("lastBookmarkCreated"@);
    let acc1 = acc0 + entry::<i32>("count"@, x.count);
    let acc2 = acc1 + entry::<String>("lastBookmarkCreated"@, x.last_bookmark_created);
    let acc3 = acc2 + entry::<String>("lastBookmarkUpdated"@, x.last_bookmark_updated);
    let acc4 = acc3 + entry::<BookmarkStat>("oldest"@, x.oldest);
    let acc5 = acc4 + entry::<BookmarkStat>("newest"@, x.newest);
    lemma_lookup_then_entry::<i32>(acc0, "count"@, x.count, "lastBookmarkCreated"@);
    lemma_lookup_then_entry::<String>(acc1, "lastBookmarkCreated"@, x.last_bookmark_created, "lastBookmarkCreated"@);
    lemma_lookup_then_entry::<String>(acc2, "lastBookmarkUpdated"@, x.last_bookmark_updated, "lastBookmarkCreated"@);
    lemma_lookup_then_entry::<BookmarkStat>(acc3, "oldest"@, x.oldest, "lastBookmarkCreated"@);
    lemma_lookup_then_entry::<BookmarkStat>(acc4, "newest"@, x.newest, "lastBookmarkCreated"@);
}

/// The `lastBookmarkUpdated` member of an encoded `CollectionStats`.
pub(crate) proof fn lemma_collection_stats_last_bookmark_updated(x: CollectionStats)
    ensures
        CollectionStats::wire_of(x).field("lastBookmarkUpdated"@) == Some(<String as Wire>::wire_of(x.last_bookmark_updated)),
{
    reveal_strlit("lastBookmarkUpdated");
    assert("lastBookmarkUpdated"@.len() == 19);
    reveal_strlit("count");
    assert("count"@.len() == 5);
    reveal_strlit("lastBookmarkCreated");
    assert("lastBookmarkCreated"@[12] != "lastBookmarkUpdated"@[12]);
    reveal_strlit("oldest");
    assert("oldest"@.len() == 6);
    reveal_strlit("newest");
    assert("newest"@.len() == 6);
    let acc0 = Seq::<(Seq<char>, JsonModel)>::empty();
    lemma_lookup_empty("lastBookmarkUpdated"@);
    let acc1 = acc0 + entry::<i32>("count"@, x.count);
    let acc2 = acc1 + entry::<String>("lastBookmarkCreated"@, x.last_bookmark_created);
    let acc3 = acc2 + entry::<String>("lastBookmarkUpdated"@, x.last_bookmark_updated);
    let acc4 = acc3 + entry::<BookmarkStat>("oldest"@, x.oldest);
    let acc5 = acc4 + entry::<BookmarkStat>("newest"@, x.newest);
    lemma_lookup_then_entry::<i32>(acc0, "count"@, x.count, "lastBookmarkUpdated"@);
    lemma_lookup_then_entry::<String>(acc1, "lastBookmarkCreated"@, x.last_bookmark_created, "lastBookmarkUpdated"@);
    lemma_lookup_then_entry::<String>(acc2, "lastBookmarkUpdated"@, x.last_bookmark_updated, "lastBookmarkUpdated"@);
    lemma_lookup_then_entry::<BookmarkStat>(acc3, "oldest"@, x.oldest, "lastBookmarkUpdated"@);
    lemma_lookup_then_entry::<BookmarkStat>(acc4, "newest"@, x.newest, "lastBookmarkUpdated"@);
}

/// The `oldest` member of an encoded `CollectionStats`.
pub(crate) proof fn lemma_collection_stats_oldest(x: CollectionStats)
    ensures
        CollectionStats::wire_of(x).field("oldest"@) == Some(<BookmarkStat as Wire>::wire_of(x.oldest)),
{
    reveal_strlit("oldest");
    assert("oldest"@.len() == 6);
    reveal_strlit("count");
    assert("count"@.len() == 5);
    reveal_strlit("lastBookmarkCreated");
    assert("lastBookmarkCreated"@.len() == 19);
    reveal_strlit("lastBookmarkUpdated");
    assert("lastBookmarkUpdated"@.len() == 19);
    reveal_strlit("newest");
    assert("newest"@[0] != "oldest"@[0]);
    let acc0 = Seq::<(Seq<char>, JsonModel)>::empty();
    lemma_lookup_empty("oldest"@);
    let acc1 = acc0 + entry::<i32>("count"@, x.count);
    let acc2 = acc1 + entry::<String>("lastBookmarkCreated"@, x.last_bookmark_created);
    let acc3 = acc2 + entry::<String>("lastBookmarkUpdated"@, x.last_bookmark_updated);
    let acc4 = acc3 + entry::<BookmarkStat>("oldest"@, x.oldest);
    let acc5 = acc4 + entry::<BookmarkStat>("newest"@, x.newest);
    lemma_lookup_then_entry::<i32>(acc0, "count"@, x.count, "oldest"@);
    lemma_lookup_then_entry::<String>(acc1, "lastBookmarkCreated"@, x.last_bookmark_created, "oldest"@);
    lemma_lookup_then_entry::<String>(acc2, "lastBookmarkUpdated"@, x.last_bookmark_updated, "oldest"@);
    lemma_lookup_then_entry::<BookmarkStat>(acc3, "oldest"@, x.oldest, "oldest"@);
    lemma_lookup_then_entry::<BookmarkStat>(acc4, "newest"@, x.newest, "oldest"@);
}

/// The `newest` member of an encoded `CollectionStats`.
pub(crate) proof fn lemma_collection_stats_newest(x: CollectionStats)
    ensures
        CollectionStats::wire_of(x).field("newest"@) == Some(<BookmarkStat as Wire>::wire_of(x.newest)),
{
    reveal_strlit("newest");
    assert("newest"@.len() == 6);
    reveal_strlit("count");
    assert("count"@.len() == 5);
    reveal_strlit("lastBookmarkCreated");
    assert("lastBookmarkCreated"@.len() == 19);
    reveal_strlit("lastBookmarkUpdated");
    assert("lastBookmarkUpdated"@.len() == 19);
    reveal_strlit("oldest");
    assert("oldest"@[0] != "newest"@[0]);
    let acc0 = Seq::<(Seq<char>, JsonModel)>::empty();
    lemma_lookup_empty("newest"@);
    let acc1 = acc0 + entry::<i32>("count"@, x.count);
    let acc2 = acc1 + entry::<String>("lastBookmarkCreated"@, x.last_bookmark_created);
    let acc3 = acc2 + entry::<String>("lastBookmarkUpdated"@, x.last_bookmark_updated);
    let acc4 = acc3 + entry::<BookmarkStat>("oldest"@, x.oldest);
    let acc5 = acc4 + entry::<BookmarkStat>("newest"@, x.newest);
    lemma_lookup_then_entry::<i32>(acc0, "count"@, x.count, "newest"@);
    lemma_lookup_then_entry::<String>(acc1, "lastBookmarkCreated"@, x.last_bookmark_created, "newest"@);
    lemma_lookup_then_entry::<String>(acc2, "lastBookmarkUpdated"@, x.last_bookmark_updated, "newest"@);
    lemma_lookup_then_entry::<BookmarkStat>(acc3, "oldest"@, x.oldest, "newest"@);
    lemma_lookup_then_entry::<BookmarkStat>(acc4, "newest"@, x.newest, "newest"@);
}

/// A bookmark named in statistics.
#[derive(Debug, Clone)]
pub struct BookmarkStat {
    pub id: i64,
    pub created: String,
    pub title: String,
    pub link: String,
}

impl Wire for BookmarkStat {
    open spec fn wire_ok(j: JsonModel) -> bool {
        &&& j is Object
        &&& req_ok::<i64>(j.field("id"@))
        &&& req_ok::<String>(j.field("created"@))
        &&& req_ok::<String>(j.field("title"@))
        &&& req_ok::<String>(j.field("link"@))
    }

    open spec fn wire_is(j: JsonModel, x: BookmarkStat) -> bool {
        &&& j is Object
        &&& req_is::<i64>(j.field("id"@), x.id)
        &&& req_is::<String>(j.field("created"@), x.created)
        &&& req_is::<String>(j.field("title"@), x.title)
        &&& req_is::<String>(j.field("link"@), x.link)
    }

    open spec fn wire_of(x: BookmarkStat) -> JsonModel {
        JsonModel::Object(
            Seq::empty()
                + entry::<i64>("id"@, x.id)
                + entry::<String>("created"@, x.created)
                + entry::<String>("title"@, x.title)
                + entry::<String>("link"@, x.link)
        )
    }

    fn decode(j: &Json) -> (r: Result<BookmarkStat, String>) {
        match expect_object(j) {
            Ok(()) => {},
            Err(e) => return Err(e),
        }
        let id = match decode_field::<i64>(j, "id") {
            Ok(v) => v,
            Err(e) => return Err(e),
        };
        let created = match decode_field::<String>(j, "created") {
            Ok(v) => v,
            Err(e) => return Err(e),
        };
        let title = match decode_field::<String>(j, "title") {
            Ok(v) => v,
            Err(e) => return Err(e),
        };
        let link = match decode_field::<String>(j, "link") {
            Ok(v) => v,
            Err(e) => return Err(e),
        };
        Ok(BookmarkStat { id, created, title, link })
    }

    fn encode(&self) -> (r: Json) {
        let mut fields = no_fields();
        push_field::<i64>(&mut fields, "id", &self.id);
        push_field::<String>(&mut fields, "created", &self.created);
        push_field::<String>(&mut fields, "title", &self.title);
        push_field::<String>(&mut fields, "link", &self.link);
        object(fields)
    }

    proof fn lemma_round_trip(x: Self) {
        lemma_bookmark_stat_id(x);
        <i64 as Wire>::lemma_round_trip(x.id);
        lemma_bookmark_stat_created(x);
        <String as Wire>::lemma_round_trip(x.created);
        lemma_bookmark_stat_title(x);
        <String as Wire>::lemma_round_trip(x.title);
        lemma_bookmark_stat_link(x);
        <String as Wire>::lemma_round_trip(x.link);
        let j = Self::wire_of(x);
        assert(req_ok::<i64>(j.field("id"@)));
        assert(req_ok::<String>(j.field("created"@)));
        assert(req_ok::<String>(j.field("title"@)));
        assert(req_ok::<String>(j.field("link"@)));
        assert(req_is::<i64>(j.field("id"@), x.id));
        assert(req_is::<String>(j.field("created"@), x.created));
        assert(req_is::<String>(j.field("title"@), x.title));
        assert(req_is::<String>(j.field("link"@), x.link));
        assert forall|y: Self| #[trigger] Self::wire_is(j, y) implies Self::wire_of(y) == j by {
            assert(entry::<i64>("id"@, y.id) == entry::<i64>("id"@, x.id));
            assert(entry::<String>("created"@, y.created) == entry::<String>("created"@, x.created));
            assert(entry::<String>("title"@, y.title) == entry::<String>("title"@, x.title));
            assert(entry::<String>("link"@, y.link) == entry::<String>("link"@, x.link));
        }
    }
}

/// The `id` member of an encoded `BookmarkStat`.
pub(crate) proof fn lemma_bookmark_stat_id(x: BookmarkStat)
    ensures
        BookmarkStat::wire_of(x).field("id"@) == Some(<i64 as Wire>::wire_of(x.id)),
{
    reveal_strlit("id");
    assert("id"@.len() == 2);
    reveal_strlit("created");
    assert("created"@.len() == 7);
    reveal_strlit("title");
    assert("title"@.len() == 5);
    reveal_strlit("link");
    assert("link"@.len() == 4);
    let acc0 = Seq::<(Seq<char>, JsonModel)>::empty();
    lemma_lookup_empty("id"@);
    let acc1 = acc0 + entry::<i64>("id"@, x.id);
    let acc2 = acc1 + entry::<String>("created"@, x.created);
    let acc3 = acc2 + entry::<String>("title"@, x.title);
    let acc4 = acc3 + entry::<String>("link"@, x.link);
    lemma_lookup_then_entry::<i64>(acc0, "id"@, x.id, "id"@);
    lemma_lookup_then_entry::<String>(acc1, "created"@, x.created, "id"@);
    lemma_lookup_then_entry::<String>(acc2, "title"@, x.title, "id"@);
    lemma_lookup_then_entry::<String>(acc3, "link"@, x.link, "id"@);
}

/// The `created` member of an encoded `BookmarkStat`.
pub(crate) proof fn lemma_bookmark_stat_created(x: BookmarkStat)
    ensures
        BookmarkStat::wire_of(x).field("created"@) == Some(<String as Wire>::wire_of(x.created)),
{
    reveal_strlit("created");
    assert("created"@.len() == 7);
    reveal_strlit("id");
    assert("id"@.len() == 2);
    reveal_strlit("title");
    assert("title"@.len() == 5);
    reveal_strlit("link");
    assert("link"@.len() == 4);
    let acc0 = Seq::<(Seq<char>, JsonModel)>::empty();
    lemma_lookup_empty("created"@);
    let acc1 = acc0 + entry::<i64>("id"@, x.id);
    let acc2 = acc1 + entry::<String>("created"@, x.created);
    let acc3 = acc2 + entry::<String>("title"@, x.title);
    let acc4 = acc3 + entry::<String>("link"@, x.link);
    lemma_lookup_then_entry::<i64>(acc0, "id"@, x.id, "created"@);
    lemma_lookup_then_entry::<String>(acc1, "created"@, x.created, "created"@);
    lemma_lookup_then_entry::<String>(acc2, "title"@, x.title, "created"@);
    lemma_lookup_then_entry::<String>(acc3, "link"@, x.link, "created"@);
}

/// The `title` member of an encoded `BookmarkStat`.
pub(crate) proof fn lemma_bookmark_stat_title(x: BookmarkStat)
    ensures
        BookmarkStat::wire_of(x).field("title"@) == Some(<String as Wire>::wire_of(x.title)),
{
    reveal_strlit("title");
    assert("title"@.len() == 5);
    reveal_strlit("id");
    assert("id"@.len() == 2);
    reveal_strlit("created");
    assert("created"@.len() == 7);
    reveal_strlit("link");
    assert("link"@.len() == 4);
    let acc0 = Seq::<(Seq<char>, JsonModel)>::empty();
    lemma_lookup_empty("title"@);
    let acc1 = acc0 + entry::<i64>("id"@, x.id);
    let acc2 = acc1 + entry::<String>("created"@, x.created);
    let acc3 = acc2 + entry::<String>("title"@, x.title);
    let acc4 = acc3 + entry::<String>("link"@, x.link);
    lemma_lookup_then_entry::<i64>(acc0, "id"@, x.id, "title"@);
    lemma_lookup_then_entry::<String>(acc1, "created"@, x.created, "title"@);
    lemma_lookup_then_entry::<String>(acc2, "title"@, x.title, "title"@);
    lemma_lookup_then_entry::<String>(acc3, "link"@, x.link, "title"@);
}

/// The `link` member of an encoded `BookmarkStat`.
pub(crate) proof fn lemma_bookmark_stat_link(x: BookmarkStat)
    ensures
        BookmarkStat::wire_of(x).field("link"@) == Some(<String as Wire>::wire_of(x.link)),
{
    reveal_strlit("link");
    assert("link"@.len() == 4);
    reveal_strlit("id");
    assert("id"@.len() == 2);
    reveal_strlit("created");
    assert("created"@.len() == 7);
    reveal_strlit("title");
    assert("title"@.len() == 5);
    let acc0 = Seq::<(Seq<char>, JsonModel)>::empty();
    lemma_lookup_empty("link"@);
    let acc1 = acc0 + entry::<i64>("id"@, x.id);
    let acc2 = acc1 + entry::<String>("created"@, x.created);
    let acc3 = acc2 + entry::<String>("title"@, x.title);
    let acc4 = acc3 + entry::<String>("link"@, x.link);
    lemma_lookup_then_entry::<i64>(acc0, "id"@, x.id, "link"@);
    lemma_lookup_then_entry::<String>(acc1, "created"@, x.created, "link"@);
    lemma_lookup_then_entry::<String>(acc2, "title"@, x.title, "link"@);
    lemma_lookup_then_entry::<String>(acc3, "link"@, x.link, "link"@);
}

} // verus!
