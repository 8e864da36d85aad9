//! Search filters.
use crate::json::{Json, JsonModel};
use crate::wire::{lemma_lookup_then_opt_entry, lemma_opt_round_trip, lemma_lookup_empty, Wire, opt_ok, opt_is, opt_entry, decode_opt_field, push_opt, expect_object, object, no_fields, text_is};
use vstd::prelude::*;
use vstd::string::StringExecFns;

verus! {

/// Filters for listing bookmarks; every one is optional.
#[derive(Debug, Clone)]
pub struct SearchParams {
    pub search: Option<String>,
    pub collection: Option<i64>,
    pub tags: Option<Vec<String>>,
    pub page: Option<i32>,
    pub per_page: Option<i32>,
    pub sort: Option<String>,
    pub important: Option<bool>,
    pub media: Option<MediaFilter>,
    pub word: Option<String>,
    pub please_parse: Option<bool>,
    pub noparse: Option<bool>,
    pub since: Option<String>,
    pub created: Option<DateRange>,
}

impl Wire for SearchParams {
    open spec fn wire_ok(j: JsonModel) -> bool {
        &&& j is Object
        &&& opt_ok::<String>(j.field("search"@))
        &&& opt_ok::<i64>(j.field("collection"@))
        &&& opt_ok::<Vec<String>>(j.field("tags"@))
        &&& opt_ok::<i32>(j.field("page"@))
        &&& opt_ok::<i32>(j.field("perpage"@))
        &&& opt_ok::<String>(j.field("sort"@))
        &&& opt_ok::<bool>(j.field("important"@))
        &&& opt_ok::<MediaFilter>(j.field("media"@))
        &&& opt_ok::<String>(j.field("word"@))
        &&& opt_ok::<bool>(j.field("pleaseParse"@))
        &&& opt_ok::<bool>(j.field("noparse"@))
        &&& opt_ok::<String>(j.field("since"@))
        &&& opt_ok::<DateRange>(j.field("created"@))
    }

    open spec fn wire_is(j: JsonModel, x: SearchParams) -> bool {
        &&& j is Object
        &&& opt_is::<String>(j.field("search"@), x.search)
        &&& opt_is::<i64>(j.field("collection"@), x.collection)
        &&& opt_is::<Vec<String>>(j.field("tags"@), x.tags)
        &&& opt_is::<i32>(j.field("page"@), x.page)
        &&& opt_is::<i32>(j.field("perpage"@), x.per_page)
        &&& opt_is::<String>(j.field("sort"@), x.sort)
        &&& opt_is::<bool>(j.field("important"@), x.important)
        &&& opt_is::<MediaFilter>(j.field("media"@), x.media)
        &&& opt_is::<String>(j.field("word"@), x.word)
        &&& opt_is::<bool>(j.field("pleaseParse"@), x.please_parse)
        &&& opt_is::<bool>(j.field("noparse"@), x.noparse)
        &&& opt_is::<String>(j.field("since"@), x.since)
        &&& opt_is::<DateRange>(j.field("created"@), x.created)
    }

    open spec fn wire_of(x: SearchParams) -> JsonModel {
        JsonModel::Object(
            Seq::empty()
                + opt_entry::<String>("search"@, x.search)
                + opt_entry::<i64>("collection"@, x.collection)
                + opt_entry::<Vec<String>>("tags"@, x.tags)
                + opt_entry::<i32>("page"@, x.page)
                + opt_entry::<i32>("perpage"@, x.per_page)
                + opt_entry::<String>("sort"@, x.sort)
                + opt_entry::<bool>("important"@, x.important)
                + opt_entry::<MediaFilter>("media"@, x.media)
                + opt_entry::<String>("word"@, x.word)
                + opt_entry::<bool>("pleaseParse"@, x.please_parse)
                + opt_entry::<bool>("noparse"@, x.noparse)
                + opt_entry::<String>("since"@, x.since)
                + opt_entry::<DateRange>("created"@, x.created)
        )
    }

    fn decode(j: &Json) -> (r: Result<SearchParams, String>) {
        match expect_object(j) {
            Ok(()) => {},
            Err(e) => return Err(e),
        }
        let search = match decode_opt_field::<String>(j, "search") {
            Ok(v) => v,
            Err(e) => return Err(e),
        };
        let collection = match decode_opt_field::<i64>(j, "collection") {
            Ok(v) => v,
            Err(e) => return Err(e),
        };
        let tags = match decode_opt_field::<Vec<String>>(j, "tags") {
            Ok(v) => v,
            Err(e) => return Err(e),
        };
        let page = match decode_opt_field::<i32>(j, "page") {
            Ok(v) => v,
            Err(e) => return Err(e),
        };
        let per_page = match decode_opt_field::<i32>(j, "perpage") {
            Ok(v) => v,
            Err(e) => return Err(e),
        };
        let sort = match decode_opt_field::<String>(j, "sort") {
            Ok(v) => v,
            Err(e) => return Err(e),
        };
        let important = match decode_opt_field::<bool>(j, "important") {
            Ok(v) => v,
            Err(e) => return Err(e),
        };
        let media = match decode_opt_field::<MediaFilter>(j, "media") {
            Ok(v) => v,
            Err(e) => return Err(e),
        };
        let word = match decode_opt_field::<String>(j, "word") {
            Ok(v) => v,
            Err(e) => return Err(e),
        };
        let please_parse = match decode_opt_field::<bool>(j, "pleaseParse") {
            Ok(v) => v,
            Err(e) => return Err(e),
        };
        let noparse = match decode_opt_field::<bool>(j, "noparse") {
            Ok(v) => v,
            Err(e) => return Err(e),
        };
        let since = match decode_opt_field::<String>(j, "since") {
            Ok(v) => v,
            Err(e) => return Err(e),
        };
        let created = match decode_opt_field::<DateRange>(j, "created") {
            Ok(v) => v,
            Err(e) => return Err(e),
        };
        Ok(SearchParams { search, collection, tags, page, per_page, sort, important, media, word, please_parse, noparse, since, created })
    }

    fn encode(&self) -> (r: Json) {
        let mut fields = no_fields();
        push_opt::<String>(&mut fields, "search", &self.search);
        push_opt::<i64>(&mut fields, "collection", &self.collection);
        push_opt::<Vec<String>>(&mut fields, "tags", &self.tags);
        push_opt::<i32>(&mut fields, "page", &self.page);
        push_opt::<i32>(&mut fields, "perpage", &self.per_page);
        push_opt::<String>(&mut fields, "sort", &self.sort);
        push_opt::<bool>(&mut fields, "important", &self.important);
        push_opt::<MediaFilter>(&mut fields, "media", &self.media);
        push_opt::<String>(&mut fields, "word", &self.word);
        push_opt::<bool>(&mut fields, "pleaseParse", &self.please_parse);
        push_opt::<bool>(&mut fields, "noparse", &self.noparse);
        push_opt::<String>(&mut fields, "since", &self.since);
        push_opt::<DateRange>(&mut fields, "created", &self.created);
        object(fields)
    }

    proof fn lemma_round_trip(x: Self) {
        lemma_search_params_search(x);
        lemma_opt_round_trip::<String>(x.search);
        lemma_search_params_collection(x);
        lemma_opt_round_trip::<i64>(x.collection);
        lemma_search_params_tags(x);
        lemma_opt_round_trip::<Vec<String>>(x.tags);
        lemma_search_params_page(x);
        lemma_opt_round_trip::<i32>(x.page);
        lemma_search_params_per_page(x);
        lemma_opt_round_trip::<i32>(x.per_page);
        lemma_search_params_sort(x);
        lemma_opt_round_trip::<String>(x.sort);
        lemma_search_params_important(x);
        lemma_opt_round_trip::<bool>(x.important);
        lemma_search_params_media(x);
        lemma_opt_round_trip::<MediaFilter>(x.media);
        lemma_search_params_word(x);
        lemma_opt_round_trip::<String>(x.word);
        lemma_search_params_please_parse(x);
        lemma_opt_round_trip::<bool>(x.please_parse);
        lemma_search_params_noparse(x);
        lemma_opt_round_trip::<bool>(x.noparse);
        lemma_search_params_since(x);
        lemma_opt_round_trip::<String>(x.since);
        lemma_search_params_created(x);
        lemma_opt_round_trip::<DateRange>(x.created);
        let j = Self::wire_of(x);
        assert(opt_ok::<String>(j.field("search"@)));
        assert(opt_ok::<i64>(j.field("collection"@)));
        assert(opt_ok::<Vec<String>>(j.field("tags"@)));
        assert(opt_ok::<i32>(j.field("page"@)));
        assert(opt_ok::<i32>(j.field("perpage"@)));
        assert(opt_ok::<String>(j.field("sort"@)));
        assert(opt_ok::<bool>(j.field("important"@)));
        assert(opt_ok::<MediaFilter>(j.field("media"@)));
        assert(opt_ok::<String>(j.field("word"@)));
        assert(opt_ok::<bool>(j.field("pleaseParse"@)));
        assert(opt_ok::<bool>(j.field("noparse"@)));
        assert(opt_ok::<String>(j.field("since"@)));
        assert(opt_ok::<DateRange>(j.field("created"@)));
        assert(opt_is::<String>(j.field("search"@), x.search));
        assert(opt_is::<i64>(j.field("collection"@), x.collection));
        assert(opt_is::<Vec<String>>(j.field("tags"@), x.tags));
        assert(opt_is::<i32>(j.field("page"@), x.page));
        assert(opt_is::<i32>(j.field("perpage"@), x.per_page));
        assert(opt_is::<String>(j.field("sort"@), x.sort));
        assert(opt_is::<bool>(j.field("important"@), x.important));
        assert(opt_is::<MediaFilter>(j.field("media"@), x.media));
        assert(opt_is::<String>(j.field("word"@), x.word));
        assert(opt_is::<bool>(j.field("pleaseParse"@), x.please_parse));
        assert(opt_is::<bool>(j.field("noparse"@), x.noparse));
        assert(opt_is::<String>(j.field("since"@), x.since));
        assert(opt_is::<DateRange>(j.field("created"@), x.created));
        assert forall|y: Self| #[trigger] Self::wire_is(j, y) implies Self::wire_of(y) == j by {
            assert(opt_entry::<String>("search"@, y.search) == opt_entry::<String>("search"@, x.search));
            assert(opt_entry::<i64>("collection"@, y.collection) == opt_entry::<i64>("collection"@, x.collection));
            assert(opt_entry::<Vec<String>>("tags"@, y.tags) == opt_entry::<Vec<String>>("tags"@, x.tags));
            assert(opt_entry::<i32>("page"@, y.page) == opt_entry::<i32>("page"@, x.page));
            assert(opt_entry::<i32>("perpage"@, y.per_page) == opt_entry::<i32>("perpage"@, x.per_page));
            assert(opt_entry::<String>("sort"@, y.sort) == opt_entry::<String>("sort"@, x.sort));
            assert(opt_entry::<bool>("important"@, y.important) == opt_entry::<bool>("important"@, x.important));
            assert(opt_entry::<MediaFilter>("media"@, y.media) == opt_entry::<MediaFilter>("media"@, x.media));
            assert(opt_entry::<String>("word"@, y.word) == opt_entry::<String>("word"@, x.word));
            assert(opt_entry::<bool>("pleaseParse"@, y.please_parse) == opt_entry::<bool>("pleaseParse"@, x.please_parse));
            assert(opt_entry::<bool>("noparse"@, y.noparse) == opt_entry::<bool>("noparse"@, x.noparse));
            assert(opt_entry::<String>("since"@, y.since) == opt_entry::<String>("since"@, x.since));
            assert(opt_entry::<DateRange>("created"@, y.created) == opt_entry::<DateRange>("created"@, x.created));
        }
    }
}

/// The `search` member of an encoded `SearchParams`.
pub(crate) proof fn lemma_search_params_search(x: SearchParams)
    ensures
        SearchParams::wire_of(x).field("search"@) == Some(match x.search { Some(y) => <String as Wire>::wire_of(y), None => JsonModel::Null }),
{
    reveal_strlit("search");
    assert("search"@.len() == 6);
    reveal_strlit("collection");
    assert("collection"@.len() == 10);
    reveal_strlit("tags");
    assert("tags"@.len() == 4);
    reveal_strlit("page");
    assert("page"@.len() == 4);
    reveal_strlit("perpage");
    assert("perpage"@.len() == 7);
    reveal_strlit("sort");
    assert("sort"@.len() == 4);
    reveal_strlit("important");
    assert("important"@.len() == 9);
    reveal_strlit("media");
    assert("media"@.len() == 5);
    reveal_strlit("word");
    assert("word"@.len() == 4);
    reveal_strlit("pleaseParse");
    assert("pleaseParse"@.len() == 11);
    reveal_strlit("noparse");
    assert("noparse"@.len() == 7);
    reveal_strlit("since");
    assert("since"@.len() == 5);
    reveal_strlit("created");
    assert("created"@.len() == 7);
    let acc0 = Seq::<(Seq<char>, JsonModel)>::empty();
    lemma_lookup_empty("search"@);
    let acc1 = acc0 + opt_entry::<String>("search"@, x.search);
    let acc2 = acc1 + opt_entry::<i64>("collection"@, x.collection);
    let acc3 = acc2 + opt_entry::<Vec<String>>("tags"@, x.tags);
    let acc4 = acc3 + opt_entry::<i32>("page"@, x.page);
    let acc5 = acc4 + opt_entry::<i32>("perpage"@, x.per_page);
    let acc6 = acc5 + opt_entry::<String>("sort"@, x.sort);
    let acc7 = acc6 + opt_entry::<bool>("important"@, x.important);
    let acc8 = acc7 + opt_entry::<MediaFilter>("media"@, x.media);
    let acc9 = acc8 + opt_entry::<String>("word"@, x.word);
    let acc10 = acc9 + opt_entry::<bool>("pleaseParse"@, x.please_parse);
    let acc11 = acc10 + opt_entry::<bool>("noparse"@, x.noparse);
    let acc12 = acc11 + opt_entry::<String>("since"@, x.since);
    let acc13 = acc12 + opt_entry::<DateRange>("created"@, x.created);
    lemma_lookup_then_opt_entry::<String>(acc0, "search"@, x.search, "search"@);
    lemma_lookup_then_opt_entry::<i64>(acc1, "collection"@, x.collection, "search"@);
    lemma_lookup_then_opt_entry::<Vec<String>>(acc2, "tags"@, x.tags, "search"@);
    lemma_lookup_then_opt_entry::<i32>(acc3, "page"@, x.page, "search"@);
    lemma_lookup_then_opt_entry::<i32>(acc4, "perpage"@, x.per_page, "search"@);
    lemma_lookup_then_opt_entry::<String>(acc5, "sort"@, x.sort, "search"@);
    lemma_lookup_then_opt_entry::<bool>(acc6, "important"@, x.important, "search"@);
    lemma_lookup_then_opt_entry::<MediaFilter>(acc7, "media"@, x.media, "search"@);
    lemma_lookup_then_opt_entry::<String>(acc8, "word"@, x.word, "search"@);
    lemma_lookup_then_opt_entry::<bool>(acc9, "pleaseParse"@, x.please_parse, "search"@);
    lemma_lookup_then_opt_entry::<bool>(acc10, "noparse"@, x.noparse, "search"@);
    lemma_lookup_then_opt_entry::<String>(acc11, "since"@, x.since, "search"@);
    lemma_lookup_then_opt_entry::<DateRange>(acc12, "created"@, x.created, "search"@);
}

/// The `collection` member of an encoded `SearchParams`.
pub(crate) proof fn lemma_search_params_collection(x: SearchParams)
    ensures
        SearchParams::wire_of(x).field("collection"@) == Some(match x.collection { Some(y) => <i64 as Wire>::wire_of(y), None => JsonModel::Null }),
{
    reveal_strlit("collection");
    assert("collection"@.len() == 10);
    reveal_strlit("search");
    assert("search"@.len() == 6);
    reveal_strlit("tags");
    assert("tags"@.len() == 4);
    reveal_strlit("page");
    assert("page"@.len() == 4);
    reveal_strlit("perpage");
    assert("perpage"@.len() == 7);
    reveal_strlit("sort");
    assert("sort"@.len() == 4);
    reveal_strlit("important");
    assert("important"@.len() == 9);
    reveal_strlit("media");
    assert("media"@.len() == 5);
    reveal_strlit("word");
    assert("word"@.len() == 4);
    reveal_strlit("pleaseParse");
    assert("pleaseParse"@.len() == 11);
    reveal_strlit("noparse");
    assert("noparse"@.len() == 7);
    reveal_strlit("since");
    assert("since"@.len() == 5);
    reveal_strlit("created");
    assert("created"@.len() == 7);
    let acc0 = Seq::<(Seq<char>, JsonModel)>::empty();
    lemma_lookup_empty("collection"@);
    let acc1 = acc0 + opt_entry::<String>("search"@, x.search);
    let acc2 = acc1 + opt_entry::<i64>("collection"@, x.collection);
    let acc3 = acc2 + opt_entry::<Vec<String>>("tags"@, x.tags);
    let acc4 = acc3 + opt_entry::<i32>("page"@, x.page);
    let acc5 = acc4 + opt_entry::<i32>("perpage"@, x.per_page);
    let acc6 = acc5 + opt_entry::<String>("sort"@, x.sort);
    let acc7 = acc6 + opt_entry::<bool>("important"@, x.important);
    let acc8 = acc7 + opt_entry::<MediaFilter>("media"@, x.media);
    let acc9 = acc8 + opt_entry::<String>("word"@, x.word);
    let acc10 = acc9 + opt_entry::<bool>("pleaseParse"@, x.please_parse);
    let acc11 = acc10 + opt_entry::<bool>("noparse"@, x.noparse);
    let acc12 = acc11 + opt_entry::<String>("since"@, x.since);
    let acc13 = acc12 + opt_entry::<DateRange>("created"@, x.created);
    lemma_lookup_then_opt_entry::<String>(acc0, "search"@, x.search, "collection"@);
    lemma_lookup_then_opt_entry::<i64>(acc1, "collection"@, x.collection, "collection"@);
    lemma_lookup_then_opt_entry::<Vec<String>>(acc2, "tags"@, x.tags, "collection"@);
    lemma_lookup_then_opt_entry::<i32>(acc3, "page"@, x.page, "collection"@);
    lemma_lookup_then_opt_entry::<i32>(acc4, "perpage"@, x.per_page, "collection"@);
    lemma_lookup_then_opt_entry::<String>(acc5, "sort"@, x.sort, "collection"@);
    lemma_lookup_then_opt_entry::<bool>(acc6, "important"@, x.important, "collection"@);
    lemma_lookup_then_opt_entry::<MediaFilter>(acc7, "media"@, x.media, "collection"@);
    lemma_lookup_then_opt_entry::<String>(acc8, "word"@, x.word, "collection"@);
    lemma_lookup_then_opt_entry::<bool>(acc9, "pleaseParse"@, x.please_parse, "collection"@);
    lemma_lookup_then_opt_entry::<bool>(acc10, "noparse"@, x.noparse, "collection"@);
    lemma_lookup_then_opt_entry::<String>(acc11, "since"@, x.since, "collection"@);
    lemma_lookup_then_opt_entry::<DateRange>(acc12, "created"@, x.created, "collection"@);
}

/// The `tags` member of an encoded `SearchParams`.
pub(crate) proof fn lemma_search_params_tags(x: SearchParams)
    ensures
        SearchParams::wire_of(x).field("tags"@) == Some(match x.tags { Some(y) => <Vec<String> as Wire>::wire_of(y), None => JsonModel::Null }),
{
    reveal_strlit("tags");
    assert("tags"@.len() == 4);
    reveal_strlit("search");
    assert("search"@.len() == 6);
    reveal_strlit("collection");
    assert("collection"@.len() == 10);
    reveal_strlit("page");
    assert("page"@[0] != "tags"@[0]);
    reveal_strlit("perpage");
    assert("perpage"@.len() == 7);
    reveal_strlit("sort");
    assert("sort"@[0] != "tags"@[0]);
    reveal_strlit("important");
    assert("important"@.len() == 9);
    reveal_strlit("media");
    assert("media"@.len() == 5);
    reveal_strlit("word");
    assert("word"@[0] != "tags"@[0]);
    reveal_strlit("pleaseParse");
    assert("pleaseParse"@.len() == 11);
    reveal_strlit("noparse");
    assert("noparse"@.len() == 7);
    reveal_strlit("since");
    assert("since"@.len() == 5);
    reveal_strlit("created");
    assert("created"@.len() == 7);
    let acc0 = Seq::<(Seq<char>, JsonModel)>::empty();
    lemma_lookup_empty("tags"@);
    let acc1 = acc0 + opt_entry::<String>("search"@, x.search);
    let acc2 = acc1 + opt_entry::<i64>("collection"@, x.collection);
    let acc3 = acc2 + opt_entry::<Vec<String>>("tags"@, x.tags);
    let acc4 = acc3 + opt_entry::<i32>("page"@, x.page);
    let acc5 = acc4 + opt_entry::<i32>("perpage"@, x.per_page);
    let acc6 = acc5 + opt_entry::<String>("sort"@, x.sort);
    let acc7 = acc6 + opt_entry::<bool>("important"@, x.important);
    let acc8 = acc7 + opt_entry::<MediaFilter>("media"@, x.media);
    let acc9 = acc8 + opt_entry::<String>("word"@, x.word);
    let acc10 = acc9 + opt_entry::<bool>("pleaseParse"@, x.please_parse);
    let acc11 = acc10 + opt_entry::<bool>("noparse"@, x.noparse);
    let acc12 = acc11 + opt_entry::<String>("since"@, x.since);
    let acc13 = acc12 + opt_entry::<DateRange>("created"@, x.created);
    lemma_lookup_then_opt_entry::<String>(acc0, "search"@, x.search, "tags"@);
    lemma_lookup_then_opt_entry::<i64>(acc1, "collection"@, x.collection, "tags"@);
    lemma_lookup_then_opt_entry::<Vec<String>>(acc2, "tags"@, x.tags, "tags"@);
    lemma_lookup_then_opt_entry::<i32>(acc3, "page"@, x.page, "tags"@);
    lemma_lookup_then_opt_entry::<i32>(acc4, "perpage"@, x.per_page, "tags"@);
    lemma_lookup_then_opt_entry::<String>(acc5, "sort"@, x.sort, "tags"@);
    lemma_lookup_then_opt_entry::<bool>(acc6, "important"@, x.important, "tags"@);
    lemma_lookup_then_opt_entry::<MediaFilter>(acc7, "media"@, x.media, "tags"@);
    lemma_lookup_then_opt_entry::<String>(acc8, "word"@, x.word, "tags"@);
    lemma_lookup_then_opt_entry::<bool>(acc9, "pleaseParse"@, x.please_parse, "tags"@);
    lemma_lookup_then_opt_entry::<bool>(acc10, "noparse"@, x.noparse, "tags"@);
    lemma_lookup_then_opt_entry::<String>(acc11, "since"@, x.since, "tags"@);
    lemma_lookup_then_opt_entry::<DateRange>(acc12, "created"@, x.created, "tags"@);
}

/// The `page` member of an encoded `SearchParams`.
pub(crate) proof fn lemma_search_params_page(x: SearchParams)
    ensures
        SearchParams::wire_of(x).field("page"@) == Some(match x.page { Some(y) => <i32 as Wire>::wire_of(y), None => JsonModel::Null }),
{
    reveal_strlit("page");
    assert("page"@.len() == 4);
    reveal_strlit("search");
    assert("search"@.len() == 6);
    reveal_strlit("collection");
    assert("collection"@.len() == 10);
    reveal_strlit("tags");
    assert("tags"@[0] != "page"@[0]);
    reveal_strlit("perpage");
    assert("perpage"@.len() == 7);
    reveal_strlit("sort");
    assert("sort"@[0] != "page"@[0]);
    reveal_strlit("important");
    assert("important"@.len() == 9);
    reveal_strlit("media");
    assert("media"@.len() == 5);
    reveal_strlit("word");
    assert("word"@[0] != "page"@[0]);
    reveal_strlit("pleaseParse");
    assert("pleaseParse"@.len() == 11);
    reveal_strlit("noparse");
    assert("noparse"@.len() == 7);
    reveal_strlit("since");
    assert("since"@.len() == 5);
    reveal_strlit("created");
    assert("created"@.len() == 7);
    let acc0 = Seq::<(Seq<char>, JsonModel)>::empty();
    lemma_lookup_empty("page"@);
    let acc1 = acc0 + opt_entry::<String>("search"@, x.search);
    let acc2 = acc1 + opt_entry::<i64>("collection"@, x.collection);
    let acc3 = acc2 + opt_entry::<Vec<String>>("tags"@, x.tags);
    let acc4 = acc3 + opt_entry::<i32>("page"@, x.page);
    let acc5 = acc4 + opt_entry::<i32>("perpage"@, x.per_page);
    let acc6 = acc5 + opt_entry::<String>("sort"@, x.sort);
    let acc7 = acc6 + opt_entry::<bool>("important"@, x.important);
    let acc8 = acc7 + opt_entry::<MediaFilter>("media"@, x.media);
    let acc9 = acc8 + opt_entry::<String>("word"@, x.word);
    let acc10 = acc9 + opt_entry::<bool>("pleaseParse"@, x.please_parse);
    let acc11 = acc10 + opt_entry::<bool>("noparse"@, x.noparse);
    let acc12 = acc11 + opt_entry::<String>("since"@, x.since);
    let acc13 = acc12 + opt_entry::<DateRange>("created"@, x.created);
    lemma_lookup_then_opt_entry::<String>(acc0, "search"@, x.search, "page"@);
    lemma_lookup_then_opt_entry::<i64>(acc1, "collection"@, x.collection, "page"@);
    lemma_lookup_then_opt_entry::<Vec<String>>(acc2, "tags"@, x.tags, "page"@);
    lemma_lookup_then_opt_entry::<i32>(acc3, "page"@, x.page, "page"@);
    lemma_lookup_then_opt_entry::<i32>(acc4, "perpage"@, x.per_page, "page"@);
    lemma_lookup_then_opt_entry::<String>(acc5, "sort"@, x.sort, "page"@);
    lemma_lookup_then_opt_entry::<bool>(acc6, "important"@, x.important, "page"@);
    lemma_lookup_then_opt_entry::<MediaFilter>(acc7, "media"@, x.media, "page"@);
    lemma_lookup_then_opt_entry::<String>(acc8, "word"@, x.word, "page"@);
    lemma_lookup_then_opt_entry::<bool>(acc9, "pleaseParse"@, x.please_parse, "page"@);
    lemma_lookup_then_opt_entry::<bool>(acc10, "noparse"@, x.noparse, "page"@);
    lemma_lookup_then_opt_entry::<String>(acc11, "since"@, x.since, "page"@);
    lemma_lookup_then_opt_entry::<DateRange>(acc12, "created"@, x.created, "page"@);
}

/// The `perpage` member of an encoded `SearchParams`.
pub(crate) proof fn lemma_search_params_per_page(x: SearchParams)
    ensures
        SearchParams::wire_of(x).field("perpage"@) == Some(match x.per_page { Some(y) => <i32 as Wire>::wire_of(y), None => JsonModel::Null }),
{
    reveal_strlit("perpage");
    assert("perpage"@.len() == 7);
    reveal_strlit("search");
    assert("search"@.len() == 6);
    reveal_strlit("collection");
    assert("collection"@.len() == 10);
    reveal_strlit("tags");
    assert("tags"@.len() == 4);
    reveal_strlit("page");
    assert("page"@.len() == 4);
    reveal_strlit("sort");
    assert("sort"@.len() == 4);
    reveal_strlit("important");
    assert("important"@.len() == 9);
    reveal_strlit("media");
    assert("media"@.len() == 5);
    reveal_strlit("word");
    assert("word"@.len() == 4);
    reveal_strlit("pleaseParse");
    assert("pleaseParse"@.len() == 11);
    reveal_strlit("noparse");
    assert("noparse"@[0] != "perpage"@[0]);
    reveal_strlit("since");
    assert("since"@.len() == 5);
    reveal_strlit("created");
    assert("created"@[0] != "perpage"@[0]);
    let acc0 = Seq::<(Seq<char>, JsonModel)>::empty();
    lemma_lookup_empty("perpage"@);
    let acc1 = acc0 + opt_entry::<String>("search"@, x.search);
    let acc2 = acc1 + opt_entry::<i64>("collection"@, x.collection);
    let acc3 = acc2 + opt_entry::<Vec<String>>("tags"@, x.tags);
    let acc4 = acc3 + opt_entry::<i32>("page"@, x.page);
    let acc5 = acc4 + opt_entry::<i32>("perpage"@, x.per_page);
    let acc6 = acc5 + opt_entry::<String>("sort"@, x.sort);
    let acc7 = acc6 + opt_entry::<bool>("important"@, x.important);
    let acc8 = acc7 + opt_entry::<MediaFilter>("media"@, x.media);
    let acc9 = acc8 + opt_entry::<String>("word"@, x.word);
    let acc10 = acc9 + opt_entry::<bool>("pleaseParse"@, x.please_parse);
    let acc11 = acc10 + opt_entry::<bool>("noparse"@, x.noparse);
    let acc12 = acc11 + opt_entry::<String>("since"@, x.since);
    let acc13 = acc12 + opt_entry::<DateRange>("created"@, x.created);
    lemma_lookup_then_opt_entry::<String>(acc0, "search"@, x.search, "perpage"@);
    lemma_lookup_then_opt_entry::<i64>(acc1, "collection"@, x.collection, "perpage"@);
    lemma_lookup_then_opt_entry::<Vec<String>>(acc2, "tags"@, x.tags, "perpage"@);
    lemma_lookup_then_opt_entry::<i32>(acc3, "page"@, x.page, "perpage"@);
    lemma_lookup_then_opt_entry::<i32>(acc4, "perpage"@, x.per_page, "perpage"@);
    lemma_lookup_then_opt_entry::<String>(acc5, "sort"@, x.sort, "perpage"@);
    lemma_lookup_then_opt_entry::<bool>(acc6, "important"@, x.important, "perpage"@);
    lemma_lookup_then_opt_entry::<MediaFilter>(acc7, "media"@, x.media, "perpage"@);
    lemma_lookup_then_opt_entry::<String>(acc8, "word"@, x.word, "perpage"@);
    lemma_lookup_then_opt_entry::<bool>(acc9, "pleaseParse"@, x.please_parse, "perpage"@);
    lemma_lookup_then_opt_entry::<bool>(acc10, "noparse"@, x.noparse, "perpage"@);
    lemma_lookup_then_opt_entry::<String>(acc11, "since"@, x.since, "perpage"@);
    lemma_lookup_then_opt_entry::<DateRange>(acc12, "created"@, x.created, "perpage"@);
}

/// The `sort` member of an encoded `SearchParams`.
pub(crate) proof fn lemma_search_params_sort(x: SearchParams)
    ensures
        SearchParams::wire_of(x).field("sort"@) == Some(match x.sort { Some(y) => <String as Wire>::wire_of(y), None => JsonModel::Null }),
{
    reveal_strlit("sort");
    assert("sort"@.len() == 4);
    reveal_strlit("search");
    assert("search"@.len() == 6);
    reveal_strlit("collection");
    assert("collection"@.len() == 10);
    reveal_strlit("tags");
    assert("tags"@[0] != "sort"@[0]);
    reveal_strlit("page");
    assert("page"@[0] != "sort"@[0]);
    reveal_strlit("perpage");
    assert("perpage"@.len() == 7);
    reveal_strlit("important");
    assert("important"@.len() == 9);
    reveal_strlit("media");
    assert("media"@.len() == 5);
    reveal_strlit("word");
    assert("word"@[0] != "sort"@[0]);
    reveal_strlit("pleaseParse");
    assert("pleaseParse"@.len() == 11);
    reveal_strlit("noparse");
    assert("noparse"@.len() == 7);
    reveal_strlit("since");
    assert("since"@.len() == 5);
    reveal_strlit("created");
    assert("created"@.len() == 7);
    let acc0 = Seq::<(Seq<char>, JsonModel)>::empty();
    lemma_lookup_empty("sort"@);
    let acc1 = acc0 + opt_entry::<String>("search"@, x.search);
    let acc2 = acc1 + opt_entry::<i64>("collection"@, x.collection);
    let acc3 = acc2 + opt_entry::<Vec<String>>("tags"@, x.tags);
    let acc4 = acc3 + opt_entry::<i32>("page"@, x.page);
    let acc5 = acc4 + opt_entry::<i32>("perpage"@, x.per_page);
    let acc6 = acc5 + opt_entry::<String>("sort"@, x.sort);
    let acc7 = acc6 + opt_entry::<bool>("important"@, x.important);
    let acc8 = acc7 + opt_entry::<MediaFilter>("media"@, x.media);
    let acc9 = acc8 + opt_entry::<String>("word"@, x.word);
    let acc10 = acc9 + opt_entry::<bool>("pleaseParse"@, x.please_parse);
    let acc11 = acc10 + opt_entry::<bool>("noparse"@, x.noparse);
    let acc12 = acc11 + opt_entry::<String>("since"@, x.since);
    let acc13 = acc12 + opt_entry::<DateRange>("created"@, x.created);
    lemma_lookup_then_opt_entry::<String>(acc0, "search"@, x.search, "sort"@);
    lemma_lookup_then_opt_entry::<i64>(acc1, "collection"@, x.collection, "sort"@);
    lemma_lookup_then_opt_entry::<Vec<String>>(acc2, "tags"@, x.tags, "sort"@);
    lemma_lookup_then_opt_entry::<i32>(acc3, "page"@, x.page, "sort"@);
    lemma_lookup_then_opt_entry::<i32>(acc4, "perpage"@, x.per_page, "sort"@);
    lemma_lookup_then_opt_entry::<String>(acc5, "sort"@, x.sort, "sort"@);
    lemma_lookup_then_opt_entry::<bool>(acc6, "important"@, x.important, "sort"@);
    lemma_lookup_then_opt_entry::<MediaFilter>(acc7, "media"@, x.media, "sort"@);
    lemma_lookup_then_opt_entry::<String>(acc8, "word"@, x.word, "sort"@);
    lemma_lookup_then_opt_entry::<bool>(acc9, "pleaseParse"@, x.please_parse, "sort"@);
    lemma_lookup_then_opt_entry::<bool>(acc10, "noparse"@, x.noparse, "sort"@);
    lemma_lookup_then_opt_entry::<String>(acc11, "since"@, x.since, "sort"@);
    lemma_lookup_then_opt_entry::<DateRange>(acc12, "created"@, x.created, "sort"@);
}

/// The `important` member of an encoded `SearchParams`.
pub(crate) proof fn lemma_search_params_important(x: SearchParams)
    ensures
        SearchParams::wire_of(x).field("important"@) == Some(match x.important { Some(y) => <bool as Wire>::wire_of(y), None => JsonModel::Null }),
{
    reveal_strlit("important");
    assert("important"@.len() == 9);
    reveal_strlit("search");
    assert("search"@.len() == 6);
    reveal_strlit("collection");
    assert("collection"@.len() == 10);
    reveal_strlit("tags");
    assert("tags"@.len() == 4);
    reveal_strlit("page");
    assert("page"@.len() == 4);
    reveal_strlit("perpage");
    assert("perpage"@.len() == 7);
    reveal_strlit("sort");
    assert("sort"@.len() == 4);
    reveal_strlit("media");
    assert("media"@.len() == 5);
    reveal_strlit("word");
    assert("word"@.len() == 4);
    reveal_strlit("pleaseParse");
    assert("pleaseParse"@.len() == 11);
    reveal_strlit("noparse");
    assert("noparse"@.len() == 7);
    reveal_strlit("since");
    assert("since"@.len() == 5);
    reveal_strlit("created");
    assert("created"@.len() == 7);
    let acc0 = Seq::<(Seq<char>, JsonModel)>::empty();
    lemma_lookup_empty("important"@);
    let acc1 = acc0 + opt_entry::<String>("search"@, x.search);
    let acc2 = acc1 + opt_entry::<i64>("collection"@, x.collection);
    let acc3 = acc2 + opt_entry::<Vec<String>>("tags"@, x.tags);
    let acc4 = acc3 + opt_entry::<i32>("page"@, x.page);
    let acc5 = acc4 + opt_entry::<i32>("perpage"@, x.per_page);
    let acc6 = acc5 + opt_entry::<String>("sort"@, x.sort);
    let acc7 = acc6 + opt_entry::<bool>("important"@, x.important);
    let acc8 = acc7 + opt_entry::<MediaFilter>("media"@, x.media);
    let acc9 = acc8 + opt_entry::<String>("word"@, x.word);
    let acc10 = acc9 + opt_entry::<bool>("pleaseParse"@, x.please_parse);
    let acc11 = acc10 + opt_entry::<bool>("noparse"@, x.noparse);
    let acc12 = acc11 + opt_entry::<String>("since"@, x.since);
    let acc13 = acc12 + opt_entry::<DateRange>("created"@, x.created);
    lemma_lookup_then_opt_entry::<String>(acc0, "search"@, x.search, "important"@);
    lemma_lookup_then_opt_entry::<i64>(acc1, "collection"@, x.collection, "important"@);
    lemma_lookup_then_opt_entry::<Vec<String>>(acc2, "tags"@, x.tags, "important"@);
    lemma_lookup_then_opt_entry::<i32>(acc3, "page"@, x.page, "important"@);
    lemma_lookup_then_opt_entry::<i32>(acc4, "perpage"@, x.per_page, "important"@);
    lemma_lookup_then_opt_entry::<String>(acc5, "sort"@, x.sort, "important"@);
    lemma_lookup_then_opt_entry::<bool>(acc6, "important"@, x.important, "important"@);
    lemma_lookup_then_opt_entry::<MediaFilter>(acc7, "media"@, x.media, "important"@);
    lemma_lookup_then_opt_entry::<String>(acc8, "word"@, x.word, "important"@);
    lemma_lookup_then_opt_entry::<bool>(acc9, "pleaseParse"@, x.please_parse, "important"@);
    lemma_lookup_then_opt_entry::<bool>(acc10, "noparse"@, x.noparse, "important"@);
    lemma_lookup_then_opt_entry::<String>(acc11, "since"@, x.since, "important"@);
    lemma_lookup_then_opt_entry::<DateRange>(acc12, "created"@, x.created, "important"@);
}

/// The `media` member of an encoded `SearchParams`.
pub(crate) proof fn lemma_search_params_media(x: SearchParams)
    ensures
        SearchParams::wire_of(x).field("media"@) == Some(match x.media { Some(y) => <MediaFilter as Wire>::wire_of(y), None => JsonModel::Null }),
{
    reveal_strlit("media");
    assert("media"@.len() == 5);
    reveal_strlit("search");
    assert("search"@.len() == 6);
    reveal_strlit("collection");
    assert("collection"@.len() == 10);
    reveal_strlit("tags");
    assert("tags"@.len() == 4);
    reveal_strlit("page");
    assert("page"@.len() == 4);
    reveal_strlit("perpage");
    assert("perpage"@.len() == 7);
    reveal_strlit("sort");
    assert("sort"@.len() == 4);
    reveal_strlit("important");
    assert("important"@.len() == 9);
    reveal_strlit("word");
    assert("word"@.len() == 4);
    reveal_strlit("pleaseParse");
    assert("pleaseParse"@.len() == 11);
    reveal_strlit("noparse");
    assert("noparse"@.len() == 7);
    reveal_strlit("since");
    assert("since"@[0] != "media"@[0]);
    reveal_strlit("created");
    assert("created"@.len() == 7);
    let acc0 = Seq::<(Seq<char>, JsonModel)>::empty();
    lemma_lookup_empty("media"@);
    let acc1 = acc0 + opt_entry::<String>("search"@, x.search);
    let acc2 = acc1 + opt_entry::<i64>("collection"@, x.collection);
    let acc3 = acc2 + opt_entry::<Vec<String>>("tags"@, x.tags);
    let acc4 = acc3 + opt_entry::<i32>("page"@, x.page);
    let acc5 = acc4 + opt_entry::<i32>("perpage"@, x.per_page);
    let acc6 = acc5 + opt_entry::<String>("sort"@, x.sort);
    let acc7 = acc6 + opt_entry::<bool>("important"@, x.important);
    let acc8 = acc7 + opt_entry::<MediaFilter>("media"@, x.media);
    let acc9 = acc8 + opt_entry::<String>("word"@, x.word);
    let acc10 = acc9 + opt_entry::<bool>("pleaseParse"@, x.please_parse);
    let acc11 = acc10 + opt_entry::<bool>("noparse"@, x.noparse);
    let acc12 = acc11 + opt_entry::<String>("since"@, x.since);
    let acc13 = acc12 + opt_entry::<DateRange>("created"@, x.created);
    lemma_lookup_then_opt_entry::<String>(acc0, "search"@, x.search, "media"@);
    lemma_lookup_then_opt_entry::<i64>(acc1, "collection"@, x.collection, "media"@);
    lemma_lookup_then_opt_entry::<Vec<String>>(acc2, "tags"@, x.tags, "media"@);
    lemma_lookup_then_opt_entry::<i32>(acc3, "page"@, x.page, "media"@);
    lemma_lookup_then_opt_entry::<i32>(acc4, "perpage"@, x.per_page, "media"@);
    lemma_lookup_then_opt_entry::<String>(acc5, "sort"@, x.sort, "media"@);
    lemma_lookup_then_opt_entry::<bool>(acc6, "important"@, x.important, "media"@);
    lemma_lookup_then_opt_entry::<MediaFilter>(acc7, "media"@, x.media, "media"@);
    lemma_lookup_then_opt_entry::<String>(acc8, "word"@, x.word, "media"@);
    lemma_lookup_then_opt_entry::<bool>(acc9, "pleaseParse"@, x.please_parse, "media"@);
    lemma_lookup_then_opt_entry::<bool>(acc10, "noparse"@, x.noparse, "media"@);
    lemma_lookup_then_opt_entry::<String>(acc11, "since"@, x.since, "media"@);
    lemma_lookup_then_opt_entry::<DateRange>(acc12, "created"@, x.created, "media"@);
}

/// The `word` member of an encoded `SearchParams`.
pub(crate) proof fn lemma_search_params_word(x: SearchParams)
    ensures
        SearchParams::wire_of(x).field("word"@) == Some(match x.word { Some(y) => <String as Wire>::wire_of(y), None => JsonModel::Null }),
{
    reveal_strlit("word");
    assert("word"@.len() == 4);
    reveal_strlit("search");
    assert("search"@.len() == 6);
    reveal_strlit("collection");
    assert("collection"@.len() == 10);
    reveal_strlit("tags");
    assert("tags"@[0] != "word"@[0]);
    reveal_strlit("page");
    assert("page"@[0] != "word"@[0]);
    reveal_strlit("perpage");
    assert("perpage"@.len() == 7);
    reveal_strlit("sort");
    assert("sort"@[0] != "word"@[0]);
    reveal_strlit("important");
    assert("important"@.len() == 9);
    reveal_strlit("media");
    assert("media"@.len() == 5);
    reveal_strlit("pleaseParse");
    assert("pleaseParse"@.len() == 11);
    reveal_strlit("noparse");
    assert("noparse"@.len() == 7);
    reveal_strlit("since");
    assert("since"@.len() == 5);
    reveal_strlit("created");
    assert("created"@.len() == 7);
    let acc0 = Seq::<(Seq<char>, JsonModel)>::empty();
    lemma_lookup_empty("word"@);
    let acc1 = acc0 + opt_entry::<String>("search"@, x.search);
    let acc2 = acc1 + opt_entry::<i64>("collection"@, x.collection);
    let acc3 = acc2 + opt_entry::<Vec<String>>("tags"@, x.tags);
    let acc4 = acc3 + opt_entry::<i32>("page"@, x.page);
    let acc5 = acc4 + opt_entry::<i32>("perpage"@, x.per_page);
    let acc6 = acc5 + opt_entry::<String>("sort"@, x.sort);
    let acc7 = acc6 + opt_entry::<bool>("important"@, x.important);
    let acc8 = acc7 + opt_entry::<MediaFilter>("media"@, x.media);
    let acc9 = acc8 + opt_entry::<String>("word"@, x.word);
    let acc10 = acc9 + opt_entry::<bool>("pleaseParse"@, x.please_parse);
    let acc11 = acc10 + opt_entry::<bool>("noparse"@, x.noparse);
    let acc12 = acc11 + opt_entry::<String>("since"@, x.since);
    let acc13 = acc12 + opt_entry::<DateRange>("created"@, x.created);
    lemma_lookup_then_opt_entry::<String>(acc0, "search"@, x.search, "word"@);
    lemma_lookup_then_opt_entry::<i64>(acc1, "collection"@, x.collection, "word"@);
    lemma_lookup_then_opt_entry::<Vec<String>>(acc2, "tags"@, x.tags, "word"@);
    lemma_lookup_then_opt_entry::<i32>(acc3, "page"@, x.page, "word"@);
    lemma_lookup_then_opt_entry::<i32>(acc4, "perpage"@, x.per_page, "word"@);
    lemma_lookup_then_opt_entry::<String>(acc5, "sort"@, x.sort, "word"@);
    lemma_lookup_then_opt_entry::<bool>(acc6, "important"@, x.important, "word"@);
    lemma_lookup_then_opt_entry::<MediaFilter>(acc7, "media"@, x.media, "word"@);
    lemma_lookup_then_opt_entry::<String>(acc8, "word"@, x.word, "word"@);
    lemma_lookup_then_opt_entry::<bool>(acc9, "pleaseParse"@, x.please_parse, "word"@);
    lemma_lookup_then_opt_entry::<bool>(acc10, "noparse"@, x.noparse, "word"@);
    lemma_lookup_then_opt_entry::<String>(acc11, "since"@, x.since, "word"@);
    lemma_lookup_then_opt_entry::<DateRange>(acc12, "created"@, x.created, "word"@);
}

/// The `pleaseParse` member of an encoded `SearchParams`.
pub(crate) proof fn lemma_search_params_please_parse(x: SearchParams)
    ensures
        SearchParams::wire_of(x).field("pleaseParse"@) == Some(match x.please_parse { Some(y) => <bool as Wire>::wire_of(y), None => JsonModel::Null }),
{
    reveal_strlit("pleaseParse");
    assert("pleaseParse"@.len() == 11);
    reveal_strlit("search");
    assert("search"@.len() == 6);
    reveal_strlit("collection");
    assert("collection"@.len() == 10);
    reveal_strlit("tags");
    assert("tags"@.len() == 4);
    reveal_strlit("page");
    assert("page"@.len() == 4);
    reveal_strlit("perpage");
    assert("perpage"@.len() == 7);
    reveal_strlit("sort");
    assert("sort"@.len() == 4);
    reveal_strlit("important");
    assert("important"@.len() == 9);
    reveal_strlit("media");
    assert("media"@.len() == 5);
    reveal_strlit("word");
    assert("word"@.len() == 4);
    reveal_strlit("noparse");
    assert("noparse"@.len() == 7);
    reveal_strlit("since");
    assert("since"@.len() == 5);
    reveal_strlit("created");
    assert("created"@.len() == 7);
    let acc0 = Seq::<(Seq<char>, JsonModel)>::empty();
    lemma_lookup_empty("pleaseParse"@);
    let acc1 = acc0 + opt_entry::<String>("search"@, x.search);
    let acc2 = acc1 + opt_entry::<i64>("collection"@, x.collection);
    let acc3 = acc2 + opt_entry::<Vec<String>>("tags"@, x.tags);
    let acc4 = acc3 + opt_entry::<i32>("page"@, x.page);
    let acc5 = acc4 + opt_entry::<i32>("perpage"@, x.per_page);
    let acc6 = acc5 + opt_entry::<String>("sort"@, x.sort);
    let acc7 = acc6 + opt_entry::<bool>("important"@, x.important);
    let acc8 = acc7 + opt_entry::<MediaFilter>("media"@, x.media);
    let acc9 = acc8 + opt_entry::<String>("word"@, x.word);
    let acc10 = acc9 + opt_entry::<bool>("pleaseParse"@, x.please_parse);
    let acc11 = acc10 + opt_entry::<bool>("noparse"@, x.noparse);
    let acc12 = acc11 + opt_entry::<String>("since"@, x.since);
    let acc13 = acc12 + opt_entry::<DateRange>("created"@, x.created);
    lemma_lookup_then_opt_entry::<String>(acc0, "search"@, x.search, "pleaseParse"@);
    lemma_lookup_then_opt_entry::<i64>(acc1, "collection"@, x.collection, "pleaseParse"@);
    lemma_lookup_then_opt_entry::<Vec<String>>(acc2, "tags"@, x.tags, "pleaseParse"@);
    lemma_lookup_then_opt_entry::<i32>(acc3, "page"@, x.page, "pleaseParse"@);
    lemma_lookup_then_opt_entry::<i32>(acc4, "perpage"@, x.per_page, "pleaseParse"@);
    lemma_lookup_then_opt_entry::<String>(acc5, "sort"@, x.sort, "pleaseParse"@);
    lemma_lookup_then_opt_entry::<bool>(acc6, "important"@, x.important, "pleaseParse"@);
    lemma_lookup_then_opt_entry::<MediaFilter>(acc7, "media"@, x.media, "pleaseParse"@);
    lemma_lookup_then_opt_entry::<String>(acc8, "word"@, x.word, "pleaseParse"@);
    lemma_lookup_then_opt_entry::<bool>(acc9, "pleaseParse"@, x.please_parse, "pleaseParse"@);
    lemma_lookup_then_opt_entry::<bool>(acc10, "noparse"@, x.noparse, "pleaseParse"@);
    lemma_lookup_then_opt_entry::<String>(acc11, "since"@, x.since, "pleaseParse"@);
    lemma_lookup_then_opt_entry::<DateRange>(acc12, "created"@, x.created, "pleaseParse"@);
}

/// The `noparse` member of an encoded `SearchParams`.
pub(crate) proof fn lemma_search_params_noparse(x: SearchParams)
    ensures
        SearchParams::wire_of(x).field("noparse"@) == Some(match x.noparse { Some(y) => <bool as Wire>::wire_of(y), None => JsonModel::Null }),
{
    reveal_strlit("noparse");
    assert("noparse"@.len() == 7);
    reveal_strlit("search");
    assert("search"@.len() == 6);
    reveal_strlit("collection");
    assert("collection"@.len() == 10);
    reveal_strlit("tags");
    assert("tags"@.len() == 4);
    reveal_strlit("page");
    assert("page"@.len() == 4);
    reveal_strlit("perpage");
    assert("perpage"@[0] != "noparse"@[0]);
    reveal_strlit("sort");
    assert("sort"@.len() == 4);
    reveal_strlit("important");
    assert("important"@.len() == 9);
    reveal_strlit("media");
    assert("media"@.len() == 5);
    reveal_strlit("word");
    assert("word"@.len() == 4);
    reveal_strlit("pleaseParse");
    assert("pleaseParse"@.len() == 11);
    reveal_strlit("since");
    assert("since"@.len() == 5);
    reveal_strlit("created");
    assert("created"@[0] != "noparse"@[0]);
    let acc0 = Seq::<(Seq<char>, JsonModel)>::empty();
    lemma_lookup_empty("noparse"@);
    let acc1 = acc0 + opt_entry::<String>("search"@, x.search);
    let acc2 = acc1 + opt_entry::<i64>("collection"@, x.collection);
    let acc3 = acc2 + opt_entry::<Vec<String>>("tags"@, x.tags);
    let acc4 = acc3 + opt_entry::<i32>("page"@, x.page);
    let acc5 = acc4 + opt_entry::<i32>("perpage"@, x.per_page);
    let acc6 = acc5 + opt_entry::<String>("sort"@, x.sort);
    let acc7 = acc6 + opt_entry::<bool>("important"@, x.important);
    let acc8 = acc7 + opt_entry::<MediaFilter>("media"@, x.media);
    let acc9 = acc8 + opt_entry::<String>("word"@, x.word);
    let acc10 = acc9 + opt_entry::<bool>("pleaseParse"@, x.please_parse);
    let acc11 = acc10 + opt_entry::<bool>("noparse"@, x.noparse);
    let acc12 = acc11 + opt_entry::<String>("since"@, x.since);
    let acc13 = acc12 + opt_entry::<DateRange>("created"@, x.created);
    lemma_lookup_then_opt_entry::<String>(acc0, "search"@, x.search, "noparse"@);
    lemma_lookup_then_opt_entry::<i64>(acc1, "collection"@, x.collection, "noparse"@);
    lemma_lookup_then_opt_entry::<Vec<String>>(acc2, "tags"@, x.tags, "noparse"@);
    lemma_lookup_then_opt_entry::<i32>(acc3, "page"@, x.page, "noparse"@);
    lemma_lookup_then_opt_entry::<i32>(acc4, "perpage"@, x.per_page, "noparse"@);
    lemma_lookup_then_opt_entry::<String>(acc5, "sort"@, x.sort, "noparse"@);
    lemma_lookup_then_opt_entry::<bool>(acc6, "important"@, x.important, "noparse"@);
    lemma_lookup_then_opt_entry::<MediaFilter>(acc7, "media"@, x.media, "noparse"@);
    lemma_lookup_then_opt_entry::<String>(acc8, "word"@, x.word, "noparse"@);
    lemma_lookup_then_opt_entry::<bool>(acc9, "pleaseParse"@, x.please_parse, "noparse"@);
    lemma_lookup_then_opt_entry::<bool>(acc10, "noparse"@, x.noparse, "noparse"@);
    lemma_lookup_then_opt_entry::<String>(acc11, "since"@, x.since, "noparse"@);
    lemma_lookup_then_opt_entry::<DateRange>(acc12, "created"@, x.created, "noparse"@);
}

/// The `since` member of an encoded `SearchParams`.
pub(crate) proof fn lemma_search_params_since(x: SearchParams)
    ensures
        SearchParams::wire_of(x).field("since"@) == Some(match x.since { Some(y) => <String as Wire>::wire_of(y), None => JsonModel::Null }),
{
    reveal_strlit("since");
    assert("since"@.len() == 5);
    reveal_strlit("search");
    assert("search"@.len() == 6);
    reveal_strlit("collection");
    assert("collection"@.len() == 10);
    reveal_strlit("tags");
    assert("tags"@.len() == 4);
    reveal_strlit("page");
    assert("page"@.len() == 4);
    reveal_strlit("perpage");
    assert("perpage"@.len() == 7);
    reveal_strlit("sort");
    assert("sort"@.len() == 4);
    reveal_strlit("important");
    assert("important"@.len() == 9);
    reveal_strlit("media");
    assert("media"@[0] != "since"@[0]);
    reveal_strlit("word");
    assert("word"@.len() == 4);
    reveal_strlit("pleaseParse");
    assert("pleaseParse"@.len() == 11);
    reveal_strlit("noparse");
    assert("noparse"@.len() == 7);
    reveal_strlit("created");
    assert("created"@.len() == 7);
    let acc0 = Seq::<(Seq<char>, JsonModel)>::empty();
    lemma_lookup_empty("since"@);
    let acc1 = acc0 + opt_entry::<String>("search"@, x.search);
    let acc2 = acc1 + opt_entry::<i64>("collection"@, x.collection);
    let acc3 = acc2 + opt_entry::<Vec<String>>("tags"@, x.tags);
    let acc4 = acc3 + opt_entry::<i32>("page"@, x.page);
    let acc5 = acc4 + opt_entry::<i32>("perpage"@, x.per_page);
    let acc6 = acc5 + opt_entry::<String>("sort"@, x.sort);
    let acc7 = acc6 + opt_entry::<bool>("important"@, x.important);
    let acc8 = acc7 + opt_entry::<MediaFilter>("media"@, x.media);
    let acc9 = acc8 + opt_entry::<String>("word"@, x.word);
    let acc10 = acc9 + opt_entry::<bool>("pleaseParse"@, x.please_parse);
    let acc11 = acc10 + opt_entry::<bool>("noparse"@, x.noparse);
    let acc12 = acc11 + opt_entry::<String>("since"@, x.since);
    let acc13 = acc12 + opt_entry::<DateRange>("created"@, x.created);
    lemma_lookup_then_opt_entry::<String>(acc0, "search"@, x.search, "since"@);
    lemma_lookup_then_opt_entry::<i64>(acc1, "collection"@, x.collection, "since"@);
    lemma_lookup_then_opt_entry::<Vec<String>>(acc2, "tags"@, x.tags, "since"@);
    lemma_lookup_then_opt_entry::<i32>(acc3, "page"@, x.page, "since"@);
    lemma_lookup_then_opt_entry::<i32>(acc4, "perpage"@, x.per_page, "since"@);
    lemma_lookup_then_opt_entry::<String>(acc5, "sort"@, x.sort, "since"@);
    lemma_lookup_then_opt_entry::<bool>(acc6, "important"@, x.important, "since"@);
    lemma_lookup_then_opt_entry::<MediaFilter>(acc7, "media"@, x.media, "since"@);
    lemma_lookup_then_opt_entry::<String>(acc8, "word"@, x.word, "since"@);
    lemma_lookup_then_opt_entry::<bool>(acc9, "pleaseParse"@, x.please_parse, "since"@);
    lemma_lookup_then_opt_entry::<bool>(acc10, "noparse"@, x.noparse, "since"@);
    lemma_lookup_then_opt_entry::<String>(acc11, "since"@, x.since, "since"@);
    lemma_lookup_then_opt_entry::<DateRange>(acc12, "created"@, x.created, "since"@);
}

/// The `created` member of an encoded `SearchParams`.
pub(crate) proof fn lemma_search_params_created(x: SearchParams)
    ensures
        SearchParams::wire_of(x).field("created"@) == Some(match x.created { Some(y) => <DateRange as Wire>::wire_of(y), None => JsonModel::Null }),
{
    reveal_strlit("created");
    assert("created"@.len() == 7);
    reveal_strlit("search");
    assert("search"@.len() == 6);
    reveal_strlit("collection");
    assert("collection"@.len() == 10);
    reveal_strlit("tags");
    assert("tags"@.len() == 4);
    reveal_strlit("page");
    assert("page"@.len() == 4);
    reveal_strlit("perpage");
    assert("perpage"@[0] != "created"@[0]);
    reveal_strlit("sort");
    assert("sort"@.len() == 4);
    reveal_strlit("important");
    assert("important"@.len() == 9);
    reveal_strlit("media");
    assert("media"@.len() == 5);
    reveal_strlit("word");
    assert("word"@.len() == 4);
    reveal_strlit("pleaseParse");
    assert("pleaseParse"@.len() == 11);
    reveal_strlit("noparse");
    assert("noparse"@[0] != "created"@[0]);
    reveal_strlit("since");
    assert("since"@.len() == 5);
    let acc0 = Seq::<(Seq<char>, JsonModel)>::empty();
    lemma_lookup_empty("created"@);
    let acc1 = acc0 + opt_entry::<String>("search"@, x.search);
    let acc2 = acc1 + opt_entry::<i64>("collection"@, x.collection);
    let acc3 = acc2 + opt_entry::<Vec<String>>("tags"@, x.tags);
    let acc4 = acc3 + opt_entry::<i32>("page"@, x.page);
    let acc5 = acc4 + opt_entry::<i32>("perpage"@, x.per_page);
    let acc6 = acc5 + opt_entry::<String>("sort"@, x.sort);
    let acc7 = acc6 + opt_entry::<bool>("important"@, x.important);
    let acc8 = acc7 + opt_entry::<MediaFilter>("media"@, x.media);
    let acc9 = acc8 + opt_entry::<String>("word"@, x.word);
    let acc10 = acc9 + opt_entry::<bool>("pleaseParse"@, x.please_parse);
    let acc11 = acc10 + opt_entry::<bool>("noparse"@, x.noparse);
    let acc12 = acc11 + opt_entry::<String>("since"@, x.since);
    let acc13 = acc12 + opt_entry::<DateRange>("created"@, x.created);
    lemma_lookup_then_opt_entry::<String>(acc0, "search"@, x.search, "created"@);
    lemma_lookup_then_opt_entry::<i64>(acc1, "collection"@, x.collection, "created"@);
    lemma_lookup_then_opt_entry::<Vec<String>>(acc2, "tags"@, x.tags, "created"@);
    lemma_lookup_then_opt_entry::<i32>(acc3, "page"@, x.page, "created"@);
    lemma_lookup_then_opt_entry::<i32>(acc4, "perpage"@, x.per_page, "created"@);
    lemma_lookup_then_opt_entry::<String>(acc5, "sort"@, x.sort, "created"@);
    lemma_lookup_then_opt_entry::<bool>(acc6, "important"@, x.important, "created"@);
    lemma_lookup_then_opt_entry::<MediaFilter>(acc7, "media"@, x.media, "created"@);
    lemma_lookup_then_opt_entry::<String>(acc8, "word"@, x.word, "created"@);
    lemma_lookup_then_opt_entry::<bool>(acc9, "pleaseParse"@, x.please_parse, "created"@);
    lemma_lookup_then_opt_entry::<bool>(acc10, "noparse"@, x.noparse, "created"@);
    lemma_lookup_then_opt_entry::<String>(acc11, "since"@, x.since, "created"@);
    lemma_lookup_then_opt_entry::<DateRange>(acc12, "created"@, x.created, "created"@);
}

/// The media kinds a search can be narrowed to.
#[derive(Debug, Clone, Copy, PartialEq, Eq, Structural)]
pub enum MediaFilter {
    Image,
    Video,
    Document,
    Audio,
}

impl MediaFilter {
    /// The name of this value on the wire.
    pub open spec fn spec_wire_name(self) -> Seq<char> {
        match self {
            MediaFilter::Image => "image"@,
            MediaFilter::Video => "video"@,
            MediaFilter::Document => "document"@,
            MediaFilter::Audio => "audio"@,
        }
    }

    /// The value named `s` on the wire, if any.
    pub open spec fn spec_from_wire_name(s: Seq<char>) -> Option<Self> {
        if s == "image"@ {
            Some(MediaFilter::Image)
        } else if s == "video"@ {
            Some(MediaFilter::Video)
        } else if s == "document"@ {
            Some(MediaFilter::Document)
        } else if s == "audio"@ {
            Some(MediaFilter::Audio)
        } else {
            None
        }
    }

    /// The name of this value on the wire.
    pub fn wire_name(&self) -> (r: &'static str)
        ensures
            r@ == self.spec_wire_name(),
    {
        match self {
            MediaFilter::Image => "image",
            MediaFilter::Video => "video",
            MediaFilter::Document => "document",
            MediaFilter::Audio => "audio",
        }
    }

    /// The value named `s` on the wire, if any.
    pub fn from_wire_name(s: &str) -> (r: Option<Self>)
        ensures
            r == Self::spec_from_wire_name(s@),
    {
        if text_is(s, "image") {
            Some(MediaFilter::Image)
        } else if text_is(s, "video") {
            Some(MediaFilter::Video)
        } else if text_is(s, "document") {
            Some(MediaFilter::Document)
        } else if text_is(s, "audio") {
            Some(MediaFilter::Audio)
        } else {
            None
        }
    }
}

impl Wire for MediaFilter {
    open spec fn wire_ok(j: JsonModel) -> bool {
        j matches JsonModel::Str(s) && Self::spec_from_wire_name(s) is Some
    }

    open spec fn wire_is(j: JsonModel, x: MediaFilter) -> bool {
        j matches JsonModel::Str(s) && Self::spec_from_wire_name(s) == Some(x)
    }

    open spec fn wire_of(x: MediaFilter) -> JsonModel {
        JsonModel::Str(x.spec_wire_name())
    }

    fn decode(j: &Json) -> (r: Result<MediaFilter, String>) {
        match j {
            Json::Str(s) => match Self::from_wire_name(s.as_str()) {
                Some(v) => Ok(v),
                None => Err(String::from_str("unknown variant of MediaFilter")),
            },
            _ => Err(String::from_str("expected a string")),
        }
    }

    fn encode(&self) -> (r: Json) {
        Json::Str(String::from_str(self.wire_name()))
    }

    proof fn lemma_round_trip(x: Self) {
        reveal_strlit("audio");
        reveal_strlit("document");
        reveal_strlit("image");
        reveal_strlit("video");
        assert("audio"@.len() == 5);
        assert("document"@.len() == 8);
        assert("image"@.len() == 5);
        assert("video"@.len() == 5);
        assert("audio"@[0] != "image"@[0]);
        assert("audio"@[0] != "video"@[0]);
        assert("image"@[0] != "video"@[0]);
        match x {
            MediaFilter::Image => {},
            MediaFilter::Video => {},
            MediaFilter::Document => {},
            MediaFilter::Audio => {},
        }
    }
}

/// An inclusive range of creation dates.
#[derive(Debug, Clone)]
pub struct DateRange {
    pub gte: Option<String>,
    pub lte: Option<String>,
}

impl Wire for DateRange {
    open spec fn wire_ok(j: JsonModel) -> bool {
        &&& j is Object
        &&& opt_ok::<String>(j.field("$gte"@))
        &&& opt_ok::<String>(j.field("$lte"@))
    }

    open spec fn wire_is(j: JsonModel, x: DateRange) -> bool {
        &&& j is Object
        &&& opt_is::<String>(j.field("$gte"@), x.gte)
        &&& opt_is::<String>(j.field("$lte"@), x.lte)
    }

    open spec fn wire_of(x: DateRange) -> JsonModel {
        JsonModel::Object(
            Seq::empty()
                + opt_entry::<String>("$gte"@, x.gte)
                + opt_entry::<String>("$lte"@, x.lte)
        )
    }

    fn decode(j: &Json) -> (r: Result<DateRange, String>) {
        match expect_object(j) {
            Ok(()) => {},
            Err(e) => return Err(e),
        }
        let gte = match decode_opt_field::<String>(j, "$gte") {
            Ok(v) => v,
            Err(e) => return Err(e),
        };
        let lte = match decode_opt_field::<String>(j, "$lte") {
            Ok(v) => v,
            Err(e) => return Err(e),
        };
        Ok(DateRange { gte, lte })
    }

    fn encode(&self) -> (r: Json) {
        let mut fields = no_fields();
        push_opt::<String>(&mut fields, "$gte", &self.gte);
        push_opt::<String>(&mut fields, "$lte", &self.lte);
        object(fields)
    }

    proof fn lemma_round_trip(x: Self) {
        lemma_date_range_gte(x);
        lemma_opt_round_trip::<String>(x.gte);
        lemma_date_range_lte(x);
        lemma_opt_round_trip::<String>(x.lte);
        let j = Self::wire_of(x);
        assert(opt_ok::<String>(j.field("$gte"@)));
        assert(opt_ok::<String>(j.field("$lte"@)));
        assert(opt_is::<String>(j.field("$gte"@), x.gte));
        assert(opt_is::<String>(j.field("$lte"@), x.lte));
        assert forall|y: Self| #[trigger] Self::wire_is(j, y) implies Self::wire_of(y) == j by {
            assert(opt_entry::<String>("$gte"@, y.gte) == opt_entry::<String>("$gte"@, x.gte));
            assert(opt_entry::<String>("$lte"@, y.lte) == opt_entry::<String>("$lte"@, x.lte));
        }
    }
}

/// The `$gte` member of an encoded `DateRange`.
pub(crate) proof fn lemma_date_range_gte(x: DateRange)
    ensures
        DateRange::wire_of(x).field("$gte"@) == Some(match x.gte { Some(y) => <String as Wire>::wire_of(y), None => JsonModel::Null }),
{
    reveal_strlit("$gte");
    assert("$gte"@.len() == 4);
    reveal_strlit("$lte");
    assert("$lte"@[1] != "$gte"@[1]);
    let acc0 = Seq::<(Seq<char>, JsonModel)>::empty();
    lemma_lookup_empty("$gte"@);
    let acc1 = acc0 + opt_entry::<String>("$gte"@, x.gte);
    let acc2 = acc1 + opt_entry::<String>("$lte"@, x.lte);
    lemma_lookup_then_opt_entry::<String>(acc0, "$gte"@, x.gte, "$gte"@);
    lemma_lookup_then_opt_entry::<String>(acc1, "$lte"@, x.lte, "$gte"@);
}

/// The `$lte` member of an encoded `DateRange`.
pub(crate) proof fn lemma_date_range_lte(x: DateRange)
    ensures
        DateRange::wire_of(x).field("$lte"@) == Some(match x.lte { Some(y) => <String as Wire>::wire_of(y), None => JsonModel::Null }),
{
    reveal_strlit("$lte");
    assert("$lte"@.len() == 4);
    reveal_strlit("$gte");
    assert("$gte"@[1] != "$lte"@[1]);
    let acc0 = Seq::<(Seq<char>, JsonModel)>::empty();
    lemma_lookup_empty("$lte"@);
    let acc1 = acc0 + opt_entry::<String>("$gte"@, x.gte);
    let acc2 = acc1 + opt_entry::<String>("$lte"@, x.lte);
    lemma_lookup_then_opt_entry::<String>(acc0, "$gte"@, x.gte, "$lte"@);
    lemma_lookup_then_opt_entry::<String>(acc1, "$lte"@, x.lte, "$lte"@);
}

impl Default for SearchParams {
    /// No filter at all.
    fn default() -> (r: SearchParams)
        ensures
            r.search is None,
            r.collection is None,
            r.tags is None,
            r.page is None,
            r.per_page is None,
            r.sort is None,
            r.important is None,
            r.media is None,
            r.word is None,
            r.please_parse is None,
            r.noparse is None,
            r.since is None,
            r.created is None,
    {
        SearchParams {
            search: None,
            collection: None,
            tags: None,
            page: None,
            per_page: None,
            sort: None,
            important: None,
            media: None,
            word: None,
            please_parse: None,
            noparse: None,
            since: None,
            created: None,
        }
    }
}

} // verus!
