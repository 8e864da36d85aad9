//! Bookmarks and tags.
use crate::json::{Json, JsonModel};
use crate::wire::{lemma_lookup_then_entry, lemma_lookup_then_opt_entry, lemma_lookup_then_skip_entry, lemma_opt_round_trip, lemma_lookup_empty, Wire, req_ok, req_is, opt_ok, opt_is, entry, opt_entry, skip_entry, decode_field, decode_opt_field, push_field, push_opt, push_skip, expect_object, object, no_fields, text_is};
use crate::collection::CollectionRef;
use crate::highlight::Highlight;
use crate::user::UserRef;
use vstd::prelude::*;
use vstd::string::StringExecFns;

verus! {

/// A saved link.
#[derive(Debug, Clone)]
pub struct Bookmark {
    pub id: i64,
    pub title: String,
    pub excerpt: Option<String>,
    pub note: Option<String>,
    pub bookmark_type: BookmarkType,
    pub tags: Vec<String>,
    pub cover: Option<String>,
    pub link: String,
    pub domain: String,
    pub created: String,
    pub last_update: String,
    pub media: Option<Vec<Media>>,
    pub user: UserRef,
    pub collection: CollectionRef,
    pub important: bool,
    pub highlights: Option<Vec<Highlight>>,
    pub reminder: Option<Reminder>,
    pub broken: bool,
    pub cache: Option<CacheInfo>,
    pub file: Option<FileInfo>,
}

impl Wire for Bookmark {
    open spec fn wire_ok(j: JsonModel) -> bool {
        &&& j is Object
        &&& req_ok::<i64>(j.field("_id"@))
        &&& req_ok::<String>(j.field("title"@))
        &&& opt_ok::<String>(j.field("excerpt"@))
        &&& opt_ok::<String>(j.field("note"@))
        &&& req_ok::<BookmarkType>(j.field("type"@))
        &&& req_ok::<Vec<String>>(j.field("tags"@))
        &&& opt_ok::<String>(j.field("cover"@))
        &&& req_ok::<String>(j.field("link"@))
        &&& req_ok::<String>(j.field("domain"@))
        &&& req_ok::<String>(j.field("created"@))
        &&& req_ok::<String>(j.field("lastUpdate"@))
        &&& opt_ok::<Vec<Media>>(j.field("media"@))
        &&& req_ok::<UserRef>(j.field("user"@))
        &&& req_ok::<CollectionRef>(j.field("collection"@))
        &&& req_ok::<bool>(j.field("important"@))
        &&& opt_ok::<Vec<Highlight>>(j.field("highlights"@))
        &&& opt_ok::<Reminder>(j.field("reminder"@))
        &&& req_ok::<bool>(j.field("broken"@))
        &&& opt_ok::<CacheInfo>(j.field("cache"@))
        &&& opt_ok::<FileInfo>(j.field("file"@))
    }

    open spec fn wire_is(j: JsonModel, x: Bookmark) -> bool {
        &&& j is Object
        &&& req_is::<i64>(j.field("_id"@), x.id)
        &&& req_is::<String>(j.field("title"@), x.title)
        &&& opt_is::<String>(j.field("excerpt"@), x.excerpt)
        &&& opt_is::<String>(j.field("note"@), x.note)
        &&& req_is::<BookmarkType>(j.field("type"@), x.bookmark_type)
        &&& req_is::<Vec<String>>(j.field("tags"@), x.tags)
        &&& opt_is::<String>(j.field("cover"@), x.cover)
        &&& req_is::<String>(j.field("link"@), x.link)
        &&& req_is::<String>(j.field("domain"@), x.domain)
        &&& req_is::<String>(j.field("created"@), x.created)
        &&& req_is::<String>(j.field("lastUpdate"@), x.last_update)
        &&& opt_is::<Vec<Media>>(j.field("media"@), x.media)
        &&& req_is::<UserRef>(j.field("user"@), x.user)
        &&& req_is::<CollectionRef>(j.field("collection"@), x.collection)
        &&& req_is::<bool>(j.field("important"@), x.important)
        &&& opt_is::<Vec<Highlight>>(j.field("highlights"@), x.highlights)
        &&& opt_is::<Reminder>(j.field("reminder"@), x.reminder)
        &&& req_is::<bool>(j.field("broken"@), x.broken)
        &&& opt_is::<CacheInfo>(j.field("cache"@), x.cache)
        &&& opt_is::<FileInfo>(j.field("file"@), x.file)
    }

    open spec fn wire_of(x: Bookmark) -> JsonModel {
        JsonModel::Object(
            Seq::empty()
                + entry::<i64>("_id"@, x.id)
                + entry::<String>("title"@, x.title)
                + opt_entry::<String>("excerpt"@, x.excerpt)
                + opt_entry::<String>("note"@, x.note)
                + entry::<BookmarkType>("type"@, x.bookmark_type)
                + entry::<Vec<String>>("tags"@, x.tags)
                + opt_entry::<String>("cover"@, x.cover)
                + entry::<String>("link"@, x.link)
                + entry::<String>("domain"@, x.domain)
                + entry::<String>("created"@, x.created)
                + entry::<String>("lastUpdate"@, x.last_update)
                + opt_entry::<Vec<Media>>("media"@, x.media)
                + entry::<UserRef>("user"@, x.user)
                + entry::<CollectionRef>("collection"@, x.collection)
                + entry::<bool>("important"@, x.important)
                + opt_entry::<Vec<Highlight>>("highlights"@, x.highlights)
                + opt_entry::<Reminder>("reminder"@, x.reminder)
                + entry::<bool>("broken"@, x.broken)
                + opt_entry::<CacheInfo>("cache"@, x.cache)
                + skip_entry::<FileInfo>("file"@, x.file)
        )
    }

    fn decode(j: &Json) -> (r: Result<Bookmark, String>) {
        match expect_object(j) {
            Ok(()) => {},
            Err(e) => return Err(e),
        }
        let id = match decode_field::<i64>(j, "_id") {
            Ok(v) => v,
            Err(e) => return Err(e),
        };
        let title = match decode_field::<String>(j, "title") {
            Ok(v) => v,
            Err(e) => return Err(e),
        };
        let excerpt = match decode_opt_field::<String>(j, "excerpt") {
            Ok(v) => v,
            Err(e) => return Err(e),
        };
        let note = match decode_opt_field::<String>(j, "note") {
            Ok(v) => v,
            Err(e) => return Err(e),
        };
        let bookmark_type = match decode_field::<BookmarkType>(j, "type") {
            Ok(v) => v,
            Err(e) => return Err(e),
        };
        let tags = match decode_field::<Vec<String>>(j, "tags") {
            Ok(v) => v,
            Err(e) => return Err(e),
        };
        let cover = match decode_opt_field::<String>(j, "cover") {
            Ok(v) => v,
            Err(e) => return Err(e),
        };
        let link = match decode_field::<String>(j, "link") {
            Ok(v) => v,
            Err(e) => return Err(e),
        };
        let domain = match decode_field::<String>(j, "domain") {
            Ok(v) => v,
            Err(e) => return Err(e),
        };
        let created = match decode_field::<String>(j, "created") {
            Ok(v) => v,
            Err(e) => return Err(e),
        };
        let last_update = match decode_field::<String>(j, "lastUpdate") {
            Ok(v) => v,
            Err(e) => return Err(e),
        };
        let media = match decode_opt_field::<Vec<Media>>(j, "media") {
            Ok(v) => v,
            Err(e) => return Err(e),
        };
        let user = match decode_field::<UserRef>(j, "user") {
            Ok(v) => v,
            Err(e) => return Err(e),
        };
        let collection = match decode_field::<CollectionRef>(j, "collection") {
            Ok(v) => v,
            Err(e) => return Err(e),
        };
        let important = match decode_field::<bool>(j, "important") {
            Ok(v) => v,
            Err(e) => return Err(e),
        };
        let highlights = match decode_opt_field::<Vec<Highlight>>(j, "highlights") {
            Ok(v) => v,
            Err(e) => return Err(e),
        };
        let reminder = match decode_opt_field::<Reminder>(j, "reminder") {
            Ok(v) => v,
            Err(e) => return Err(e),
        };
        let broken = match decode_field::<bool>(j, "broken") {
            Ok(v) => v,
            Err(e) => return Err(e),
        };
        let cache = match decode_opt_field::<CacheInfo>(j, "cache") {
            Ok(v) => v,
            Err(e) => return Err(e),
        };
        let file = match decode_opt_field::<FileInfo>(j, "file") {
            Ok(v) => v,
            Err(e) => return Err(e),
        };
        Ok(Bookmark { id, title, excerpt, note, bookmark_type, tags, cover, link, domain, created, last_update, media, user, collection, important, highlights, reminder, broken, cache, file })
    }

    fn encode(&self) -> (r: Json) {
        let mut fields = no_fields();
        push_field::<i64>(&mut fields, "_id", &self.id);
        push_field::<String>(&mut fields, "title", &self.title);
        push_opt::<String>(&mut fields, "excerpt", &self.excerpt);
        push_opt::<String>(&mut fields, "note", &self.note);
        push_field::<BookmarkType>(&mut fields, "type", &self.bookmark_type);
        push_field::<Vec<String>>(&mut fields, "tags", &self.tags);
        push_opt::<String>(&mut fields, "cover", &self.cover);
        push_field::<String>(&mut fields, "link", &self.link);
        push_field::<String>(&mut fields, "domain", &self.domain);
        push_field::<String>(&mut fields, "created", &self.created);
        push_field::<String>(&mut fields, "lastUpdate", &self.last_update);
        push_opt::<Vec<Media>>(&mut fields, "media", &self.media);
        push_field::<UserRef>(&mut fields, "user", &self.user);
        push_field::<CollectionRef>(&mut fields, "collection", &self.collection);
        push_field::<bool>(&mut fields, "important", &self.important);
        push_opt::<Vec<Highlight>>(&mut fields, "highlights", &self.highlights);
        push_opt::<Reminder>(&mut fields, "reminder", &self.reminder);
        push_field::<bool>(&mut fields, "broken", &self.broken);
        push_opt::<CacheInfo>(&mut fields, "cache", &self.cache);
        push_skip::<FileInfo>(&mut fields, "file", &self.file);
        object(fields)
    }

    proof fn lemma_round_trip(x: Self) {
        lemma_bookmark_id(x);
        <i64 as Wire>::lemma_round_trip(x.id);
        lemma_bookmark_title(x);
        <String as Wire>::lemma_round_trip(x.title);
        lemma_bookmark_excerpt(x);
        lemma_opt_round_trip::<String>(x.excerpt);
        lemma_bookmark_note(x);
        lemma_opt_round_trip::<String>(x.note);
        lemma_bookmark_bookmark_type(x);
        <BookmarkType as Wire>::lemma_round_trip(x.bookmark_type);
        lemma_bookmark_tags(x);
        <Vec<String> as Wire>::lemma_round_trip(x.tags);
        lemma_bookmark_cover(x);
        lemma_opt_round_trip::<String>(x.cover);
        lemma_bookmark_link(x);
        <String as Wire>::lemma_round_trip(x.link);
        lemma_bookmark_domain(x);
        <String as Wire>::lemma_round_trip(x.domain);
        lemma_bookmark_created(x);
        <String as Wire>::lemma_round_trip(x.created);
        lemma_bookmark_last_update(x);
        <String as Wire>::lemma_round_trip(x.last_update);
        lemma_bookmark_media(x);
        lemma_opt_round_trip::<Vec<Media>>(x.media);
        lemma_bookmark_user(x);
        <UserRef as Wire>::lemma_round_trip(x.user);
        lemma_bookmark_collection(x);
        <CollectionRef as Wire>::lemma_round_trip(x.collection);
        lemma_bookmark_important(x);
        <bool as Wire>::lemma_round_trip(x.important);
        lemma_bookmark_highlights(x);
        lemma_opt_round_trip::<Vec<Highlight>>(x.highlights);
        lemma_bookmark_reminder(x);
        lemma_opt_round_trip::<Reminder>(x.reminder);
        lemma_bookmark_broken(x);
        <bool as Wire>::lemma_round_trip(x.broken);
        lemma_bookmark_cache(x);
        lemma_opt_round_trip::<CacheInfo>(x.cache);
        lemma_bookmark_file(x);
        lemma_opt_round_trip::<FileInfo>(x.file);
        let j = Self::wire_of(x);
        assert(req_ok::<i64>(j.field("_id"@)));
        assert(req_ok::<String>(j.field("title"@)));
        assert(opt_ok::<String>(j.field("excerpt"@)));
        assert(opt_ok::<String>(j.field("note"@)));
        assert(req_ok::<BookmarkType>(j.field("type"@)));
        assert(req_ok::<Vec<String>>(j.field("tags"@)));
        assert(opt_ok::<String>(j.field("cover"@)));
        assert(req_ok::<String>(j.field("link"@)));
        assert(req_ok::<String>(j.field("domain"@)));
        assert(req_ok::<String>(j.field("created"@)));
        assert(req_ok::<String>(j.field("lastUpdate"@)));
        assert(opt_ok::<Vec<Media>>(j.field("media"@)));
        assert(req_ok::<UserRef>(j.field("user"@)));
        assert(req_ok::<CollectionRef>(j.field("collection"@)));
        assert(req_ok::<bool>(j.field("important"@)));
        assert(opt_ok::<Vec<Highlight>>(j.field("highlights"@)));
        assert(opt_ok::<Reminder>(j.field("reminder"@)));
        assert(req_ok::<bool>(j.field("broken"@)));
        assert(opt_ok::<CacheInfo>(j.field("cache"@)));
        assert(opt_ok::<FileInfo>(j.field("file"@)));
        assert(req_is::<i64>(j.field("_id"@), x.id));
        assert(req_is::<String>(j.field("title"@), x.title));
        assert(opt_is::<String>(j.field("excerpt"@), x.excerpt));
        assert(opt_is::<String>(j.field("note"@), x.note));
        assert(req_is::<BookmarkType>(j.field("type"@), x.bookmark_type));
        assert(req_is::<Vec<String>>(j.field("tags"@), x.tags));
        assert(opt_is::<String>(j.field("cover"@), x.cover));
        assert(req_is::<String>(j.field("link"@), x.link));
        assert(req_is::<String>(j.field("domain"@), x.domain));
        assert(req_is::<String>(j.field("created"@), x.created));
        assert(req_is::<String>(j.field("lastUpdate"@), x.last_update));
        assert(opt_is::<Vec<Media>>(j.field("media"@), x.media));
        assert(req_is::<UserRef>(j.field("user"@), x.user));
        assert(req_is::<CollectionRef>(j.field("collection"@), x.collection));
        assert(req_is::<bool>(j.field("important"@), x.important));
        assert(opt_is::<Vec<Highlight>>(j.field("highlights"@), x.highlights));
        assert(opt_is::<Reminder>(j.field("reminder"@), x.reminder));
        assert(req_is::<bool>(j.field("broken"@), x.broken));
        assert(opt_is::<CacheInfo>(j.field("cache"@), x.cache));
        assert(opt_is::<FileInfo>(j.field("file"@), x.file));
        assert forall|y: Self| #[trigger] Self::wire_is(j, y) implies Self::wire_of(y) == j by {
            assert(entry::<i64>("_id"@, y.id) == entry::<i64>("_id"@, x.id));
            assert(entry::<String>("title"@, y.title) == entry::<String>("title"@, x.title));
            assert(opt_entry::<String>("excerpt"@, y.excerpt) == opt_entry::<String>("excerpt"@, x.excerpt));
            assert(opt_entry::<String>("note"@, y.note) == opt_entry::<String>("note"@, x.note));
            assert(entry::<BookmarkType>("type"@, y.bookmark_type) == entry::<BookmarkType>("type"@, x.bookmark_type));
            assert(entry::<Vec<String>>("tags"@, y.tags) == entry::<Vec<String>>("tags"@, x.tags));
            assert(opt_entry::<String>("cover"@, y.cover) == opt_entry::<String>("cover"@, x.cover));
            assert(entry::<String>("link"@, y.link) == entry::<String>("link"@, x.link));
            assert(entry::<String>("domain"@, y.domain) == entry::<String>("domain"@, x.domain));
            assert(entry::<String>("created"@, y.created) == entry::<String>("created"@, x.created));
            assert(entry::<String>("lastUpdate"@, y.last_update) == entry::<String>("lastUpdate"@, x.last_update));
            assert(opt_entry::<Vec<Media>>("media"@, y.media) == opt_entry::<Vec<Media>>("media"@, x.media));
            assert(entry::<UserRef>("user"@, y.user) == entry::<UserRef>("user"@, x.user));
            assert(entry::<CollectionRef>("collection"@, y.collection) == entry::<CollectionRef>("collection"@, x.collection));
            assert(entry::<bool>("important"@, y.important) == entry::<bool>("important"@, x.important));
            assert(opt_entry::<Vec<Highlight>>("highlights"@, y.highlights) == opt_entry::<Vec<Highlight>>("highlights"@, x.highlights));
            assert(opt_entry::<Reminder>("reminder"@, y.reminder) == opt_entry::<Reminder>("reminder"@, x.reminder));
            assert(entry::<bool>("broken"@, y.broken) == entry::<bool>("broken"@, x.broken));
            assert(opt_entry::<CacheInfo>("cache"@, y.cache) == opt_entry::<CacheInfo>("cache"@, x.cache));
            assert(skip_entry::<FileInfo>("file"@, y.file) == skip_entry::<FileInfo>("file"@, x.file));
        }
    }
}

/// The `_id` member of an encoded `Bookmark`.
pub(crate) proof fn lemma_bookmark_id(x: Bookmark)
    ensures
        Bookmark::wire_of(x).field("_id"@) == Some(<i64 as Wire>::wire_of(x.id)),
{
    reveal_strlit("_id");
    assert("_id"@.len() == 3);
    reveal_strlit("title");
    assert("title"@.len() == 5);
    reveal_strlit("excerpt");
    assert("excerpt"@.len() == 7);
    reveal_strlit("note");
    assert("note"@.len() == 4);
    reveal_strlit("type");
    assert("type"@.len() == 4);
    reveal_strlit("tags");
    assert("tags"@.len() == 4);
    reveal_strlit("cover");
    assert("cover"@.len() == 5);
    reveal_strlit("link");
    assert("link"@.len() == 4);
    reveal_strlit("domain");
    assert("domain"@.len() == 6);
    reveal_strlit("created");
    assert("created"@.len() == 7);
    reveal_strlit("lastUpdate");
    assert("lastUpdate"@.len() == 10);
    reveal_strlit("media");
    assert("media"@.len() == 5);
    reveal_strlit("user");
    assert("user"@.len() == 4);
    reveal_strlit("collection");
    assert("collection"@.len() == 10);
    reveal_strlit("important");
    assert("important"@.len() == 9);
    reveal_strlit("highlights");
    assert("highlights"@.len() == 10);
    reveal_strlit("reminder");
    assert("reminder"@.len() == 8);
    reveal_strlit("broken");
    assert("broken"@.len() == 6);
    reveal_strlit("cache");
    assert("cache"@.len() == 5);
    reveal_strlit("file");
    assert("file"@.len() == 4);
    let acc0 = Seq::<(Seq<char>, JsonModel)>::empty();
    lemma_lookup_empty("_id"@);
    let acc1 = acc0 + entry::<i64>("_id"@, x.id);
    let acc2 = acc1 + entry::<String>("title"@, x.title);
    let acc3 = acc2 + opt_entry::<String>("excerpt"@, x.excerpt);
    let acc4 = acc3 + opt_entry::<String>("note"@, x.note);
    let acc5 = acc4 + entry::<BookmarkType>("type"@, x.bookmark_type);
    let acc6 = acc5 + entry::<Vec<String>>("tags"@, x.tags);
    let acc7 = acc6 + opt_entry::<String>("cover"@, x.cover);
    let acc8 = acc7 + entry::<String>("link"@, x.link);
    let acc9 = acc8 + entry::<String>("domain"@, x.domain);
    let acc10 = acc9 + entry::<String>("created"@, x.created);
    let acc11 = acc10 + entry::<String>("lastUpdate"@, x.last_update);
    let acc12 = acc11 + opt_entry::<Vec<Media>>("media"@, x.media);
    let acc13 = acc12 + entry::<UserRef>("user"@, x.user);
    let acc14 = acc13 + entry::<CollectionRef>("collection"@, x.collection);
    let acc15 = acc14 + entry::<bool>("important"@, x.important);
    let acc16 = acc15 + opt_entry::<Vec<Highlight>>("highlights"@, x.highlights);
    let acc17 = acc16 + opt_entry::<Reminder>("reminder"@, x.reminder);
    let acc18 = acc17 + entry::<bool>("broken"@, x.broken);
    let acc19 = acc18 + opt_entry::<CacheInfo>("cache"@, x.cache);
    let acc20 = acc19 + skip_entry::<FileInfo>("file"@, x.file);
    lemma_lookup_then_entry::<i64>(acc0, "_id"@, x.id, "_id"@);
    lemma_lookup_then_entry::<String>(acc1, "title"@, x.title, "_id"@);
    lemma_lookup_then_opt_entry::<String>(acc2, "excerpt"@, x.excerpt, "_id"@);
    lemma_lookup_then_opt_entry::<String>(acc3, "note"@, x.note, "_id"@);
    lemma_lookup_then_entry::<BookmarkType>(acc4, "type"@, x.bookmark_type, "_id"@);
    lemma_lookup_then_entry::<Vec<String>>(acc5, "tags"@, x.tags, "_id"@);
    lemma_lookup_then_opt_entry::<String>(acc6, "cover"@, x.cover, "_id"@);
    lemma_lookup_then_entry::<String>(acc7, "link"@, x.link, "_id"@);
    lemma_lookup_then_entry::<String>(acc8, "domain"@, x.domain, "_id"@);
    lemma_lookup_then_entry::<String>(acc9, "created"@, x.created, "_id"@);
    lemma_lookup_then_entry::<String>(acc10, "lastUpdate"@, x.last_update, "_id"@);
    lemma_lookup_then_opt_entry::<Vec<Media>>(acc11, "media"@, x.media, "_id"@);
    lemma_lookup_then_entry::<UserRef>(acc12, "user"@, x.user, "_id"@);
    lemma_lookup_then_entry::<CollectionRef>(acc13, "collection"@, x.collection, "_id"@);
    lemma_lookup_then_entry::<bool>(acc14, "important"@, x.important, "_id"@);
    lemma_lookup_then_opt_entry::<Vec<Highlight>>(acc15, "highlights"@, x.highlights, "_id"@);
    lemma_lookup_then_opt_entry::<Reminder>(acc16, "reminder"@, x.reminder, "_id"@);
    lemma_lookup_then_entry::<bool>(acc17, "broken"@, x.broken, "_id"@);
    lemma_lookup_then_opt_entry::<CacheInfo>(acc18, "cache"@, x.cache, "_id"@);
    lemma_lookup_then_skip_entry::<FileInfo>(acc19, "file"@, x.file, "_id"@);
}

/// The `title` member of an encoded `Bookmark`.
pub(crate) proof fn lemma_bookmark_title(x: Bookmark)
    ensures
        Bookmark::wire_of(x).field("title"@) == Some(<String as Wire>::wire_of(x.title)),
{
    reveal_strlit("title");
    assert("title"@.len() == 5);
    reveal_strlit("_id");
    assert("_id"@.len() == 3);
    reveal_strlit("excerpt");
    assert("excerpt"@.len() == 7);
    reveal_strlit("note");
    assert("note"@.len() == 4);
    reveal_strlit("type");
    assert("type"@.len() == 4);
    reveal_strlit("tags");
    assert("tags"@.len() == 4);
    reveal_strlit("cover");
    assert("cover"@[0] != "title"@[0]);
    reveal_strlit("link");
    assert("link"@.len() == 4);
    reveal_strlit("domain");
    assert("domain"@.len() == 6);
    reveal_strlit("created");
    assert("created"@.len() == 7);
    reveal_strlit("lastUpdate");
    assert("lastUpdate"@.len() == 10);
    reveal_strlit("media");
    assert("media"@[0] != "title"@[0]);
    reveal_strlit("user");
    assert("user"@.len() == 4);
    reveal_strlit("collection");
    assert("collection"@.len() == 10);
    reveal_strlit("important");
    assert("important"@.len() == 9);
    reveal_strlit("highlights");
    assert("highlights"@.len() == 10);
    reveal_strlit("reminder");
    assert("reminder"@.len() == 8);
    reveal_strlit("broken");
    assert("broken"@.len() == 6);
    reveal_strlit("cache");
    assert("cache"@[0] != "title"@[0]);
    reveal_strlit("file");
    assert("file"@.len() == 4);
    let acc0 = Seq::<(Seq<char>, JsonModel)>::empty();
    lemma_lookup_empty("title"@);
    let acc1 = acc0 + entry::<i64>("_id"@, x.id);
    let acc2 = acc1 + entry::<String>("title"@, x.title);
    let acc3 = acc2 + opt_entry::<String>("excerpt"@, x.excerpt);
    let acc4 = acc3 + opt_entry::<String>("note"@, x.note);
    let acc5 = acc4 + entry::<BookmarkType>("type"@, x.bookmark_type);
    let acc6 = acc5 + entry::<Vec<String>>("tags"@, x.tags);
    let acc7 = acc6 + opt_entry::<String>("cover"@, x.cover);
    let acc8 = acc7 + entry::<String>("link"@, x.link);
    let acc9 = acc8 + entry::<String>("domain"@, x.domain);
    let acc10 = acc9 + entry::<String>("created"@, x.created);
    let acc11 = acc10 + entry::<String>("lastUpdate"@, x.last_update);
    let acc12 = acc11 + opt_entry::<Vec<Media>>("media"@, x.media);
    let acc13 = acc12 + entry::<UserRef>("user"@, x.user);
    let acc14 = acc13 + entry::<CollectionRef>("collection"@, x.collection);
    let acc15 = acc14 + entry::<bool>("important"@, x.important);
    let acc16 = acc15 + opt_entry::<Vec<Highlight>>("highlights"@, x.highlights);
    let acc17 = acc16 + opt_entry::<Reminder>("reminder"@, x.reminder);
    let acc18 = acc17 + entry::<bool>("broken"@, x.broken);
    let acc19 = acc18 + opt_entry::<CacheInfo>("cache"@, x.cache);
    let acc20 = acc19 + skip_entry::<FileInfo>("file"@, x.file);
    lemma_lookup_then_entry::<i64>(acc0, "_id"@, x.id, "title"@);
    lemma_lookup_then_entry::<String>(acc1, "title"@, x.title, "title"@);
    lemma_lookup_then_opt_entry::<String>(acc2, "excerpt"@, x.excerpt, "title"@);
    lemma_lookup_then_opt_entry::<String>(acc3, "note"@, x.note, "title"@);
    lemma_lookup_then_entry::<BookmarkType>(acc4, "type"@, x.bookmark_type, "title"@);
    lemma_lookup_then_entry::<Vec<String>>(acc5, "tags"@, x.tags, "title"@);
    lemma_lookup_then_opt_entry::<String>(acc6, "cover"@, x.cover, "title"@);
    lemma_lookup_then_entry::<String>(acc7, "link"@, x.link, "title"@);
    lemma_lookup_then_entry::<String>(acc8, "domain"@, x.domain, "title"@);
    lemma_lookup_then_entry::<String>(acc9, "created"@, x.created, "title"@);
    lemma_lookup_then_entry::<String>(acc10, "lastUpdate"@, x.last_update, "title"@);
    lemma_lookup_then_opt_entry::<Vec<Media>>(acc11, "media"@, x.media, "title"@);
    lemma_lookup_then_entry::<UserRef>(acc12, "user"@, x.user, "title"@);
    lemma_lookup_then_entry::<CollectionRef>(acc13, "collection"@, x.collection, "title"@);
    lemma_lookup_then_entry::<bool>(acc14, "important"@, x.important, "title"@);
    lemma_lookup_then_opt_entry::<Vec<Highlight>>(acc15, "highlights"@, x.highlights, "title"@);
    lemma_lookup_then_opt_entry::<Reminder>(acc16, "reminder"@, x.reminder, "title"@);
    lemma_lookup_then_entry::<bool>(acc17, "broken"@, x.broken, "title"@);
    lemma_lookup_then_opt_entry::<CacheInfo>(acc18, "cache"@, x.cache, "title"@);
    lemma_lookup_then_skip_entry::<FileInfo>(acc19, "file"@, x.file, "title"@);
}

/// The `excerpt` member of an encoded `Bookmark`.
pub(crate) proof fn lemma_bookmark_excerpt(x: Bookmark)
    ensures
        Bookmark::wire_of(x).field("excerpt"@) == Some(match x.excerpt { Some(y) => <String as Wire>::wire_of(y), None => JsonModel::Null }),
{
    reveal_strlit("excerpt");
    assert("excerpt"@.len() == 7);
    reveal_strlit("_id");
    assert("_id"@.len() == 3);
    reveal_strlit("title");
    assert("title"@.len() == 5);
    reveal_strlit("note");
    assert("note"@.len() == 4);
    reveal_strlit("type");
    assert("type"@.len() == 4);
    reveal_strlit("tags");
    assert("tags"@.len() == 4);
    reveal_strlit("cover");
    assert("cover"@.len() == 5);
    reveal_strlit("link");
    assert("link"@.len() == 4);
    reveal_strlit("domain");
    assert("domain"@.len() == 6);
    reveal_strlit("created");
    assert("created"@[0] != "excerpt"@[0]);
    reveal_strlit("lastUpdate");
    assert("lastUpdate"@.len() == 10);
    reveal_strlit("media");
    assert("media"@.len() == 5);
    reveal_strlit("user");
    assert("user"@.len() == 4);
    reveal_strlit("collection");
    assert("collection"@.len() == 10);
    reveal_strlit("important");
    assert("important"@.len() == 9);
    reveal_strlit("highlights");
    assert("highlights"@.len() == 10);
    reveal_strlit("reminder");
    assert("reminder"@.len() == 8);
    reveal_strlit("broken");
    assert("broken"@.len() == 6);
    reveal_strlit("cache");
    assert("cache"@.len() == 5);
    reveal_strlit("file");
    assert("file"@.len() == 4);
    let acc0 = Seq::<(Seq<char>, JsonModel)>::empty();
    lemma_lookup_empty("excerpt"@);
    let acc1 = acc0 + entry::<i64>("_id"@, x.id);
    let acc2 = acc1 + entry::<String>("title"@, x.title);
    let acc3 = acc2 + opt_entry::<String>("excerpt"@, x.excerpt);
    let acc4 = acc3 + opt_entry::<String>("note"@, x.note);
    let acc5 = acc4 + entry::<BookmarkType>("type"@, x.bookmark_type);
    let acc6 = acc5 + entry::<Vec<String>>("tags"@, x.tags);
    let acc7 = acc6 + opt_entry::<String>("cover"@, x.cover);
    let acc8 = acc7 + entry::<String>("link"@, x.link);
    let acc9 = acc8 + entry::<String>("domain"@, x.domain);
    let acc10 = acc9 + entry::<String>("created"@, x.created);
    let acc11 = acc10 + entry::<String>("lastUpdate"@, x.last_update);
    let acc12 = acc11 + opt_entry::<Vec<Media>>("media"@, x.media);
    let acc13 = acc12 + entry::<UserRef>("user"@, x.user);
    let acc14 = acc13 + entry::<CollectionRef>("collection"@, x.collection);
    let acc15 = acc14 + entry::<bool>("important"@, x.important);
    let acc16 = acc15 + opt_entry::<Vec<Highlight>>("highlights"@, x.highlights);
    let acc17 = acc16 + opt_entry::<Reminder>("reminder"@, x.reminder);
    let acc18 = acc17 + entry::<bool>("broken"@, x.broken);
    let acc19 = acc18 + opt_entry::<CacheInfo>("cache"@, x.cache);
    let acc20 = acc19 + skip_entry::<FileInfo>("file"@, x.file);
    lemma_lookup_then_entry::<i64>(acc0, "_id"@, x.id, "excerpt"@);
    lemma_lookup_then_entry::<String>(acc1, "title"@, x.title, "excerpt"@);
    lemma_lookup_then_opt_entry::<String>(acc2, "excerpt"@, x.excerpt, "excerpt"@);
    lemma_lookup_then_opt_entry::<String>(acc3, "note"@, x.note, "excerpt"@);
    lemma_lookup_then_entry::<BookmarkType>(acc4, "type"@, x.bookmark_type, "excerpt"@);
    lemma_lookup_then_entry::<Vec<String>>(acc5, "tags"@, x.tags, "excerpt"@);
    lemma_lookup_then_opt_entry::<String>(acc6, "cover"@, x.cover, "excerpt"@);
    lemma_lookup_then_entry::<String>(acc7, "link"@, x.link, "excerpt"@);
    lemma_lookup_then_entry::<String>(acc8, "domain"@, x.domain, "excerpt"@);
    lemma_lookup_then_entry::<String>(acc9, "created"@, x.created, "excerpt"@);
    lemma_lookup_then_entry::<String>(acc10, "lastUpdate"@, x.last_update, "excerpt"@);
    lemma_lookup_then_opt_entry::<Vec<Media>>(acc11, "media"@, x.media, "excerpt"@);
    lemma_lookup_then_entry::<UserRef>(acc12, "user"@, x.user, "excerpt"@);
    lemma_lookup_then_entry::<CollectionRef>(acc13, "collection"@, x.collection, "excerpt"@);
    lemma_lookup_then_entry::<bool>(acc14, "important"@, x.important, "excerpt"@);
    lemma_lookup_then_opt_entry::<Vec<Highlight>>(acc15, "highlights"@, x.highlights, "excerpt"@);
    lemma_lookup_then_opt_entry::<Reminder>(acc16, "reminder"@, x.reminder, "excerpt"@);
    lemma_lookup_then_entry::<bool>(acc17, "broken"@, x.broken, "excerpt"@);
    lemma_lookup_then_opt_entry::<CacheInfo>(acc18, "cache"@, x.cache, "excerpt"@);
    lemma_lookup_then_skip_entry::<FileInfo>(acc19, "file"@, x.file, "excerpt"@);
}

/// The `note` member of an encoded `Bookmark`.
pub(crate) proof fn lemma_bookmark_note(x: Bookmark)
    ensures
        Bookmark::wire_of(x).field("note"@) == Some(match x.note { Some(y) => <String as Wire>::wire_of(y), None => JsonModel::Null }),
{
    reveal_strlit("note");
    assert("note"@.len() == 4);
    reveal_strlit("_id");
    assert("_id"@.len() == 3);
    reveal_strlit("title");
    assert("title"@.len() == 5);
    reveal_strlit("excerpt");
    assert("excerpt"@.len() == 7);
    reveal_strlit("type");
    assert("type"@[0] != "note"@[0]);
    reveal_strlit("tags");
    assert("tags"@[0] != "note"@[0]);
    reveal_strlit("cover");
    assert("cover"@.len() == 5);
    reveal_strlit("link");
    assert("link"@[0] != "note"@[0]);
    reveal_strlit("domain");
    assert("domain"@.len() == 6);
    reveal_strlit("created");
    assert("created"@.len() == 7);
    reveal_strlit("lastUpdate");
    assert("lastUpdate"@.len() == 10);
    reveal_strlit("media");
    assert("media"@.len() == 5);
    reveal_strlit("user");
    assert("user"@[0] != "note"@[0]);
    reveal_strlit("collection");
    assert("collection"@.len() == 10);
    reveal_strlit("important");
    assert("important"@.len() == 9);
    reveal_strlit("highlights");
    assert("highlights"@.len() == 10);
    reveal_strlit("reminder");
    assert("reminder"@.len() == 8);
    reveal_strlit("broken");
    assert("broken"@.len() == 6);
    reveal_strlit("cache");
    assert("cache"@.len() == 5);
    reveal_strlit("file");
    assert("file"@[0] != "note"@[0]);
    let acc0 = Seq::<(Seq<char>, JsonModel)>::empty();
    lemma_lookup_empty("note"@);
    let acc1 = acc0 + entry::<i64>("_id"@, x.id);
    let acc2 = acc1 + entry::<String>("title"@, x.title);
    let acc3 = acc2 + opt_entry::<String>("excerpt"@, x.excerpt);
    let acc4 = acc3 + opt_entry::<String>("note"@, x.note);
    let acc5 = acc4 + entry::<BookmarkType>("type"@, x.bookmark_type);
    let acc6 = acc5 + entry::<Vec<String>>("tags"@, x.tags);
    let acc7 = acc6 + opt_entry::<String>("cover"@, x.cover);
    let acc8 = acc7 + entry::<String>("link"@, x.link);
    let acc9 = acc8 + entry::<String>("domain"@, x.domain);
    let acc10 = acc9 + entry::<String>("created"@, x.created);
    let acc11 = acc10 + entry::<String>("lastUpdate"@, x.last_update);
    let acc12 = acc11 + opt_entry::<Vec<Media>>("media"@, x.media);
    let acc13 = acc12 + entry::<UserRef>("user"@, x.user);
    let acc14 = acc13 + entry::<CollectionRef>("collection"@, x.collection);
    let acc15 = acc14 + entry::<bool>("important"@, x.important);
    let acc16 = acc15 + opt_entry::<Vec<Highlight>>("highlights"@, x.highlights);
    let acc17 = acc16 + opt_entry::<Reminder>("reminder"@, x.reminder);
    let acc18 = acc17 + entry::<bool>("broken"@, x.broken);
    let acc19 = acc18 + opt_entry::<CacheInfo>("cache"@, x.cache);
    let acc20 = acc19 + skip_entry::<FileInfo>("file"@, x.file);
    lemma_lookup_then_entry::<i64>(acc0, "_id"@, x.id, "note"@);
    lemma_lookup_then_entry::<String>(acc1, "title"@, x.title, "note"@);
    lemma_lookup_then_opt_entry::<String>(acc2, "excerpt"@, x.excerpt, "note"@);
    lemma_lookup_then_opt_entry::<String>(acc3, "note"@, x.note, "note"@);
    lemma_lookup_then_entry::<BookmarkType>(acc4, "type"@, x.bookmark_type, "note"@);
    lemma_lookup_then_entry::<Vec<String>>(acc5, "tags"@, x.tags, "note"@);
    lemma_lookup_then_opt_entry::<String>(acc6, "cover"@, x.cover, "note"@);
    lemma_lookup_then_entry::<String>(acc7, "link"@, x.link, "note"@);
    lemma_lookup_then_entry::<String>(acc8, "domain"@, x.domain, "note"@);
    lemma_lookup_then_entry::<String>(acc9, "created"@, x.created, "note"@);
    lemma_lookup_then_entry::<String>(acc10, "lastUpdate"@, x.last_update, "note"@);
    lemma_lookup_then_opt_entry::<Vec<Media>>(acc11, "media"@, x.media, "note"@);
    lemma_lookup_then_entry::<UserRef>(acc12, "user"@, x.user, "note"@);
    lemma_lookup_then_entry::<CollectionRef>(acc13, "collection"@, x.collection, "note"@);
    lemma_lookup_then_entry::<bool>(acc14, "important"@, x.important, "note"@);
    lemma_lookup_then_opt_entry::<Vec<Highlight>>(acc15, "highlights"@, x.highlights, "note"@);
    lemma_lookup_then_opt_entry::<Reminder>(acc16, "reminder"@, x.reminder, "note"@);
    lemma_lookup_then_entry::<bool>(acc17, "broken"@, x.broken, "note"@);
    lemma_lookup_then_opt_entry::<CacheInfo>(acc18, "cache"@, x.cache, "note"@);
    lemma_lookup_then_skip_entry::<FileInfo>(acc19, "file"@, x.file, "note"@);
}

/// The `type` member of an encoded `Bookmark`.
pub(crate) proof fn lemma_bookmark_bookmark_type(x: Bookmark)
    ensures
        Bookmark::wire_of(x).field("type"@) == Some(<BookmarkType as Wire>::wire_of(x.bookmark_type)),
{
    reveal_strlit("type");
    assert("type"@.len() == 4);
    reveal_strlit("_id");
    assert("_id"@.len() == 3);
    reveal_strlit("title");
    assert("title"@.len() == 5);
    reveal_strlit("excerpt");
    assert("excerpt"@.len() == 7);
    reveal_strlit("note");
    assert("note"@[0] != "type"@[0]);
    reveal_strlit("tags");
    assert("tags"@[1] != "type"@[1]);
    reveal_strlit("cover");
    assert("cover"@.len() == 5);
    reveal_strlit("link");
    assert("link"@[0] != "type"@[0]);
    reveal_strlit("domain");
    assert("domain"@.len() == 6);
    reveal_strlit("created");
    assert("created"@.len() == 7);
    reveal_strlit("lastUpdate");
    assert("lastUpdate"@.len() == 10);
    reveal_strlit("media");
    assert("media"@.len() == 5);
    reveal_strlit("user");
    assert("user"@[0] != "type"@[0]);
    reveal_strlit("collection");
    assert("collection"@.len() == 10);
    reveal_strlit("important");
    assert("important"@.len() == 9);
    reveal_strlit("highlights");
    assert("highlights"@.len() == 10);
    reveal_strlit("reminder");
    assert("reminder"@.len() == 8);
    reveal_strlit("broken");
    assert("broken"@.len() == 6);
    reveal_strlit("cache");
    assert("cache"@.len() == 5);
    reveal_strlit("file");
    assert("file"@[0] != "type"@[0]);
    let acc0 = Seq::<(Seq<char>, JsonModel)>::empty();
    lemma_lookup_empty("type"@);
    let acc1 = acc0 + entry::<i64>("_id"@, x.id);
    let acc2 = acc1 + entry::<String>("title"@, x.title);
    let acc3 = acc2 + opt_entry::<String>("excerpt"@, x.excerpt);
    let acc4 = acc3 + opt_entry::<String>("note"@, x.note);
    let acc5 = acc4 + entry::<BookmarkType>("type"@, x.bookmark_type);
    let acc6 = acc5 + entry::<Vec<String>>("tags"@, x.tags);
    let acc7 = acc6 + opt_entry::<String>("cover"@, x.cover);
    let acc8 = acc7 + entry::<String>("link"@, x.link);
    let acc9 = acc8 + entry::<String>("domain"@, x.domain);
    let acc10 = acc9 + entry::<String>("created"@, x.created);
    let acc11 = acc10 + entry::<String>("lastUpdate"@, x.last_update);
    let acc12 = acc11 + opt_entry::<Vec<Media>>("media"@, x.media);
    let acc13 = acc12 + entry::<UserRef>("user"@, x.user);
    let acc14 = acc13 + entry::<CollectionRef>("collection"@, x.collection);
    let acc15 = acc14 + entry::<bool>("important"@, x.important);
    let acc16 = acc15 + opt_entry::<Vec<Highlight>>("highlights"@, x.highlights);
    let acc17 = acc16 + opt_entry::<Reminder>("reminder"@, x.reminder);
    let acc18 = acc17 + entry::<bool>("broken"@, x.broken);
    let acc19 = acc18 + opt_entry::<CacheInfo>("cache"@, x.cache);
    let acc20 = acc19 + skip_entry::<FileInfo>("file"@, x.file);
    lemma_lookup_then_entry::<i64>(acc0, "_id"@, x.id, "type"@);
    lemma_lookup_then_entry::<String>(acc1, "title"@, x.title, "type"@);
    lemma_lookup_then_opt_entry::<String>(acc2, "excerpt"@, x.excerpt, "type"@);
    lemma_lookup_then_opt_entry::<String>(acc3, "note"@, x.note, "type"@);
    lemma_lookup_then_entry::<BookmarkType>(acc4, "type"@, x.bookmark_type, "type"@);
    lemma_lookup_then_entry::<Vec<String>>(acc5, "tags"@, x.tags, "type"@);
    lemma_lookup_then_opt_entry::<String>(acc6, "cover"@, x.cover, "type"@);
    lemma_lookup_then_entry::<String>(acc7, "link"@, x.link, "type"@);
    lemma_lookup_then_entry::<String>(acc8, "domain"@, x.domain, "type"@);
    lemma_lookup_then_entry::<String>(acc9, "created"@, x.created, "type"@);
    lemma_lookup_then_entry::<String>(acc10, "lastUpdate"@, x.last_update, "type"@);
    lemma_lookup_then_opt_entry::<Vec<Media>>(acc11, "media"@, x.media, "type"@);
    lemma_lookup_then_entry::<UserRef>(acc12, "user"@, x.user, "type"@);
    lemma_lookup_then_entry::<CollectionRef>(acc13, "collection"@, x.collection, "type"@);
    lemma_lookup_then_entry::<bool>(acc14, "important"@, x.important, "type"@);
    lemma_lookup_then_opt_entry::<Vec<Highlight>>(acc15, "highlights"@, x.highlights, "type"@);
    lemma_lookup_then_opt_entry::<Reminder>(acc16, "reminder"@, x.reminder, "type"@);
    lemma_lookup_then_entry::<bool>(acc17, "broken"@, x.broken, "type"@);
    lemma_lookup_then_opt_entry::<CacheInfo>(acc18, "cache"@, x.cache, "type"@);
    lemma_lookup_then_skip_entry::<FileInfo>(acc19, "file"@, x.file, "type"@);
}

/// The `tags` member of an encoded `Bookmark`.
pub(crate) proof fn lemma_bookmark_tags(x: Bookmark)
    ensures
        Bookmark::wire_of(x).field("tags"@) == Some(<Vec<String> as Wire>::wire_of(x.tags)),
{
    reveal_strlit("tags");
    assert("tags"@.len() == 4);
    reveal_strlit("_id");
    assert("_id"@.len() == 3);
    reveal_strlit("title");
    assert("title"@.len() == 5);
    reveal_strlit("excerpt");
    assert("excerpt"@.len() == 7);
    reveal_strlit("note");
    assert("note"@[0] != "tags"@[0]);
    reveal_strlit("type");
    assert("type"@[1] != "tags"@[1]);
    reveal_strlit("cover");
    assert("cover"@.len() == 5);
    reveal_strlit("link");
    assert("link"@[0] != "tags"@[0]);
    reveal_strlit("domain");
    assert("domain"@.len() == 6);
    reveal_strlit("created");
    assert("created"@.len() == 7);
    reveal_strlit("lastUpdate");
    assert("lastUpdate"@.len() == 10);
    reveal_strlit("media");
    assert("media"@.len() == 5);
    reveal_strlit("user");
    assert("user"@[0] != "tags"@[0]);
    reveal_strlit("collection");
    assert("collection"@.len() == 10);
    reveal_strlit("important");
    assert("important"@.len() == 9);
    reveal_strlit("highlights");
    assert("highlights"@.len() == 10);
    reveal_strlit("reminder");
    assert("reminder"@.len() == 8);
    reveal_strlit("broken");
    assert("broken"@.len() == 6);
    reveal_strlit("cache");
    assert("cache"@.len() == 5);
    reveal_strlit("file");
    assert("file"@[0] != "tags"@[0]);
    let acc0 = Seq::<(Seq<char>, JsonModel)>::empty();
    lemma_lookup_empty("tags"@);
    let acc1 = acc0 + entry::<i64>("_id"@, x.id);
    let acc2 = acc1 + entry::<String>("title"@, x.title);
    let acc3 = acc2 + opt_entry::<String>("excerpt"@, x.excerpt);
    let acc4 = acc3 + opt_entry::<String>("note"@, x.note);
    let acc5 = acc4 + entry::<BookmarkType>("type"@, x.bookmark_type);
    let acc6 = acc5 + entry::<Vec<String>>("tags"@, x.tags);
    let acc7 = acc6 + opt_entry::<String>("cover"@, x.cover);
    let acc8 = acc7 + entry::<String>("link"@, x.link);
    let acc9 = acc8 + entry::<String>("domain"@, x.domain);
    let acc10 = acc9 + entry::<String>("created"@, x.created);
    let acc11 = acc10 + entry::<String>("lastUpdate"@, x.last_update);
    let acc12 = acc11 + opt_entry::<Vec<Media>>("media"@, x.media);
    let acc13 = acc12 + entry::<UserRef>("user"@, x.user);
    let acc14 = acc13 + entry::<CollectionRef>("collection"@, x.collection);
    let acc15 = acc14 + entry::<bool>("important"@, x.important);
    let acc16 = acc15 + opt_entry::<Vec<Highlight>>("highlights"@, x.highlights);
    let acc17 = acc16 + opt_entry::<Reminder>("reminder"@, x.reminder);
    let acc18 = acc17 + entry::<bool>("broken"@, x.broken);
    let acc19 = acc18 + opt_entry::<CacheInfo>("cache"@, x.cache);
    let acc20 = acc19 + skip_entry::<FileInfo>("file"@, x.file);
    lemma_lookup_then_entry::<i64>(acc0, "_id"@, x.id, "tags"@);
    lemma_lookup_then_entry::<String>(acc1, "title"@, x.title, "tags"@);
    lemma_lookup_then_opt_entry::<String>(acc2, "excerpt"@, x.excerpt, "tags"@);
    lemma_lookup_then_opt_entry::<String>(acc3, "note"@, x.note, "tags"@);
    lemma_lookup_then_entry::<BookmarkType>(acc4, "type"@, x.bookmark_type, "tags"@);
    lemma_lookup_then_entry::<Vec<String>>(acc5, "tags"@, x.tags, "tags"@);
    lemma_lookup_then_opt_entry::<String>(acc6, "cover"@, x.cover, "tags"@);
    lemma_lookup_then_entry::<String>(acc7, "link"@, x.link, "tags"@);
    lemma_lookup_then_entry::<String>(acc8, "domain"@, x.domain, "tags"@);
    lemma_lookup_then_entry::<String>(acc9, "created"@, x.created, "tags"@);
    lemma_lookup_then_entry::<String>(acc10, "lastUpdate"@, x.last_update, "tags"@);
    lemma_lookup_then_opt_entry::<Vec<Media>>(acc11, "media"@, x.media, "tags"@);
    lemma_lookup_then_entry::<UserRef>(acc12, "user"@, x.user, "tags"@);
    lemma_lookup_then_entry::<CollectionRef>(acc13, "collection"@, x.collection, "tags"@);
    lemma_lookup_then_entry::<bool>(acc14, "important"@, x.important, "tags"@);
    lemma_lookup_then_opt_entry::<Vec<Highlight>>(acc15, "highlights"@, x.highlights, "tags"@);
    lemma_lookup_then_opt_entry::<Reminder>(acc16, "reminder"@, x.reminder, "tags"@);
    lemma_lookup_then_entry::<bool>(acc17, "broken"@, x.broken, "tags"@);
    lemma_lookup_then_opt_entry::<CacheInfo>(acc18, "cache"@, x.cache, "tags"@);
    lemma_lookup_then_skip_entry::<FileInfo>(acc19, "file"@, x.file, "tags"@);
}

/// The `cover` member of an encoded `Bookmark`.
pub(crate) proof fn lemma_bookmark_cover(x: Bookmark)
    ensures
        Bookmark::wire_of(x).field("cover"@) == Some(match x.cover { Some(y) => <String as Wire>::wire_of(y), None => JsonModel::Null }),
{
    reveal_strlit("cover");
    assert("cover"@.len() == 5);
    reveal_strlit("_id");
    assert("_id"@.len() == 3);
    reveal_strlit("title");
    assert("title"@[0] != "cover"@[0]);
    reveal_strlit("excerpt");
    assert("excerpt"@.len() == 7);
    reveal_strlit("note");
    assert("note"@.len() == 4);
    reveal_strlit("type");
    assert("type"@.len() == 4);
    reveal_strlit("tags");
    assert("tags"@.len() == 4);
    reveal_strlit("link");
    assert("link"@.len() == 4);
    reveal_strlit("domain");
    assert("domain"@.len() == 6);
    reveal_strlit("created");
    assert("created"@.len() == 7);
    reveal_strlit("lastUpdate");
    assert("lastUpdate"@.len() == 10);
    reveal_strlit("media");
    assert("media"@[0] != "cover"@[0]);
    reveal_strlit("user");
    assert("user"@.len() == 4);
    reveal_strlit("collection");
    assert("collection"@.len() == 10);
    reveal_strlit("important");
    assert("important"@.len() == 9);
    reveal_strlit("highlights");
    assert("highlights"@.len() == 10);
    reveal_strlit("reminder");
    assert("reminder"@.len() == 8);
    reveal_strlit("broken");
    assert("broken"@.len() == 6);
    reveal_strlit("cache");
    assert("cache"@[1] != "cover"@[1]);
    reveal_strlit("file");
    assert("file"@.len() == 4);
    let acc0 = Seq::<(Seq<char>, JsonModel)>::empty();
    lemma_lookup_empty("cover"@);
    let acc1 = acc0 + entry::<i64>("_id"@, x.id);
    let acc2 = acc1 + entry::<String>("title"@, x.title);
    let acc3 = acc2 + opt_entry::<String>("excerpt"@, x.excerpt);
    let acc4 = acc3 + opt_entry::<String>("note"@, x.note);
    let acc5 = acc4 + entry::<BookmarkType>("type"@, x.bookmark_type);
    let acc6 = acc5 + entry::<Vec<String>>("tags"@, x.tags);
    let acc7 = acc6 + opt_entry::<String>("cover"@, x.cover);
    let acc8 = acc7 + entry::<String>("link"@, x.link);
    let acc9 = acc8 + entry::<String>("domain"@, x.domain);
    let acc10 = acc9 + entry::<String>("created"@, x.created);
    let acc11 = acc10 + entry::<String>("lastUpdate"@, x.last_update);
    let acc12 = acc11 + opt_entry::<Vec<Media>>("media"@, x.media);
    let acc13 = acc12 + entry::<UserRef>("user"@, x.user);
    let acc14 = acc13 + entry::<CollectionRef>("collection"@, x.collection);
    let acc15 = acc14 + entry::<bool>("important"@, x.important);
    let acc16 = acc15 + opt_entry::<Vec<Highlight>>("highlights"@, x.highlights);
    let acc17 = acc16 + opt_entry::<Reminder>("reminder"@, x.reminder);
    let acc18 = acc17 + entry::<bool>("broken"@, x.broken);
    let acc19 = acc18 + opt_entry::<CacheInfo>("cache"@, x.cache);
    let acc20 = acc19 + skip_entry::<FileInfo>("file"@, x.file);
    lemma_lookup_then_entry::<i64>(acc0, "_id"@, x.id, "cover"@);
    lemma_lookup_then_entry::<String>(acc1, "title"@, x.title, "cover"@);
    lemma_lookup_then_opt_entry::<String>(acc2, "excerpt"@, x.excerpt, "cover"@);
    lemma_lookup_then_opt_entry::<String>(acc3, "note"@, x.note, "cover"@);
    lemma_lookup_then_entry::<BookmarkType>(acc4, "type"@, x.bookmark_type, "cover"@);
    lemma_lookup_then_entry::<Vec<String>>(acc5, "tags"@, x.tags, "cover"@);
    lemma_lookup_then_opt_entry::<String>(acc6, "cover"@, x.cover, "cover"@);
    lemma_lookup_then_entry::<String>(acc7, "link"@, x.link, "cover"@);
    lemma_lookup_then_entry::<String>(acc8, "domain"@, x.domain, "cover"@);
    lemma_lookup_then_entry::<String>(acc9, "created"@, x.created, "cover"@);
    lemma_lookup_then_entry::<String>(acc10, "lastUpdate"@, x.last_update, "cover"@);
    lemma_lookup_then_opt_entry::<Vec<Media>>(acc11, "media"@, x.media, "cover"@);
    lemma_lookup_then_entry::<UserRef>(acc12, "user"@, x.user, "cover"@);
    lemma_lookup_then_entry::<CollectionRef>(acc13, "collection"@, x.collection, "cover"@);
    lemma_lookup_then_entry::<bool>(acc14, "important"@, x.important, "cover"@);
    lemma_lookup_then_opt_entry::<Vec<Highlight>>(acc15, "highlights"@, x.highlights, "cover"@);
    lemma_lookup_then_opt_entry::<Reminder>(acc16, "reminder"@, x.reminder, "cover"@);
    lemma_lookup_then_entry::<bool>(acc17, "broken"@, x.broken, "cover"@);
    lemma_lookup_then_opt_entry::<CacheInfo>(acc18, "cache"@, x.cache, "cover"@);
    lemma_lookup_then_skip_entry::<FileInfo>(acc19, "file"@, x.file, "cover"@);
}

/// The `link` member of an encoded `Bookmark`.
pub(crate) proof fn lemma_bookmark_link(x: Bookmark)
    ensures
        Bookmark::wire_of(x).field("link"@) == Some(<String as Wire>::wire_of(x.link)),
{
    reveal_strlit("link");
    assert("link"@.len() == 4);
    reveal_strlit("_id");
    assert("_id"@.len() == 3);
    reveal_strlit("title");
    assert("title"@.len() == 5);
    reveal_strlit("excerpt");
    assert("excerpt"@.len() == 7);
    reveal_strlit("note");
    assert("note"@[0] != "link"@[0]);
    reveal_strlit("type");
    assert("type"@[0] != "link"@[0]);
    reveal_strlit("tags");
    assert("tags"@[0] != "link"@[0]);
    reveal_strlit("cover");
    assert("cover"@.len() == 5);
    reveal_strlit("domain");
    assert("domain"@.len() == 6);
    reveal_strlit("created");
    assert("created"@.len() == 7);
    reveal_strlit("lastUpdate");
    assert("lastUpdate"@.len() == 10);
    reveal_strlit("media");
    assert("media"@.len() == 5);
    reveal_strlit("user");
    assert("user"@[0] != "link"@[0]);
    reveal_strlit("collection");
    assert("collection"@.len() == 10);
    reveal_strlit("important");
    assert("important"@.len() == 9);
    reveal_strlit("highlights");
    assert("highlights"@.len() == 10);
    reveal_strlit("reminder");
    assert("reminder"@.len() == 8);
    reveal_strlit("broken");
    assert("broken"@.len() == 6);
    reveal_strlit("cache");
    assert("cache"@.len() == 5);
    reveal_strlit("file");
    assert("file"@[0] != "link"@[0]);
    let acc0 = Seq::<(Seq<char>, JsonModel)>::empty();
    lemma_lookup_empty("link"@);
    let acc1 = acc0 + entry::<i64>("_id"@, x.id);
    let acc2 = acc1 + entry::<String>("title"@, x.title);
    let acc3 = acc2 + opt_entry::<String>("excerpt"@, x.excerpt);
    let acc4 = acc3 + opt_entry::<String>("note"@, x.note);
    let acc5 = acc4 + entry::<BookmarkType>("type"@, x.bookmark_type);
    let acc6 = acc5 + entry::<Vec<String>>("tags"@, x.tags);
    let acc7 = acc6 + opt_entry::<String>("cover"@, x.cover);
    let acc8 = acc7 + entry::<String>("link"@, x.link);
    let acc9 = acc8 + entry::<String>("domain"@, x.domain);
    let acc10 = acc9 + entry::<String>("created"@, x.created);
    let acc11 = acc10 + entry::<String>("lastUpdate"@, x.last_update);
    let acc12 = acc11 + opt_entry::<Vec<Media>>("media"@, x.media);
    let acc13 = acc12 + entry::<UserRef>("user"@, x.user);
    let acc14 = acc13 + entry::<CollectionRef>("collection"@, x.collection);
    let acc15 = acc14 + entry::<bool>("important"@, x.important);
    let acc16 = acc15 + opt_entry::<Vec<Highlight>>("highlights"@, x.highlights);
    let acc17 = acc16 + opt_entry::<Reminder>("reminder"@, x.reminder);
    let acc18 = acc17 + entry::<bool>("broken"@, x.broken);
    let acc19 = acc18 + opt_entry::<CacheInfo>("cache"@, x.cache);
    let acc20 = acc19 + skip_entry::<FileInfo>("file"@, x.file);
    lemma_lookup_then_entry::<i64>(acc0, "_id"@, x.id, "link"@);
    lemma_lookup_then_entry::<String>(acc1, "title"@, x.title, "link"@);
    lemma_lookup_then_opt_entry::<String>(acc2, "excerpt"@, x.excerpt, "link"@);
    lemma_lookup_then_opt_entry::<String>(acc3, "note"@, x.note, "link"@);
    lemma_lookup_then_entry::<BookmarkType>(acc4, "type"@, x.bookmark_type, "link"@);
    lemma_lookup_then_entry::<Vec<String>>(acc5, "tags"@, x.tags, "link"@);
    lemma_lookup_then_opt_entry::<String>(acc6, "cover"@, x.cover, "link"@);
    lemma_lookup_then_entry::<String>(acc7, "link"@, x.link, "link"@);
    lemma_lookup_then_entry::<String>(acc8, "domain"@, x.domain, "link"@);
    lemma_lookup_then_entry::<String>(acc9, "created"@, x.created, "link"@);
    lemma_lookup_then_entry::<String>(acc10, "lastUpdate"@, x.last_update, "link"@);
    lemma_lookup_then_opt_entry::<Vec<Media>>(acc11, "media"@, x.media, "link"@);
    lemma_lookup_then_entry::<UserRef>(acc12, "user"@, x.user, "link"@);
    lemma_lookup_then_entry::<CollectionRef>(acc13, "collection"@, x.collection, "link"@);
    lemma_lookup_then_entry::<bool>(acc14, "important"@, x.important, "link"@);
    lemma_lookup_then_opt_entry::<Vec<Highlight>>(acc15, "highlights"@, x.highlights, "link"@);
    lemma_lookup_then_opt_entry::<Reminder>(acc16, "reminder"@, x.reminder, "link"@);
    lemma_lookup_then_entry::<bool>(acc17, "broken"@, x.broken, "link"@);
    lemma_lookup_then_opt_entry::<CacheInfo>(acc18, "cache"@, x.cache, "link"@);
    lemma_lookup_then_skip_entry::<FileInfo>(acc19, "file"@, x.file, "link"@);
}

/// The `domain` member of an encoded `Bookmark`.
pub(crate) proof fn lemma_bookmark_domain(x: Bookmark)
    ensures
        Bookmark::wire_of(x).field("domain"@) == Some(<String as Wire>::wire_of(x.domain)),
{
    reveal_strlit("domain");
    assert("domain"@.len() == 6);
    reveal_strlit("_id");
    assert("_id"@.len() == 3);
    reveal_strlit("title");
    assert("title"@.len() == 5);
    reveal_strlit("excerpt");
    assert("excerpt"@.len() == 7);
    reveal_strlit("note");
    assert("note"@.len() == 4);
    reveal_strlit("type");
    assert("type"@.len() == 4);
    reveal_strlit("tags");
    assert("tags"@.len() == 4);
    reveal_strlit("cover");
    assert("cover"@.len() == 5);
    reveal_strlit("link");
    assert("link"@.len() == 4);
    reveal_strlit("created");
    assert("created"@.len() == 7);
    reveal_strlit("lastUpdate");
    assert("lastUpdate"@.len() == 10);
    reveal_strlit("media");
    assert("media"@.len() == 5);
    reveal_strlit("user");
    assert("user"@.len() == 4);
    reveal_strlit("collection");
    assert("collection"@.len() == 10);
    reveal_strlit("important");
    assert("important"@.len() == 9);
    reveal_strlit("highlights");
    assert("highlights"@.len() == 10);
    reveal_strlit("reminder");
    assert("reminder"@.len() == 8);
    reveal_strlit("broken");
    assert("broken"@[0] != "domain"@[0]);
    reveal_strlit("cache");
    assert("cache"@.len() == 5);
    reveal_strlit("file");
    assert("file"@.len() == 4);
    let acc0 = Seq::<(Seq<char>, JsonModel)>::empty();
    lemma_lookup_empty("domain"@);
    let acc1 = acc0 + entry::<i64>("_id"@, x.id);
    let acc2 = acc1 + entry::<String>("title"@, x.title);
    let acc3 = acc2 + opt_entry::<String>("excerpt"@, x.excerpt);
    let acc4 = acc3 + opt_entry::<String>("note"@, x.note);
    let acc5 = acc4 + entry::<BookmarkType>("type"@, x.bookmark_type);
    let acc6 = acc5 + entry::<Vec<String>>("tags"@, x.tags);
    let acc7 = acc6 + opt_entry::<String>("cover"@, x.cover);
    let acc8 = acc7 + entry::<String>("link"@, x.link);
    let acc9 = acc8 + entry::<String>("domain"@, x.domain);
    let acc10 = acc9 + entry::<String>("created"@, x.created);
    let acc11 = acc10 + entry::<String>("lastUpdate"@, x.last_update);
    let acc12 = acc11 + opt_entry::<Vec<Media>>("media"@, x.media);
    let acc13 = acc12 + entry::<UserRef>("user"@, x.user);
    let acc14 = acc13 + entry::<CollectionRef>("collection"@, x.collection);
    let acc15 = acc14 + entry::<bool>("important"@, x.important);
    let acc16 = acc15 + opt_entry::<Vec<Highlight>>("highlights"@, x.highlights);
    let acc17 = acc16 + opt_entry::<Reminder>("reminder"@, x.reminder);
    let acc18 = acc17 + entry::<bool>("broken"@, x.broken);
    let acc19 = acc18 + opt_entry::<CacheInfo>("cache"@, x.cache);
    let acc20 = acc19 + skip_entry::<FileInfo>("file"@, x.file);
    lemma_lookup_then_entry::<i64>(acc0, "_id"@, x.id, "domain"@);
    lemma_lookup_then_entry::<String>(acc1, "title"@, x.title, "domain"@);
    lemma_lookup_then_opt_entry::<String>(acc2, "excerpt"@, x.excerpt, "domain"@);
    lemma_lookup_then_opt_entry::<String>(acc3, "note"@, x.note, "domain"@);
    lemma_lookup_then_entry::<BookmarkType>(acc4, "type"@, x.bookmark_type, "domain"@);
    lemma_lookup_then_entry::<Vec<String>>(acc5, "tags"@, x.tags, "domain"@);
    lemma_lookup_then_opt_entry::<String>(acc6, "cover"@, x.cover, "domain"@);
    lemma_lookup_then_entry::<String>(acc7, "link"@, x.link, "domain"@);
    lemma_lookup_then_entry::<String>(acc8, "domain"@, x.domain, "domain"@);
    lemma_lookup_then_entry::<String>(acc9, "created"@, x.created, "domain"@);
    lemma_lookup_then_entry::<String>(acc10, "lastUpdate"@, x.last_update, "domain"@);
    lemma_lookup_then_opt_entry::<Vec<Media>>(acc11, "media"@, x.media, "domain"@);
    lemma_lookup_then_entry::<UserRef>(acc12, "user"@, x.user, "domain"@);
    lemma_lookup_then_entry::<CollectionRef>(acc13, "collection"@, x.collection, "domain"@);
    lemma_lookup_then_entry::<bool>(acc14, "important"@, x.important, "domain"@);
    lemma_lookup_then_opt_entry::<Vec<Highlight>>(acc15, "highlights"@, x.highlights, "domain"@);
    lemma_lookup_then_opt_entry::<Reminder>(acc16, "reminder"@, x.reminder, "domain"@);
    lemma_lookup_then_entry::<bool>(acc17, "broken"@, x.broken, "domain"@);
    lemma_lookup_then_opt_entry::<CacheInfo>(acc18, "cache"@, x.cache, "domain"@);
    lemma_lookup_then_skip_entry::<FileInfo>(acc19, "file"@, x.file, "domain"@);
}

/// The `created` member of an encoded `Bookmark`.
pub(crate) proof fn lemma_bookmark_created(x: Bookmark)
    ensures
        Bookmark::wire_of(x).field("created"@) == Some(<String as Wire>::wire_of(x.created)),
{
    reveal_strlit("created");
    assert("created"@.len() == 7);
    reveal_strlit("_id");
    assert("_id"@.len() == 3);
    reveal_strlit("title");
    assert("title"@.len() == 5);
    reveal_strlit("excerpt");
    assert("excerpt"@[0] != "created"@[0]);
    reveal_strlit("note");
    assert("note"@.len() == 4);
    reveal_strlit("type");
    assert("type"@.len() == 4);
    reveal_strlit("tags");
    assert("tags"@.len() == 4);
    reveal_strlit("cover");
    assert("cover"@.len() == 5);
    reveal_strlit("link");
    assert("link"@.len() == 4);
    reveal_strlit("domain");
    assert("domain"@.len() == 6);
    reveal_strlit("lastUpdate");
    assert("lastUpdate"@.len() == 10);
    reveal_strlit("media");
    assert("media"@.len() == 5);
    reveal_strlit("user");
    assert("user"@.len() == 4);
    reveal_strlit("collection");
    assert("collection"@.len() == 10);
    reveal_strlit("important");
    assert("important"@.len() == 9);
    reveal_strlit("highlights");
    assert("highlights"@.len() == 10);
    reveal_strlit("reminder");
    assert("reminder"@.len() == 8);
    reveal_strlit("broken");
    assert("broken"@.len() == 6);
    reveal_strlit("cache");
    assert("cache"@.len() == 5);
    reveal_strlit("file");
    assert("file"@.len() == 4);
    let acc0 = Seq::<(Seq<char>, JsonModel)>::empty();
    lemma_lookup_empty("created"@);
    let acc1 = acc0 + entry::<i64>("_id"@, x.id);
    let acc2 = acc1 + entry::<String>("title"@, x.title);
    let acc3 = acc2 + opt_entry::<String>("excerpt"@, x.excerpt);
    let acc4 = acc3 + opt_entry::<String>("note"@, x.note);
    let acc5 = acc4 + entry::<BookmarkType>("type"@, x.bookmark_type);
    let acc6 = acc5 + entry::<Vec<String>>("tags"@, x.tags);
    let acc7 = acc6 + opt_entry::<String>("cover"@, x.cover);
    let acc8 = acc7 + entry::<String>("link"@, x.link);
    let acc9 = acc8 + entry::<String>("domain"@, x.domain);
    let acc10 = acc9 + entry::<String>("created"@, x.created);
    let acc11 = acc10 + entry::<String>("lastUpdate"@, x.last_update);
    let acc12 = acc11 + opt_entry::<Vec<Media>>("media"@, x.media);
    let acc13 = acc12 + entry::<UserRef>("user"@, x.user);
    let acc14 = acc13 + entry::<CollectionRef>("collection"@, x.collection);
    let acc15 = acc14 + entry::<bool>("important"@, x.important);
    let acc16 = acc15 + opt_entry::<Vec<Highlight>>("highlights"@, x.highlights);
    let acc17 = acc16 + opt_entry::<Reminder>("reminder"@, x.reminder);
    let acc18 = acc17 + entry::<bool>("broken"@, x.broken);
    let acc19 = acc18 + opt_entry::<CacheInfo>("cache"@, x.cache);
    let acc20 = acc19 + skip_entry::<FileInfo>("file"@, x.file);
    lemma_lookup_then_entry::<i64>(acc0, "_id"@, x.id, "created"@);
    lemma_lookup_then_entry::<String>(acc1, "title"@, x.title, "created"@);
    lemma_lookup_then_opt_entry::<String>(acc2, "excerpt"@, x.excerpt, "created"@);
    lemma_lookup_then_opt_entry::<String>(acc3, "note"@, x.note, "created"@);
    lemma_lookup_then_entry::<BookmarkType>(acc4, "type"@, x.bookmark_type, "created"@);
    lemma_lookup_then_entry::<Vec<String>>(acc5, "tags"@, x.tags, "created"@);
    lemma_lookup_then_opt_entry::<String>(acc6, "cover"@, x.cover, "created"@);
    lemma_lookup_then_entry::<String>(acc7, "link"@, x.link, "created"@);
    lemma_lookup_then_entry::<String>(acc8, "domain"@, x.domain, "created"@);
    lemma_lookup_then_entry::<String>(acc9, "created"@, x.created, "created"@);
    lemma_lookup_then_entry::<String>(acc10, "lastUpdate"@, x.last_update, "created"@);
    lemma_lookup_then_opt_entry::<Vec<Media>>(acc11, "media"@, x.media, "created"@);
    lemma_lookup_then_entry::<UserRef>(acc12, "user"@, x.user, "created"@);
    lemma_lookup_then_entry::<CollectionRef>(acc13, "collection"@, x.collection, "created"@);
    lemma_lookup_then_entry::<bool>(acc14, "important"@, x.important, "created"@);
    lemma_lookup_then_opt_entry::<Vec<Highlight>>(acc15, "highlights"@, x.highlights, "created"@);
    lemma_lookup_then_opt_entry::<Reminder>(acc16, "reminder"@, x.reminder, "created"@);
    lemma_lookup_then_entry::<bool>(acc17, "broken"@, x.broken, "created"@);
    lemma_lookup_then_opt_entry::<CacheInfo>(acc18, "cache"@, x.cache, "created"@);
    lemma_lookup_then_skip_entry::<FileInfo>(acc19, "file"@, x.file, "created"@);
}

/// The `lastUpdate` member of an encoded `Bookmark`.
pub(crate) proof fn lemma_bookmark_last_update(x: Bookmark)
    ensures
        Bookmark::wire_of(x).field("lastUpdate"@) == Some(<String as Wire>::wire_of(x.last_update)),
{
    reveal_strlit("lastUpdate");
    assert("lastUpdate"@.len() == 10);
    reveal_strlit("_id");
    assert("_id"@.len() == 3);
    reveal_strlit("title");
    assert("title"@.len() == 5);
    reveal_strlit("excerpt");
    assert("excerpt"@.len() == 7);
    reveal_strlit("note");
    assert("note"@.len() == 4);
    reveal_strlit("type");
    assert("type"@.len() == 4);
    reveal_strlit("tags");
    assert("tags"@.len() == 4);
    reveal_strlit("cover");
    assert("cover"@.len() == 5);
    reveal_strlit("link");
    assert("link"@.len() == 4);
    reveal_strlit("domain");
    assert("domain"@.len() == 6);
    reveal_strlit("created");
    assert("created"@.len() == 7);
    reveal_strlit("media");
    assert("media"@.len() == 5);
    reveal_strlit("user");
    assert("user"@.len() == 4);
    reveal_strlit("collection");
    assert("collection"@[0] != "lastUpdate"@[0]);
    reveal_strlit("important");
    assert("important"@.len() == 9);
    reveal_strlit("highlights");
    assert("highlights"@[0] != "lastUpdate"@[0]);
    reveal_strlit("reminder");
    assert("reminder"@.len() == 8);
    reveal_strlit("broken");
    assert("broken"@.len() == 6);
    reveal_strlit("cache");
    assert("cache"@.len() == 5);
    reveal_strlit("file");
    assert("file"@.len() == 4);
    let acc0 = Seq::<(Seq<char>, JsonModel)>::empty();
    lemma_lookup_empty("lastUpdate"@);
    let acc1 = acc0 + entry::<i64>("_id"@, x.id);
    let acc2 = acc1 + entry::<String>("title"@, x.title);
    let acc3 = acc2 + opt_entry::<String>("excerpt"@, x.excerpt);
    let acc4 = acc3 + opt_entry::<String>("note"@, x.note);
    let acc5 = acc4 + entry::<BookmarkType>("type"@, x.bookmark_type);
    let acc6 = acc5 + entry::<Vec<String>>("tags"@, x.tags);
    let acc7 = acc6 + opt_entry::<String>("cover"@, x.cover);
    let acc8 = acc7 + entry::<String>("link"@, x.link);
    let acc9 = acc8 + entry::<String>("domain"@, x.domain);
    let acc10 = acc9 + entry::<String>("created"@, x.created);
    let acc11 = acc10 + entry::<String>("lastUpdate"@, x.last_update);
    let acc12 = acc11 + opt_entry::<Vec<Media>>("media"@, x.media);
    let acc13 = acc12 + entry::<UserRef>("user"@, x.user);
    let acc14 = acc13 + entry::<CollectionRef>("collection"@, x.collection);
    let acc15 = acc14 + entry::<bool>("important"@, x.important);
    let acc16 = acc15 + opt_entry::<Vec<Highlight>>("highlights"@, x.highlights);
    let acc17 = acc16 + opt_entry::<Reminder>("reminder"@, x.reminder);
    let acc18 = acc17 + entry::<bool>("broken"@, x.broken);
    let acc19 = acc18 + opt_entry::<CacheInfo>("cache"@, x.cache);
    let acc20 = acc19 + skip_entry::<FileInfo>("file"@, x.file);
    lemma_lookup_then_entry::<i64>(acc0, "_id"@, x.id, "lastUpdate"@);
    lemma_lookup_then_entry::<String>(acc1, "title"@, x.title, "lastUpdate"@);
    lemma_lookup_then_opt_entry::<String>(acc2, "excerpt"@, x.excerpt, "lastUpdate"@);
    lemma_lookup_then_opt_entry::<String>(acc3, "note"@, x.note, "lastUpdate"@);
    lemma_lookup_then_entry::<BookmarkType>(acc4, "type"@, x.bookmark_type, "lastUpdate"@);
    lemma_lookup_then_entry::<Vec<String>>(acc5, "tags"@, x.tags, "lastUpdate"@);
    lemma_lookup_then_opt_entry::<String>(acc6, "cover"@, x.cover, "lastUpdate"@);
    lemma_lookup_then_entry::<String>(acc7, "link"@, x.link, "lastUpdate"@);
    lemma_lookup_then_entry::<String>(acc8, "domain"@, x.domain, "lastUpdate"@);
    lemma_lookup_then_entry::<String>(acc9, "created"@, x.created, "lastUpdate"@);
    lemma_lookup_then_entry::<String>(acc10, "lastUpdate"@, x.last_update, "lastUpdate"@);
    lemma_lookup_then_opt_entry::<Vec<Media>>(acc11, "media"@, x.media, "lastUpdate"@);
    lemma_lookup_then_entry::<UserRef>(acc12, "user"@, x.user, "lastUpdate"@);
    lemma_lookup_then_entry::<CollectionRef>(acc13, "collection"@, x.collection, "lastUpdate"@);
    lemma_lookup_then_entry::<bool>(acc14, "important"@, x.important, "lastUpdate"@);
    lemma_lookup_then_opt_entry::<Vec<Highlight>>(acc15, "highlights"@, x.highlights, "lastUpdate"@);
    lemma_lookup_then_opt_entry::<Reminder>(acc16, "reminder"@, x.reminder, "lastUpdate"@);
    lemma_lookup_then_entry::<bool>(acc17, "broken"@, x.broken, "lastUpdate"@);
    lemma_lookup_then_opt_entry::<CacheInfo>(acc18, "cache"@, x.cache, "lastUpdate"@);
    lemma_lookup_then_skip_entry::<FileInfo>(acc19, "file"@, x.file, "lastUpdate"@);
}

/// The `media` member of an encoded `Bookmark`.
pub(crate) proof fn lemma_bookmark_media(x: Bookmark)
    ensures
        Bookmark::wire_of(x).field("media"@) == Some(match x.media { Some(y) => <Vec<Media> as Wire>::wire_of(y), None => JsonModel::Null }),
{
    reveal_strlit("media");
    assert("media"@.len() == 5);
    reveal_strlit("_id");
    assert("_id"@.len() == 3);
    reveal_strlit("title");
    assert("title"@[0] != "media"@[0]);
    reveal_strlit("excerpt");
    assert("excerpt"@.len() == 7);
    reveal_strlit("note");
    assert("note"@.len() == 4);
    reveal_strlit("type");
    assert("type"@.len() == 4);
    reveal_strlit("tags");
    assert("tags"@.len() == 4);
    reveal_strlit("cover");
    assert("cover"@[0] != "media"@[0]);
    reveal_strlit("link");
    assert("link"@.len() == 4);
    reveal_strlit("domain");
    assert("domain"@.len() == 6);
    reveal_strlit("created");
    assert("created"@.len() == 7);
    reveal_strlit("lastUpdate");
    assert("lastUpdate"@.len() == 10);
    reveal_strlit("user");
    assert("user"@.len() == 4);
    reveal_strlit("collection");
    assert("collection"@.len() == 10);
    reveal_strlit("important");
    assert("important"@.len() == 9);
    reveal_strlit("highlights");
    assert("highlights"@.len() == 10);
    reveal_strlit("reminder");
    assert("reminder"@.len() == 8);
    reveal_strlit("broken");
    assert("broken"@.len() == 6);
    reveal_strlit("cache");
    assert("cache"@[0] != "media"@[0]);
    reveal_strlit("file");
    assert("file"@.len() == 4);
    let acc0 = Seq::<(Seq<char>, JsonModel)>::empty();
    lemma_lookup_empty("media"@);
    let acc1 = acc0 + entry::<i64>("_id"@, x.id);
    let acc2 = acc1 + entry::<String>("title"@, x.title);
    let acc3 = acc2 + opt_entry::<String>("excerpt"@, x.excerpt);
    let acc4 = acc3 + opt_entry::<String>("note"@, x.note);
    let acc5 = acc4 + entry::<BookmarkType>("type"@, x.bookmark_type);
    let acc6 = acc5 + entry::<Vec<String>>("tags"@, x.tags);
    let acc7 = acc6 + opt_entry::<String>("cover"@, x.cover);
    let acc8 = acc7 + entry::<String>("link"@, x.link);
    let acc9 = acc8 + entry::<String>("domain"@, x.domain);
    let acc10 = acc9 + entry::<String>("created"@, x.created);
    let acc11 = acc10 + entry::<String>("lastUpdate"@, x.last_update);
    let acc12 = acc11 + opt_entry::<Vec<Media>>("media"@, x.media);
    let acc13 = acc12 + entry::<UserRef>("user"@, x.user);
    let acc14 = acc13 + entry::<CollectionRef>("collection"@, x.collection);
    let acc15 = acc14 + entry::<bool>("important"@, x.important);
    let acc16 = acc15 + opt_entry::<Vec<Highlight>>("highlights"@, x.highlights);
    let acc17 = acc16 + opt_entry::<Reminder>("reminder"@, x.reminder);
    let acc18 = acc17 + entry::<bool>("broken"@, x.broken);
    let acc19 = acc18 + opt_entry::<CacheInfo>("cache"@, x.cache);
    let acc20 = acc19 + skip_entry::<FileInfo>("file"@, x.file);
    lemma_lookup_then_entry::<i64>(acc0, "_id"@, x.id, "media"@);
    lemma_lookup_then_entry::<String>(acc1, "title"@, x.title, "media"@);
    lemma_lookup_then_opt_entry::<String>(acc2, "excerpt"@, x.excerpt, "media"@);
    lemma_lookup_then_opt_entry::<String>(acc3, "note"@, x.note, "media"@);
    lemma_lookup_then_entry::<BookmarkType>(acc4, "type"@, x.bookmark_type, "media"@);
    lemma_lookup_then_entry::<Vec<String>>(acc5, "tags"@, x.tags, "media"@);
    lemma_lookup_then_opt_entry::<String>(acc6, "cover"@, x.cover, "media"@);
    lemma_lookup_then_entry::<String>(acc7, "link"@, x.link, "media"@);
    lemma_lookup_then_entry::<String>(acc8, "domain"@, x.domain, "media"@);
    lemma_lookup_then_entry::<String>(acc9, "created"@, x.created, "media"@);
    lemma_lookup_then_entry::<String>(acc10, "lastUpdate"@, x.last_update, "media"@);
    lemma_lookup_then_opt_entry::<Vec<Media>>(acc11, "media"@, x.media, "media"@);
    lemma_lookup_then_entry::<UserRef>(acc12, "user"@, x.user, "media"@);
    lemma_lookup_then_entry::<CollectionRef>(acc13, "collection"@, x.collection, "media"@);
    lemma_lookup_then_entry::<bool>(acc14, "important"@, x.important, "media"@);
    lemma_lookup_then_opt_entry::<Vec<Highlight>>(acc15, "highlights"@, x.highlights, "media"@);
    lemma_lookup_then_opt_entry::<Reminder>(acc16, "reminder"@, x.reminder, "media"@);
    lemma_lookup_then_entry::<bool>(acc17, "broken"@, x.broken, "media"@);
    lemma_lookup_then_opt_entry::<CacheInfo>(acc18, "cache"@, x.cache, "media"@);
    lemma_lookup_then_skip_entry::<FileInfo>(acc19, "file"@, x.file, "media"@);
}

/// The `user` member of an encoded `Bookmark`.
pub(crate) proof fn lemma_bookmark_user(x: Bookmark)
    ensures
        Bookmark::wire_of(x).field("user"@) == Some(<UserRef as Wire>::wire_of(x.user)),
{
    reveal_strlit("user");
    assert("user"@.len() == 4);
    reveal_strlit("_id");
    assert("_id"@.len() == 3);
    reveal_strlit("title");
    assert("title"@.len() == 5);
    reveal_strlit("excerpt");
    assert("excerpt"@.len() == 7);
    reveal_strlit("note");
    assert("note"@[0] != "user"@[0]);
    reveal_strlit("type");
    assert("type"@[0] != "user"@[0]);
    reveal_strlit("tags");
    assert("tags"@[0] != "user"@[0]);
    reveal_strlit("cover");
    assert("cover"@.len() == 5);
    reveal_strlit("link");
    assert("link"@[0] != "user"@[0]);
    reveal_strlit("domain");
    assert("domain"@.len() == 6);
    reveal_strlit("created");
    assert("created"@.len() == 7);
    reveal_strlit("lastUpdate");
    assert("lastUpdate"@.len() == 10);
    reveal_strlit("media");
    assert("media"@.len() == 5);
    reveal_strlit("collection");
    assert("collection"@.len() == 10);
    reveal_strlit("important");
    assert("important"@.len() == 9);
    reveal_strlit("highlights");
    assert("highlights"@.len() == 10);
    reveal_strlit("reminder");
    assert("reminder"@.len() == 8);
    reveal_strlit("broken");
    assert("broken"@.len() == 6);
    reveal_strlit("cache");
    assert("cache"@.len() == 5);
    reveal_strlit("file");
    assert("file"@[0] != "user"@[0]);
    let acc0 = Seq::<(Seq<char>, JsonModel)>::empty();
    lemma_lookup_empty("user"@);
    let acc1 = acc0 + entry::<i64>("_id"@, x.id);
    let acc2 = acc1 + entry::<String>("title"@, x.title);
    let acc3 = acc2 + opt_entry::<String>("excerpt"@, x.excerpt);
    let acc4 = acc3 + opt_entry::<String>("note"@, x.note);
    let acc5 = acc4 + entry::<BookmarkType>("type"@, x.bookmark_type);
    let acc6 = acc5 + entry::<Vec<String>>("tags"@, x.tags);
    let acc7 = acc6 + opt_entry::<String>("cover"@, x.cover);
    let acc8 = acc7 + entry::<String>("link"@, x.link);
    let acc9 = acc8 + entry::<String>("domain"@, x.domain);
    let acc10 = acc9 + entry::<String>("created"@, x.created);
    let acc11 = acc10 + entry::<String>("lastUpdate"@, x.last_update);
    let acc12 = acc11 + opt_entry::<Vec<Media>>("media"@, x.media);
    let acc13 = acc12 + entry::<UserRef>("user"@, x.user);
    let acc14 = acc13 + entry::<CollectionRef>("collection"@, x.collection);
    let acc15 = acc14 + entry::<bool>("important"@, x.important);
    let acc16 = acc15 + opt_entry::<Vec<Highlight>>("highlights"@, x.highlights);
    let acc17 = acc16 + opt_entry::<Reminder>("reminder"@, x.reminder);
    let acc18 = acc17 + entry::<bool>("broken"@, x.broken);
    let acc19 = acc18 + opt_entry::<CacheInfo>("cache"@, x.cache);
    let acc20 = acc19 + skip_entry::<FileInfo>("file"@, x.file);
    lemma_lookup_then_entry::<i64>(acc0, "_id"@, x.id, "user"@);
    lemma_lookup_then_entry::<String>(acc1, "title"@, x.title, "user"@);
    lemma_lookup_then_opt_entry::<String>(acc2, "excerpt"@, x.excerpt, "user"@);
    lemma_lookup_then_opt_entry::<String>(acc3, "note"@, x.note, "user"@);
    lemma_lookup_then_entry::<BookmarkType>(acc4, "type"@, x.bookmark_type, "user"@);
    lemma_lookup_then_entry::<Vec<String>>(acc5, "tags"@, x.tags, "user"@);
    lemma_lookup_then_opt_entry::<String>(acc6, "cover"@, x.cover, "user"@);
    lemma_lookup_then_entry::<String>(acc7, "link"@, x.link, "user"@);
    lemma_lookup_then_entry::<String>(acc8, "domain"@, x.domain, "user"@);
    lemma_lookup_then_entry::<String>(acc9, "created"@, x.created, "user"@);
    lemma_lookup_then_entry::<String>(acc10, "lastUpdate"@, x.last_update, "user"@);
    lemma_lookup_then_opt_entry::<Vec<Media>>(acc11, "media"@, x.media, "user"@);
    lemma_lookup_then_entry::<UserRef>(acc12, "user"@, x.user, "user"@);
    lemma_lookup_then_entry::<CollectionRef>(acc13, "collection"@, x.collection, "user"@);
    lemma_lookup_then_entry::<bool>(acc14, "important"@, x.important, "user"@);
    lemma_lookup_then_opt_entry::<Vec<Highlight>>(acc15, "highlights"@, x.highlights, "user"@);
    lemma_lookup_then_opt_entry::<Reminder>(acc16, "reminder"@, x.reminder, "user"@);
    lemma_lookup_then_entry::<bool>(acc17, "broken"@, x.broken, "user"@);
    lemma_lookup_then_opt_entry::<CacheInfo>(acc18, "cache"@, x.cache, "user"@);
    lemma_lookup_then_skip_entry::<FileInfo>(acc19, "file"@, x.file, "user"@);
}

/// The `collection` member of an encoded `Bookmark`.
pub(crate) proof fn lemma_bookmark_collection(x: Bookmark)
    ensures
        Bookmark::wire_of(x).field("collection"@) == Some(<CollectionRef as Wire>::wire_of(x.collection)),
{
    reveal_strlit("collection");
    assert("collection"@.len() == 10);
    reveal_strlit("_id");
    assert("_id"@.len() == 3);
    reveal_strlit("title");
    assert("title"@.len() == 5);
    reveal_strlit("excerpt");
    assert("excerpt"@.len() == 7);
    reveal_strlit("note");
    assert("note"@.len() == 4);
    reveal_strlit("type");
    assert("type"@.len() == 4);
    reveal_strlit("tags");
    assert("tags"@.len() == 4);
    reveal_strlit("cover");
    assert("cover"@.len() == 5);
    reveal_strlit("link");
    assert("link"@.len() == 4);
    reveal_strlit("domain");
    assert("domain"@.len() == 6);
    reveal_strlit("created");
    assert("created"@.len() == 7);
    reveal_strlit("lastUpdate");
    assert("lastUpdate"@[0] != "collection"@[0]);
    reveal_strlit("media");
    assert("media"@.len() == 5);
    reveal_strlit("user");
    assert("user"@.len() == 4);
    reveal_strlit("important");
    assert("important"@.len() == 9);
    reveal_strlit("highlights");
    assert("highlights"@[0] != "collection"@[0]);
    reveal_strlit("reminder");
    assert("reminder"@.len() == 8);
    reveal_strlit("broken");
    assert("broken"@.len() == 6);
    reveal_strlit("cache");
    assert("cache"@.len() == 5);
    reveal_strlit("file");
    assert("file"@.len() == 4);
    let acc0 = Seq::<(Seq<char>, JsonModel)>::empty();
    lemma_lookup_empty("collection"@);
    let acc1 = acc0 + entry::<i64>("_id"@, x.id);
    let acc2 = acc1 + entry::<String>("title"@, x.title);
    let acc3 = acc2 + opt_entry::<String>("excerpt"@, x.excerpt);
    let acc4 = acc3 + opt_entry::<String>("note"@, x.note);
    let acc5 = acc4 + entry::<BookmarkType>("type"@, x.bookmark_type);
    let acc6 = acc5 + entry::<Vec<String>>("tags"@, x.tags);
    let acc7 = acc6 + opt_entry::<String>("cover"@, x.cover);
    let acc8 = acc7 + entry::<String>("link"@, x.link);
    let acc9 = acc8 + entry::<String>("domain"@, x.domain);
    let acc10 = acc9 + entry::<String>("created"@, x.created);
    let acc11 = acc10 + entry::<String>("lastUpdate"@, x.last_update);
    let acc12 = acc11 + opt_entry::<Vec<Media>>("media"@, x.media);
    let acc13 = acc12 + entry::<UserRef>("user"@, x.user);
    let acc14 = acc13 + entry::<CollectionRef>("collection"@, x.collection);
    let acc15 = acc14 + entry::<bool>("important"@, x.important);
    let acc16 = acc15 + opt_entry::<Vec<Highlight>>("highlights"@, x.highlights);
    let acc17 = acc16 + opt_entry::<Reminder>("reminder"@, x.reminder);
    let acc18 = acc17 + entry::<bool>("broken"@, x.broken);
    let acc19 = acc18 + opt_entry::<CacheInfo>("cache"@, x.cache);
    let acc20 = acc19 + skip_entry::<FileInfo>("file"@, x.file);
    lemma_lookup_then_entry::<i64>(acc0, "_id"@, x.id, "collection"@);
    lemma_lookup_then_entry::<String>(acc1, "title"@, x.title, "collection"@);
    lemma_lookup_then_opt_entry::<String>(acc2, "excerpt"@, x.excerpt, "collection"@);
    lemma_lookup_then_opt_entry::<String>(acc3, "note"@, x.note, "collection"@);
    lemma_lookup_then_entry::<BookmarkType>(acc4, "type"@, x.bookmark_type, "collection"@);
    lemma_lookup_then_entry::<Vec<String>>(acc5, "tags"@, x.tags, "collection"@);
    lemma_lookup_then_opt_entry::<String>(acc6, "cover"@, x.cover, "collection"@);
    lemma_lookup_then_entry::<String>(acc7, "link"@, x.link, "collection"@);
    lemma_lookup_then_entry::<String>(acc8, "domain"@, x.domain, "collection"@);
    lemma_lookup_then_entry::<String>(acc9, "created"@, x.created, "collection"@);
    lemma_lookup_then_entry::<String>(acc10, "lastUpdate"@, x.last_update, "collection"@);
    lemma_lookup_then_opt_entry::<Vec<Media>>(acc11, "media"@, x.media, "collection"@);
    lemma_lookup_then_entry::<UserRef>(acc12, "user"@, x.user, "collection"@);
    lemma_lookup_then_entry::<CollectionRef>(acc13, "collection"@, x.collection, "collection"@);
    lemma_lookup_then_entry::<bool>(acc14, "important"@, x.important, "collection"@);
    lemma_lookup_then_opt_entry::<Vec<Highlight>>(acc15, "highlights"@, x.highlights, "collection"@);
    lemma_lookup_then_opt_entry::<Reminder>(acc16, "reminder"@, x.reminder, "collection"@);
    lemma_lookup_then_entry::<bool>(acc17, "broken"@, x.broken, "collection"@);
    lemma_lookup_then_opt_entry::<CacheInfo>(acc18, "cache"@, x.cache, "collection"@);
    lemma_lookup_then_skip_entry::<FileInfo>(acc19, "file"@, x.file, "collection"@);
}

/// The `important` member of an encoded `Bookmark`.
pub(crate) proof fn lemma_bookmark_important(x: Bookmark)
    ensures
        Bookmark::wire_of(x).field("important"@) == Some(<bool as Wire>::wire_of(x.important)),
{
    reveal_strlit("important");
    assert("important"@.len() == 9);
    reveal_strlit("_id");
    assert("_id"@.len() == 3);
    reveal_strlit("title");
    assert("title"@.len() == 5);
    reveal_strlit("excerpt");
    assert("excerpt"@.len() == 7);
    reveal_strlit("note");
    assert("note"@.len() == 4);
    reveal_strlit("type");
    assert("type"@.len() == 4);
    reveal_strlit("tags");
    assert("tags"@.len() == 4);
    reveal_strlit("cover");
    assert("cover"@.len() == 5);
    reveal_strlit("link");
    assert("link"@.len() == 4);
    reveal_strlit("domain");
    assert("domain"@.len() == 6);
    reveal_strlit("created");
    assert("created"@.len() == 7);
    reveal_strlit("lastUpdate");
    assert("lastUpdate"@.len() == 10);
    reveal_strlit("media");
    assert("media"@.len() == 5);
    reveal_strlit("user");
    assert("user"@.len() == 4);
    reveal_strlit("collection");
    assert("collection"@.len() == 10);
    reveal_strlit("highlights");
    assert("highlights"@.len() == 10);
    reveal_strlit("reminder");
    assert("reminder"@.len() == 8);
    reveal_strlit("broken");
    assert("broken"@.len() == 6);
    reveal_strlit("cache");
    assert("cache"@.len() == 5);
    reveal_strlit("file");
    assert("file"@.len() == 4);
    let acc0 = Seq::<(Seq<char>, JsonModel)>::empty();
    lemma_lookup_empty("important"@);
    let acc1 = acc0 + entry::<i64>("_id"@, x.id);
    let acc2 = acc1 + entry::<String>("title"@, x.title);
    let acc3 = acc2 + opt_entry::<String>("excerpt"@, x.excerpt);
    let acc4 = acc3 + opt_entry::<String>("note"@, x.note);
    let acc5 = acc4 + entry::<BookmarkType>("type"@, x.bookmark_type);
    let acc6 = acc5 + entry::<Vec<String>>("tags"@, x.tags);
    let acc7 = acc6 + opt_entry::<String>("cover"@, x.cover);
    let acc8 = acc7 + entry::<String>("link"@, x.link);
    let acc9 = acc8 + entry::<String>("domain"@, x.domain);
    let acc10 = acc9 + entry::<String>("created"@, x.created);
    let acc11 = acc10 + entry::<String>("lastUpdate"@, x.last_update);
    let acc12 = acc11 + opt_entry::<Vec<Media>>("media"@, x.media);
    let acc13 = acc12 + entry::<UserRef>("user"@, x.user);
    let acc14 = acc13 + entry::<CollectionRef>("collection"@, x.collection);
    let acc15 = acc14 + entry::<bool>("important"@, x.important);
    let acc16 = acc15 + opt_entry::<Vec<Highlight>>("highlights"@, x.highlights);
    let acc17 = acc16 + opt_entry::<Reminder>("reminder"@, x.reminder);
    let acc18 = acc17 + entry::<bool>("broken"@, x.broken);
    let acc19 = acc18 + opt_entry::<CacheInfo>("cache"@, x.cache);
    let acc20 = acc19 + skip_entry::<FileInfo>("file"@, x.file);
    lemma_lookup_then_entry::<i64>(acc0, "_id"@, x.id, "important"@);
    lemma_lookup_then_entry::<String>(acc1, "title"@, x.title, "important"@);
    lemma_lookup_then_opt_entry::<String>(acc2, "excerpt"@, x.excerpt, "important"@);
    lemma_lookup_then_opt_entry::<String>(acc3, "note"@, x.note, "important"@);
    lemma_lookup_then_entry::<BookmarkType>(acc4, "type"@, x.bookmark_type, "important"@);
    lemma_lookup_then_entry::<Vec<String>>(acc5, "tags"@, x.tags, "important"@);
    lemma_lookup_then_opt_entry::<String>(acc6, "cover"@, x.cover, "important"@);
    lemma_lookup_then_entry::<String>(acc7, "link"@, x.link, "important"@);
    lemma_lookup_then_entry::<String>(acc8, "domain"@, x.domain, "important"@);
    lemma_lookup_then_entry::<String>(acc9, "created"@, x.created, "important"@);
    lemma_lookup_then_entry::<String>(acc10, "lastUpdate"@, x.last_update, "important"@);
    lemma_lookup_then_opt_entry::<Vec<Media>>(acc11, "media"@, x.media, "important"@);
    lemma_lookup_then_entry::<UserRef>(acc12, "user"@, x.user, "important"@);
    lemma_lookup_then_entry::<CollectionRef>(acc13, "collection"@, x.collection, "important"@);
    lemma_lookup_then_entry::<bool>(acc14, "important"@, x.important, "important"@);
    lemma_lookup_then_opt_entry::<Vec<Highlight>>(acc15, "highlights"@, x.highlights, "important"@);
    lemma_lookup_then_opt_entry::<Reminder>(acc16, "reminder"@, x.reminder, "important"@);
    lemma_lookup_then_entry::<bool>(acc17, "broken"@, x.broken, "important"@);
    lemma_lookup_then_opt_entry::<CacheInfo>(acc18, "cache"@, x.cache, "important"@);
    lemma_lookup_then_skip_entry::<FileInfo>(acc19, "file"@, x.file, "important"@);
}

/// The `highlights` member of an encoded `Bookmark`.
pub(crate) proof fn lemma_bookmark_highlights(x: Bookmark)
    ensures
        Bookmark::wire_of(x).field("highlights"@) == Some(match x.highlights { Some(y) => <Vec<Highlight> as Wire>::wire_of(y), None => JsonModel::Null }),
{
    reveal_strlit("highlights");
    assert("highlights"@.len() == 10);
    reveal_strlit("_id");
    assert("_id"@.len() == 3);
    reveal_strlit("title");
    assert("title"@.len() == 5);
    reveal_strlit("excerpt");
    assert("excerpt"@.len() == 7);
    reveal_strlit("note");
    assert("note"@.len() == 4);
    reveal_strlit("type");
    assert("type"@.len() == 4);
    reveal_strlit("tags");
    assert("tags"@.len() == 4);
    reveal_strlit("cover");
    assert("cover"@.len() == 5);
    reveal_strlit("link");
    assert("link"@.len() == 4);
    reveal_strlit("domain");
    assert("domain"@.len() == 6);
    reveal_strlit("created");
    assert("created"@.len() == 7);
    reveal_strlit("lastUpdate");
    assert("lastUpdate"@[0] != "highlights"@[0]);
    reveal_strlit("media");
    assert("media"@.len() == 5);
    reveal_strlit("user");
    assert("user"@.len() == 4);
    reveal_strlit("collection");
    assert("collection"@[0] != "highlights"@[0]);
    reveal_strlit("important");
    assert("important"@.len() == 9);
    reveal_strlit("reminder");
    assert("reminder"@.len() == 8);
    reveal_strlit("broken");
    assert("broken"@.len() == 6);
    reveal_strlit("cache");
    assert("cache"@.len() == 5);
    reveal_strlit("file");
    assert("file"@.len() == 4);
    let acc0 = Seq::<(Seq<char>, JsonModel)>::empty();
    lemma_lookup_empty("highlights"@);
    let acc1 = acc0 + entry::<i64>("_id"@, x.id);
    let acc2 = acc1 + entry::<String>("title"@, x.title);
    let acc3 = acc2 + opt_entry::<String>("excerpt"@, x.excerpt);
    let acc4 = acc3 + opt_entry::<String>("note"@, x.note);
    let acc5 = acc4 + entry::<BookmarkType>("type"@, x.bookmark_type);
    let acc6 = acc5 + entry::<Vec<String>>("tags"@, x.tags);
    let acc7 = acc6 + opt_entry::<String>("cover"@, x.cover);
    let acc8 = acc7 + entry::<String>("link"@, x.link);
    let acc9 = acc8 + entry::<String>("domain"@, x.domain);
    let acc10 = acc9 + entry::<String>("created"@, x.created);
    let acc11 = acc10 + entry::<String>("lastUpdate"@, x.last_update);
    let acc12 = acc11 + opt_entry::<Vec<Media>>("media"@, x.media);
    let acc13 = acc12 + entry::<UserRef>("user"@, x.user);
    let acc14 = acc13 + entry::<CollectionRef>("collection"@, x.collection);
    let acc15 = acc14 + entry::<bool>("important"@, x.important);
    let acc16 = acc15 + opt_entry::<Vec<Highlight>>("highlights"@, x.highlights);
    let acc17 = acc16 + opt_entry::<Reminder>("reminder"@, x.reminder);
    let acc18 = acc17 + entry::<bool>("broken"@, x.broken);
    let acc19 = acc18 + opt_entry::<CacheInfo>("cache"@, x.cache);
    let acc20 = acc19 + skip_entry::<FileInfo>("file"@, x.file);
    lemma_lookup_then_entry::<i64>(acc0, "_id"@, x.id, "highlights"@);
    lemma_lookup_then_entry::<String>(acc1, "title"@, x.title, "highlights"@);
    lemma_lookup_then_opt_entry::<String>(acc2, "excerpt"@, x.excerpt, "highlights"@);
    lemma_lookup_then_opt_entry::<String>(acc3, "note"@, x.note, "highlights"@);
    lemma_lookup_then_entry::<BookmarkType>(acc4, "type"@, x.bookmark_type, "highlights"@);
    lemma_lookup_then_entry::<Vec<String>>(acc5, "tags"@, x.tags, "highlights"@);
    lemma_lookup_then_opt_entry::<String>(acc6, "cover"@, x.cover, "highlights"@);
    lemma_lookup_then_entry::<String>(acc7, "link"@, x.link, "highlights"@);
    lemma_lookup_then_entry::<String>(acc8, "domain"@, x.domain, "highlights"@);
    lemma_lookup_then_entry::<String>(acc9, "created"@, x.created, "highlights"@);
    lemma_lookup_then_entry::<String>(acc10, "lastUpdate"@, x.last_update, "highlights"@);
    lemma_lookup_then_opt_entry::<Vec<Media>>(acc11, "media"@, x.media, "highlights"@);
    lemma_lookup_then_entry::<UserRef>(acc12, "user"@, x.user, "highlights"@);
    lemma_lookup_then_entry::<CollectionRef>(acc13, "collection"@, x.collection, "highlights"@);
    lemma_lookup_then_entry::<bool>(acc14, "important"@, x.important, "highlights"@);
    lemma_lookup_then_opt_entry::<Vec<Highlight>>(acc15, "highlights"@, x.highlights, "highlights"@);
    lemma_lookup_then_opt_entry::<Reminder>(acc16, "reminder"@, x.reminder, "highlights"@);
    lemma_lookup_then_entry::<bool>(acc17, "broken"@, x.broken, "highlights"@);
    lemma_lookup_then_opt_entry::<CacheInfo>(acc18, "cache"@, x.cache, "highlights"@);
    lemma_lookup_then_skip_entry::<FileInfo>(acc19, "file"@, x.file, "highlights"@);
}

/// The `reminder` member of an encoded `Bookmark`.
pub(crate) proof fn lemma_bookmark_reminder(x: Bookmark)
    ensures
        Bookmark::wire_of(x).field("reminder"@) == Some(match x.reminder { Some(y) => <Reminder as Wire>::wire_of(y), None => JsonModel::Null }),
{
    reveal_strlit("reminder");
    assert("reminder"@.len() == 8);
    reveal_strlit("_id");
    assert("_id"@.len() == 3);
    reveal_strlit("title");
    assert("title"@.len() == 5);
    reveal_strlit("excerpt");
    assert("excerpt"@.len() == 7);
    reveal_strlit("note");
    assert("note"@.len() == 4);
    reveal_strlit("type");
    assert("type"@.len() == 4);
    reveal_strlit("tags");
    assert("tags"@.len() == 4);
    reveal_strlit("cover");
    assert("cover"@.len() == 5);
    reveal_strlit("link");
    assert("link"@.len() == 4);
    reveal_strlit("domain");
    assert("domain"@.len() == 6);
    reveal_strlit("created");
    assert("created"@.len() == 7);
    reveal_strlit("lastUpdate");
    assert("lastUpdate"@.len() == 10);
    reveal_strlit("media");
    assert("media"@.len() == 5);
    reveal_strlit("user");
    assert("user"@.len() == 4);
    reveal_strlit("collection");
    assert("collection"@.len() == 10);
    reveal_strlit("important");
    assert("important"@.len() == 9);
    reveal_strlit("highlights");
    assert("highlights"@.len() == 10);
    reveal_strlit("broken");
    assert("broken"@.len() == 6);
    reveal_strlit("cache");
    assert("cache"@.len() == 5);
    reveal_strlit("file");
    assert("file"@.len() == 4);
    let acc0 = Seq::<(Seq<char>, JsonModel)>::empty();
    lemma_lookup_empty("reminder"@);
    let acc1 = acc0 + entry::<i64>("_id"@, x.id);
    let acc2 = acc1 + entry::<String>("title"@, x.title);
    let acc3 = acc2 + opt_entry::<String>("excerpt"@, x.excerpt);
    let acc4 = acc3 + opt_entry::<String>("note"@, x.note);
    let acc5 = acc4 + entry::<BookmarkType>("type"@, x.bookmark_type);
    let acc6 = acc5 + entry::<Vec<String>>("tags"@, x.tags);
    let acc7 = acc6 + opt_entry::<String>("cover"@, x.cover);
    let acc8 = acc7 + entry::<String>("link"@, x.link);
    let acc9 = acc8 + entry::<String>("domain"@, x.domain);
    let acc10 = acc9 + entry::<String>("created"@, x.created);
    let acc11 = acc10 + entry::<String>("lastUpdate"@, x.last_update);
    let acc12 = acc11 + opt_entry::<Vec<Media>>("media"@, x.media);
    let acc13 = acc12 + entry::<UserRef>("user"@, x.user);
    let acc14 = acc13 + entry::<CollectionRef>("collection"@, x.collection);
    let acc15 = acc14 + entry::<bool>("important"@, x.important);
    let acc16 = acc15 + opt_entry::<Vec<Highlight>>("highlights"@, x.highlights);
    let acc17 = acc16 + opt_entry::<Reminder>("reminder"@, x.reminder);
    let acc18 = acc17 + entry::<bool>("broken"@, x.broken);
    let acc19 = acc18 + opt_entry::<CacheInfo>("cache"@, x.cache);
    let acc20 = acc19 + skip_entry::<FileInfo>("file"@, x.file);
    lemma_lookup_then_entry::<i64>(acc0, "_id"@, x.id, "reminder"@);
    lemma_lookup_then_entry::<String>(acc1, "title"@, x.title, "reminder"@);
    lemma_lookup_then_opt_entry::<String>(acc2, "excerpt"@, x.excerpt, "reminder"@);
    lemma_lookup_then_opt_entry::<String>(acc3, "note"@, x.note, "reminder"@);
    lemma_lookup_then_entry::<BookmarkType>(acc4, "type"@, x.bookmark_type, "reminder"@);
    lemma_lookup_then_entry::<Vec<String>>(acc5, "tags"@, x.tags, "reminder"@);
    lemma_lookup_then_opt_entry::<String>(acc6, "cover"@, x.cover, "reminder"@);
    lemma_lookup_then_entry::<String>(acc7, "link"@, x.link, "reminder"@);
    lemma_lookup_then_entry::<String>(acc8, "domain"@, x.domain, "reminder"@);
    lemma_lookup_then_entry::<String>(acc9, "created"@, x.created, "reminder"@);
    lemma_lookup_then_entry::<String>(acc10, "lastUpdate"@, x.last_update, "reminder"@);
    lemma_lookup_then_opt_entry::<Vec<Media>>(acc11, "media"@, x.media, "reminder"@);
    lemma_lookup_then_entry::<UserRef>(acc12, "user"@, x.user, "reminder"@);
    lemma_lookup_then_entry::<CollectionRef>(acc13, "collection"@, x.collection, "reminder"@);
    lemma_lookup_then_entry::<bool>(acc14, "important"@, x.important, "reminder"@);
    lemma_lookup_then_opt_entry::<Vec<Highlight>>(acc15, "highlights"@, x.highlights, "reminder"@);
    lemma_lookup_then_opt_entry::<Reminder>(acc16, "reminder"@, x.reminder, "reminder"@);
    lemma_lookup_then_entry::<bool>(acc17, "broken"@, x.broken, "reminder"@);
    lemma_lookup_then_opt_entry::<CacheInfo>(acc18, "cache"@, x.cache, "reminder"@);
    lemma_lookup_then_skip_entry::<FileInfo>(acc19, "file"@, x.file, "reminder"@);
}

/// The `broken` member of an encoded `Bookmark`.
pub(crate) proof fn lemma_bookmark_broken(x: Bookmark)
    ensures
        Bookmark::wire_of(x).field("broken"@) == Some(<bool as Wire>::wire_of(x.broken)),
{
    reveal_strlit("broken");
    assert("broken"@.len() == 6);
    reveal_strlit("_id");
    assert("_id"@.len() == 3);
    reveal_strlit("title");
    assert("title"@.len() == 5);
    reveal_strlit("excerpt");
    assert("excerpt"@.len() == 7);
    reveal_strlit("note");
    assert("note"@.len() == 4);
    reveal_strlit("type");
    assert("type"@.len() == 4);
    reveal_strlit("tags");
    assert("tags"@.len() == 4);
    reveal_strlit("cover");
    assert("cover"@.len() == 5);
    reveal_strlit("link");
    assert("link"@.len() == 4);
    reveal_strlit("domain");
    assert("domain"@[0] != "broken"@[0]);
    reveal_strlit("created");
    assert("created"@.len() == 7);
    reveal_strlit("lastUpdate");
    assert("lastUpdate"@.len() == 10);
    reveal_strlit("media");
    assert("media"@.len() == 5);
    reveal_strlit("user");
    assert("user"@.len() == 4);
    reveal_strlit("collection");
    assert("collection"@.len() == 10);
    reveal_strlit("important");
    assert("important"@.len() == 9);
    reveal_strlit("highlights");
    assert("highlights"@.len() == 10);
    reveal_strlit("reminder");
    assert("reminder"@.len() == 8);
    reveal_strlit("cache");
    assert("cache"@.len() == 5);
    reveal_strlit("file");
    assert("file"@.len() == 4);
    let acc0 = Seq::<(Seq<char>, JsonModel)>::empty();
    lemma_lookup_empty("broken"@);
    let acc1 = acc0 + entry::<i64>("_id"@, x.id);
    let acc2 = acc1 + entry::<String>("title"@, x.title);
    let acc3 = acc2 + opt_entry::<String>("excerpt"@, x.excerpt);
    let acc4 = acc3 + opt_entry::<String>("note"@, x.note);
    let acc5 = acc4 + entry::<BookmarkType>("type"@, x.bookmark_type);
    let acc6 = acc5 + entry::<Vec<String>>("tags"@, x.tags);
    let acc7 = acc6 + opt_entry::<String>("cover"@, x.cover);
    let acc8 = acc7 + entry::<String>("link"@, x.link);
    let acc9 = acc8 + entry::<String>("domain"@, x.domain);
    let acc10 = acc9 + entry::<String>("created"@, x.created);
    let acc11 = acc10 + entry::<String>("lastUpdate"@, x.last_update);
    let acc12 = acc11 + opt_entry::<Vec<Media>>("media"@, x.media);
    let acc13 = acc12 + entry::<UserRef>("user"@, x.user);
    let acc14 = acc13 + entry::<CollectionRef>("collection"@, x.collection);
    let acc15 = acc14 + entry::<bool>("important"@, x.important);
    let acc16 = acc15 + opt_entry::<Vec<Highlight>>("highlights"@, x.highlights);
    let acc17 = acc16 + opt_entry::<Reminder>("reminder"@, x.reminder);
    let acc18 = acc17 + entry::<bool>("broken"@, x.broken);
    let acc19 = acc18 + opt_entry::<CacheInfo>("cache"@, x.cache);
    let acc20 = acc19 + skip_entry::<FileInfo>("file"@, x.file);
    lemma_lookup_then_entry::<i64>(acc0, "_id"@, x.id, "broken"@);
    lemma_lookup_then_entry::<String>(acc1, "title"@, x.title, "broken"@);
    lemma_lookup_then_opt_entry::<String>(acc2, "excerpt"@, x.excerpt, "broken"@);
    lemma_lookup_then_opt_entry::<String>(acc3, "note"@, x.note, "broken"@);
    lemma_lookup_then_entry::<BookmarkType>(acc4, "type"@, x.bookmark_type, "broken"@);
    lemma_lookup_then_entry::<Vec<String>>(acc5, "tags"@, x.tags, "broken"@);
    lemma_lookup_then_opt_entry::<String>(acc6, "cover"@, x.cover, "broken"@);
    lemma_lookup_then_entry::<String>(acc7, "link"@, x.link, "broken"@);
    lemma_lookup_then_entry::<String>(acc8, "domain"@, x.domain, "broken"@);
    lemma_lookup_then_entry::<String>(acc9, "created"@, x.created, "broken"@);
    lemma_lookup_then_entry::<String>(acc10, "lastUpdate"@, x.last_update, "broken"@);
    lemma_lookup_then_opt_entry::<Vec<Media>>(acc11, "media"@, x.media, "broken"@);
    lemma_lookup_then_entry::<UserRef>(acc12, "user"@, x.user, "broken"@);
    lemma_lookup_then_entry::<CollectionRef>(acc13, "collection"@, x.collection, "broken"@);
    lemma_lookup_then_entry::<bool>(acc14, "important"@, x.important, "broken"@);
    lemma_lookup_then_opt_entry::<Vec<Highlight>>(acc15, "highlights"@, x.highlights, "broken"@);
    lemma_lookup_then_opt_entry::<Reminder>(acc16, "reminder"@, x.reminder, "broken"@);
    lemma_lookup_then_entry::<bool>(acc17, "broken"@, x.broken, "broken"@);
    lemma_lookup_then_opt_entry::<CacheInfo>(acc18, "cache"@, x.cache, "broken"@);
    lemma_lookup_then_skip_entry::<FileInfo>(acc19, "file"@, x.file, "broken"@);
}

/// The `cache` member of an encoded `Bookmark`.
pub(crate) proof fn lemma_bookmark_cache(x: Bookmark)
    ensures
        Bookmark::wire_of(x).field("cache"@) == Some(match x.cache { Some(y) => <CacheInfo as Wire>::wire_of(y), None => JsonModel::Null }),
{
    reveal_strlit("cache");
    assert("cache"@.len() == 5);
    reveal_strlit("_id");
    assert("_id"@.len() == 3);
    reveal_strlit("title");
    assert("title"@[0] != "cache"@[0]);
    reveal_strlit("excerpt");
    assert("excerpt"@.len() == 7);
    reveal_strlit("note");
    assert("note"@.len() == 4);
    reveal_strlit("type");
    assert("type"@.len() == 4);
    reveal_strlit("tags");
    assert("tags"@.len() == 4);
    reveal_strlit("cover");
    assert("cover"@[1] != "cache"@[1]);
    reveal_strlit("link");
    assert("link"@.len() == 4);
    reveal_strlit("domain");
    assert("domain"@.len() == 6);
    reveal_strlit("created");
    assert("created"@.len() == 7);
    reveal_strlit("lastUpdate");
    assert("lastUpdate"@.len() == 10);
    reveal_strlit("media");
    assert("media"@[0] != "cache"@[0]);
    reveal_strlit("user");
    assert("user"@.len() == 4);
    reveal_strlit("collection");
    assert("collection"@.len() == 10);
    reveal_strlit("important");
    assert("important"@.len() == 9);
    reveal_strlit("highlights");
    assert("highlights"@.len() == 10);
    reveal_strlit("reminder");
    assert("reminder"@.len() == 8);
    reveal_strlit("broken");
    assert("broken"@.len() == 6);
    reveal_strlit("file");
    assert("file"@.len() == 4);
    let acc0 = Seq::<(Seq<char>, JsonModel)>::empty();
    lemma_lookup_empty("cache"@);
    let acc1 = acc0 + entry::<i64>("_id"@, x.id);
    let acc2 = acc1 + entry::<String>("title"@, x.title);
    let acc3 = acc2 + opt_entry::<String>("excerpt"@, x.excerpt);
    let acc4 = acc3 + opt_entry::<String>("note"@, x.note);
    let acc5 = acc4 + entry::<BookmarkType>("type"@, x.bookmark_type);
    let acc6 = acc5 + entry::<Vec<String>>("tags"@, x.tags);
    let acc7 = acc6 + opt_entry::<String>("cover"@, x.cover);
    let acc8 = acc7 + entry::<String>("link"@, x.link);
    let acc9 = acc8 + entry::<String>("domain"@, x.domain);
    let acc10 = acc9 + entry::<String>("created"@, x.created);
    let acc11 = acc10 + entry::<String>("lastUpdate"@, x.last_update);
    let acc12 = acc11 + opt_entry::<Vec<Media>>("media"@, x.media);
    let acc13 = acc12 + entry::<UserRef>("user"@, x.user);
    let acc14 = acc13 + entry::<CollectionRef>("collection"@, x.collection);
    let acc15 = acc14 + entry::<bool>("important"@, x.important);
    let acc16 = acc15 + opt_entry::<Vec<Highlight>>("highlights"@, x.highlights);
    let acc17 = acc16 + opt_entry::<Reminder>("reminder"@, x.reminder);
    let acc18 = acc17 + entry::<bool>("broken"@, x.broken);
    let acc19 = acc18 + opt_entry::<CacheInfo>("cache"@, x.cache);
    let acc20 = acc19 + skip_entry::<FileInfo>("file"@, x.file);
    lemma_lookup_then_entry::<i64>(acc0, "_id"@, x.id, "cache"@);
    lemma_lookup_then_entry::<String>(acc1, "title"@, x.title, "cache"@);
    lemma_lookup_then_opt_entry::<String>(acc2, "excerpt"@, x.excerpt, "cache"@);
    lemma_lookup_then_opt_entry::<String>(acc3, "note"@, x.note, "cache"@);
    lemma_lookup_then_entry::<BookmarkType>(acc4, "type"@, x.bookmark_type, "cache"@);
    lemma_lookup_then_entry::<Vec<String>>(acc5, "tags"@, x.tags, "cache"@);
    lemma_lookup_then_opt_entry::<String>(acc6, "cover"@, x.cover, "cache"@);
    lemma_lookup_then_entry::<String>(acc7, "link"@, x.link, "cache"@);
    lemma_lookup_then_entry::<String>(acc8, "domain"@, x.domain, "cache"@);
    lemma_lookup_then_entry::<String>(acc9, "created"@, x.created, "cache"@);
    lemma_lookup_then_entry::<String>(acc10, "lastUpdate"@, x.last_update, "cache"@);
    lemma_lookup_then_opt_entry::<Vec<Media>>(acc11, "media"@, x.media, "cache"@);
    lemma_lookup_then_entry::<UserRef>(acc12, "user"@, x.user, "cache"@);
    lemma_lookup_then_entry::<CollectionRef>(acc13, "collection"@, x.collection, "cache"@);
    lemma_lookup_then_entry::<bool>(acc14, "important"@, x.important, "cache"@);
    lemma_lookup_then_opt_entry::<Vec<Highlight>>(acc15, "highlights"@, x.highlights, "cache"@);
    lemma_lookup_then_opt_entry::<Reminder>(acc16, "reminder"@, x.reminder, "cache"@);
    lemma_lookup_then_entry::<bool>(acc17, "broken"@, x.broken, "cache"@);
    lemma_lookup_then_opt_entry::<CacheInfo>(acc18, "cache"@, x.cache, "cache"@);
    lemma_lookup_then_skip_entry::<FileInfo>(acc19, "file"@, x.file, "cache"@);
}

/// The `file` member of an encoded `Bookmark`.
pub(crate) proof fn lemma_bookmark_file(x: Bookmark)
    ensures
        Bookmark::wire_of(x).field("file"@) == match x.file { Some(y) => Some(<FileInfo as Wire>::wire_of(y)), None => None },
{
    reveal_strlit("file");
    assert("file"@.len() == 4);
    reveal_strlit("_id");
    assert("_id"@.len() == 3);
    reveal_strlit("title");
    assert("title"@.len() == 5);
    reveal_strlit("excerpt");
    assert("excerpt"@.len() == 7);
    reveal_strlit("note");
    assert("note"@[0] != "file"@[0]);
    reveal_strlit("type");
    assert("type"@[0] != "file"@[0]);
    reveal_strlit("tags");
    assert("tags"@[0] != "file"@[0]);
    reveal_strlit("cover");
    assert("cover"@.len() == 5);
    reveal_strlit("link");
    assert("link"@[0] != "file"@[0]);
    reveal_strlit("domain");
    assert("domain"@.len() == 6);
    reveal_strlit("created");
    assert("created"@.len() == 7);
    reveal_strlit("lastUpdate");
    assert("lastUpdate"@.len() == 10);
    reveal_strlit("media");
    assert("media"@.len() == 5);
    reveal_strlit("user");
    assert("user"@[0] != "file"@[0]);
    reveal_strlit("collection");
    assert("collection"@.len() == 10);
    reveal_strlit("important");
    assert("important"@.len() == 9);
    reveal_strlit("highlights");
    assert("highlights"@.len() == 10);
    reveal_strlit("reminder");
    assert("reminder"@.len() == 8);
    reveal_strlit("broken");
    assert("broken"@.len() == 6);
    reveal_strlit("cache");
    assert("cache"@.len() == 5);
    let acc0 = Seq::<(Seq<char>, JsonModel)>::empty();
    lemma_lookup_empty("file"@);
    let acc1 = acc0 + entry::<i64>("_id"@, x.id);
    let acc2 = acc1 + entry::<String>("title"@, x.title);
    let acc3 = acc2 + opt_entry::<String>("excerpt"@, x.excerpt);
    let acc4 = acc3 + opt_entry::<String>("note"@, x.note);
    let acc5 = acc4 + entry::<BookmarkType>("type"@, x.bookmark_type);
    let acc6 = acc5 + entry::<Vec<String>>("tags"@, x.tags);
    let acc7 = acc6 + opt_entry::<String>("cover"@, x.cover);
    let acc8 = acc7 + entry::<String>("link"@, x.link);
    let acc9 = acc8 + entry::<String>("domain"@, x.domain);
    let acc10 = acc9 + entry::<String>("created"@, x.created);
    let acc11 = acc10 + entry::<String>("lastUpdate"@, x.last_update);
    let acc12 = acc11 + opt_entry::<Vec<Media>>("media"@, x.media);
    let acc13 = acc12 + entry::<UserRef>("user"@, x.user);
    let acc14 = acc13 + entry::<CollectionRef>("collection"@, x.collection);
    let acc15 = acc14 + entry::<bool>("important"@, x.important);
    let acc16 = acc15 + opt_entry::<Vec<Highlight>>("highlights"@, x.highlights);
    let acc17 = acc16 + opt_entry::<Reminder>("reminder"@, x.reminder);
    let acc18 = acc17 + entry::<bool>("broken"@, x.broken);
    let acc19 = acc18 + opt_entry::<CacheInfo>("cache"@, x.cache);
    let acc20 = acc19 + skip_entry::<FileInfo>("file"@, x.file);
    lemma_lookup_then_entry::<i64>(acc0, "_id"@, x.id, "file"@);
    lemma_lookup_then_entry::<String>(acc1, "title"@, x.title, "file"@);
    lemma_lookup_then_opt_entry::<String>(acc2, "excerpt"@, x.excerpt, "file"@);
    lemma_lookup_then_opt_entry::<String>(acc3, "note"@, x.note, "file"@);
    lemma_lookup_then_entry::<BookmarkType>(acc4, "type"@, x.bookmark_type, "file"@);
    lemma_lookup_then_entry::<Vec<String>>(acc5, "tags"@, x.tags, "file"@);
    lemma_lookup_then_opt_entry::<String>(acc6, "cover"@, x.cover, "file"@);
    lemma_lookup_then_entry::<String>(acc7, "link"@, x.link, "file"@);
    lemma_lookup_then_entry::<String>(acc8, "domain"@, x.domain, "file"@);
    lemma_lookup_then_entry::<String>(acc9, "created"@, x.created, "file"@);
    lemma_lookup_then_entry::<String>(acc10, "lastUpdate"@, x.last_update, "file"@);
    lemma_lookup_then_opt_entry::<Vec<Media>>(acc11, "media"@, x.media, "file"@);
    lemma_lookup_then_entry::<UserRef>(acc12, "user"@, x.user, "file"@);
    lemma_lookup_then_entry::<CollectionRef>(acc13, "collection"@, x.collection, "file"@);
    lemma_lookup_then_entry::<bool>(acc14, "important"@, x.important, "file"@);
    lemma_lookup_then_opt_entry::<Vec<Highlight>>(acc15, "highlights"@, x.highlights, "file"@);
    lemma_lookup_then_opt_entry::<Reminder>(acc16, "reminder"@, x.reminder, "file"@);
    lemma_lookup_then_entry::<bool>(acc17, "broken"@, x.broken, "file"@);
    lemma_lookup_then_opt_entry::<CacheInfo>(acc18, "cache"@, x.cache, "file"@);
    lemma_lookup_then_skip_entry::<FileInfo>(acc19, "file"@, x.file, "file"@);
}

/// What a bookmark points to.
#[derive(Debug, Clone, Copy, PartialEq, Eq, Structural)]
pub enum BookmarkType {
    Link,
    Article,
    Image,
    Video,
    Document,
    Audio,
}

impl BookmarkType {
    /// The name of this value on the wire.
    pub open spec fn spec_wire_name(self) -> Seq<char> {
        match self {
            BookmarkType::Link => "link"@,
            BookmarkType::Article => "article"@,
            BookmarkType::Image => "image"@,
            BookmarkType::Video => "video"@,
            BookmarkType::Document => "document"@,
            BookmarkType::Audio => "audio"@,
        }
    }

    /// The value named `s` on the wire, if any.
    pub open spec fn spec_from_wire_name(s: Seq<char>) -> Option<Self> {
        if s == "link"@ {
            Some(BookmarkType::Link)
        } else if s == "article"@ {
            Some(BookmarkType::Article)
        } else if s == "image"@ {
            Some(BookmarkType::Image)
        } else if s == "video"@ {
            Some(BookmarkType::Video)
        } else if s == "document"@ {
            Some(BookmarkType::Document)
        } else if s == "audio"@ {
            Some(BookmarkType::Audio)
        } else {
            None
        }
    }

    /// The name of this value on the wire.
    pub fn wire_name(&self) -> (r: &'static str)
        ensures
            r@ == self.spec_wire_name(),
    {
        match self {
            BookmarkType::Link => "link",
            BookmarkType::Article => "article",
            BookmarkType::Image => "image",
            BookmarkType::Video => "video",
            BookmarkType::Document => "document",
            BookmarkType::Audio => "audio",
        }
    }

    /// The value named `s` on the wire, if any.
    pub fn from_wire_name(s: &str) -> (r: Option<Self>)
        ensures
            r == Self::spec_from_wire_name(s@),
    {
        if text_is(s, "link") {
            Some(BookmarkType::Link)
        } else if text_is(s, "article") {
            Some(BookmarkType::Article)
        } else if text_is(s, "image") {
            Some(BookmarkType::Image)
        } else if text_is(s, "video") {
            Some(BookmarkType::Video)
        } else if text_is(s, "document") {
            Some(BookmarkType::Document)
        } else if text_is(s, "audio") {
            Some(BookmarkType::Audio)
        } else {
            None
        }
    }
}

impl Wire for BookmarkType {
    open spec fn wire_ok(j: JsonModel) -> bool {
        j matches JsonModel::Str(s) && Self::spec_from_wire_name(s) is Some
    }

    open spec fn wire_is(j: JsonModel, x: BookmarkType) -> bool {
        j matches JsonModel::Str(s) && Self::spec_from_wire_name(s) == Some(x)
    }

    open spec fn wire_of(x: BookmarkType) -> JsonModel {
        JsonModel::Str(x.spec_wire_name())
    }

    fn decode(j: &Json) -> (r: Result<BookmarkType, String>) {
        match j {
            Json::Str(s) => match Self::from_wire_name(s.as_str()) {
                Some(v) => Ok(v),
                None => Err(String::from_str("unknown variant of BookmarkType")),
            },
            _ => Err(String::from_str("expected a string")),
        }
    }

    fn encode(&self) -> (r: Json) {
        Json::Str(String::from_str(self.wire_name()))
    }

    proof fn lemma_round_trip(x: Self) {
        reveal_strlit("article");
        reveal_strlit("audio");
        reveal_strlit("document");
        reveal_strlit("image");
        reveal_strlit("link");
        reveal_strlit("video");
        assert("article"@.len() == 7);
        assert("audio"@.len() == 5);
        assert("document"@.len() == 8);
        assert("image"@.len() == 5);
        assert("link"@.len() == 4);
        assert("video"@.len() == 5);
        assert("audio"@[0] != "image"@[0]);
        assert("audio"@[0] != "video"@[0]);
        assert("image"@[0] != "video"@[0]);
        match x {
            BookmarkType::Link => {},
            BookmarkType::Article => {},
            BookmarkType::Image => {},
            BookmarkType::Video => {},
            BookmarkType::Document => {},
            BookmarkType::Audio => {},
        }
    }
}

/// A media item of a bookmark.
#[derive(Debug, Clone)]
pub struct Media {
    pub link: String,
    pub media_type: MediaType,
    pub width: Option<i32>,
    pub height: Option<i32>,
}

impl Wire for Media {
    open spec fn wire_ok(j: JsonModel) -> bool {
        &&& j is Object
        &&& req_ok::<String>(j.field("link"@))
        &&& req_ok::<MediaType>(j.field("type"@))
        &&& opt_ok::<i32>(j.field("width"@))
        &&& opt_ok::<i32>(j.field("height"@))
    }

    open spec fn wire_is(j: JsonModel, x: Media) -> bool {
        &&& j is Object
        &&& req_is::<String>(j.field("link"@), x.link)
        &&& req_is::<MediaType>(j.field("type"@), x.media_type)
        &&& opt_is::<i32>(j.field("width"@), x.width)
        &&& opt_is::<i32>(j.field("height"@), x.height)
    }

    open spec fn wire_of(x: Media) -> JsonModel {
        JsonModel::Object(
            Seq::empty()
                + entry::<String>("link"@, x.link)
                + entry::<MediaType>("type"@, x.media_type)
                + opt_entry::<i32>("width"@, x.width)
                + opt_entry::<i32>("height"@, x.height)
        )
    }

    fn decode(j: &Json) -> (r: Result<Media, String>) {
        match expect_object(j) {
            Ok(()) => {},
            Err(e) => return Err(e),
        }
        let link = match decode_field::<String>(j, "link") {
            Ok(v) => v,
            Err(e) => return Err(e),
        };
        let media_type = match decode_field::<MediaType>(j, "type") {
            Ok(v) => v,
            Err(e) => return Err(e),
        };
        let width = match decode_opt_field::<i32>(j, "width") {
            Ok(v) => v,
            Err(e) => return Err(e),
        };
        let height = match decode_opt_field::<i32>(j, "height") {
            Ok(v) => v,
            Err(e) => return Err(e),
        };
        Ok(Media { link, media_type, width, height })
    }

    fn encode(&self) -> (r: Json) {
        let mut fields = no_fields();
        push_field::<String>(&mut fields, "link", &self.link);
        push_field::<MediaType>(&mut fields, "type", &self.media_type);
        push_opt::<i32>(&mut fields, "width", &self.width);
        push_opt::<i32>(&mut fields, "height", &self.height);
        object(fields)
    }

    proof fn lemma_round_trip(x: Self) {
        lemma_media_link(x);
        <String as Wire>::lemma_round_trip(x.link);
        lemma_media_media_type(x);
        <MediaType as Wire>::lemma_round_trip(x.media_type);
        lemma_media_width(x);
        lemma_opt_round_trip::<i32>(x.width);
        lemma_media_height(x);
        lemma_opt_round_trip::<i32>(x.height);
        let j = Self::wire_of(x);
        assert(req_ok::<String>(j.field("link"@)));
        assert(req_ok::<MediaType>(j.field("type"@)));
        assert(opt_ok::<i32>(j.field("width"@)));
        assert(opt_ok::<i32>(j.field("height"@)));
        assert(req_is::<String>(j.field("link"@), x.link));
        assert(req_is::<MediaType>(j.field("type"@), x.media_type));
        assert(opt_is::<i32>(j.field("width"@), x.width));
        assert(opt_is::<i32>(j.field("height"@), x.height));
        assert forall|y: Self| #[trigger] Self::wire_is(j, y) implies Self::wire_of(y) == j by {
            assert(entry::<String>("link"@, y.link) == entry::<String>("link"@, x.link));
            assert(entry::<MediaType>("type"@, y.media_type) == entry::<MediaType>("type"@, x.media_type));
            assert(opt_entry::<i32>("width"@, y.width) == opt_entry::<i32>("width"@, x.width));
            assert(opt_entry::<i32>("height"@, y.height) == opt_entry::<i32>("height"@, x.height));
        }
    }
}

/// The `link` member of an encoded `Media`.
pub(crate) proof fn lemma_media_link(x: Media)
    ensures
        Media::wire_of(x).field("link"@) == Some(<String as Wire>::wire_of(x.link)),
{
    reveal_strlit("link");
    assert("link"@.len() == 4);
    reveal_strlit("type");
    assert("type"@[0] != "link"@[0]);
    reveal_strlit("width");
    assert("width"@.len() == 5);
    reveal_strlit("height");
    assert("height"@.len() == 6);
    let acc0 = Seq::<(Seq<char>, JsonModel)>::empty();
    lemma_lookup_empty("link"@);
    let acc1 = acc0 + entry::<String>("link"@, x.link);
    let acc2 = acc1 + entry::<MediaType>("type"@, x.media_type);
    let acc3 = acc2 + opt_entry::<i32>("width"@, x.width);
    let acc4 = acc3 + opt_entry::<i32>("height"@, x.height);
    lemma_lookup_then_entry::<String>(acc0, "link"@, x.link, "link"@);
    lemma_lookup_then_entry::<MediaType>(acc1, "type"@, x.media_type, "link"@);
    lemma_lookup_then_opt_entry::<i32>(acc2, "width"@, x.width, "link"@);
    lemma_lookup_then_opt_entry::<i32>(acc3, "height"@, x.height, "link"@);
}

/// The `type` member of an encoded `Media`.
pub(crate) proof fn lemma_media_media_type(x: Media)
    ensures
        Media::wire_of(x).field("type"@) == Some(<MediaType as Wire>::wire_of(x.media_type)),
{
    reveal_strlit("type");
    assert("type"@.len() == 4);
    reveal_strlit("link");
    assert("link"@[0] != "type"@[0]);
    reveal_strlit("width");
    assert("width"@.len() == 5);
    reveal_strlit("height");
    assert("height"@.len() == 6);
    let acc0 = Seq::<(Seq<char>, JsonModel)>::empty();
    lemma_lookup_empty("type"@);
    let acc1 = acc0 + entry::<String>("link"@, x.link);
    let acc2 = acc1 + entry::<MediaType>("type"@, x.media_type);
    let acc3 = acc2 + opt_entry::<i32>("width"@, x.width);
    let acc4 = acc3 + opt_entry::<i32>("height"@, x.height);
    lemma_lookup_then_entry::<String>(acc0, "link"@, x.link, "type"@);
    lemma_lookup_then_entry::<MediaType>(acc1, "type"@, x.media_type, "type"@);
    lemma_lookup_then_opt_entry::<i32>(acc2, "width"@, x.width, "type"@);
    lemma_lookup_then_opt_entry::<i32>(acc3, "height"@, x.height, "type"@);
}

/// The `width` member of an encoded `Media`.
pub(crate) proof fn lemma_media_width(x: Media)
    ensures
        Media::wire_of(x).field("width"@) == Some(match x.width { Some(y) => <i32 as Wire>::wire_of(y), None => JsonModel::Null }),
{
    reveal_strlit("width");
    assert("width"@.len() == 5);
    reveal_strlit("link");
    assert("link"@.len() == 4);
    reveal_strlit("type");
    assert("type"@.len() == 4);
    reveal_strlit("height");
    assert("height"@.len() == 6);
    let acc0 = Seq::<(Seq<char>, JsonModel)>::empty();
    lemma_lookup_empty("width"@);
    let acc1 = acc0 + entry::<String>("link"@, x.link);
    let acc2 = acc1 + entry::<MediaType>("type"@, x.media_type);
    let acc3 = acc2 + opt_entry::<i32>("width"@, x.width);
    let acc4 = acc3 + opt_entry::<i32>("height"@, x.height);
    lemma_lookup_then_entry::<String>(acc0, "link"@, x.link, "width"@);
    lemma_lookup_then_entry::<MediaType>(acc1, "type"@, x.media_type, "width"@);
    lemma_lookup_then_opt_entry::<i32>(acc2, "width"@, x.width, "width"@);
    lemma_lookup_then_opt_entry::<i32>(acc3, "height"@, x.height, "width"@);
}

/// The `height` member of an encoded `Media`.
pub(crate) proof fn lemma_media_height(x: Media)
    ensures
        Media::wire_of(x).field("height"@) == Some(match x.height { Some(y) => <i32 as Wire>::wire_of(y), None => JsonModel::Null }),
{
    reveal_strlit("height");
    assert("height"@.len() == 6);
    reveal_strlit("link");
    assert("link"@.len() == 4);
    reveal_strlit("type");
    assert("type"@.len() == 4);
    reveal_strlit("width");
    assert("width"@.len() == 5);
    let acc0 = Seq::<(Seq<char>, JsonModel)>::empty();
    lemma_lookup_empty("height"@);
    let acc1 = acc0 + entry::<String>("link"@, x.link);
    let acc2 = acc1 + entry::<MediaType>("type"@, x.media_type);
    let acc3 = acc2 + opt_entry::<i32>("width"@, x.width);
    let acc4 = acc3 + opt_entry::<i32>("height"@, x.height);
    lemma_lookup_then_entry::<String>(acc0, "link"@, x.link, "height"@);
    lemma_lookup_then_entry::<MediaType>(acc1, "type"@, x.media_type, "height"@);
    lemma_lookup_then_opt_entry::<i32>(acc2, "width"@, x.width, "height"@);
    lemma_lookup_then_opt_entry::<i32>(acc3, "height"@, x.height, "height"@);
}

/// The kind of a media item.
#[derive(Debug, Clone, Copy, PartialEq, Eq, Structural)]
pub enum MediaType {
    Image,
    Video,
    Audio,
    Pdf,
    Doc,
}

impl MediaType {
    /// The name of this value on the wire.
    pub open spec fn spec_wire_name(self) -> Seq<char> {
        match self {
            MediaType::Image => "image"@,
            MediaType::Video => "video"@,
            MediaType::Audio => "audio"@,
            MediaType::Pdf => "pdf"@,
            MediaType::Doc => "doc"@,
        }
    }

    /// The value named `s` on the wire, if any.
    pub open spec fn spec_from_wire_name(s: Seq<char>) -> Option<Self> {
        if s == "image"@ {
            Some(MediaType::Image)
        } else if s == "video"@ {
            Some(MediaType::Video)
        } else if s == "audio"@ {
            Some(MediaType::Audio)
        } else if s == "pdf"@ {
            Some(MediaType::Pdf)
        } else if s == "doc"@ {
            Some(MediaType::Doc)
        } else {
            None
        }
    }

    /// The name of this value on the wire.
    pub fn wire_name(&self) -> (r: &'static str)
        ensures
            r@ == self.spec_wire_name(),
    {
        match self {
            MediaType::Image => "image",
            MediaType::Video => "video",
            MediaType::Audio => "audio",
            MediaType::Pdf => "pdf",
            MediaType::Doc => "doc",
        }
    }

    /// The value named `s` on the wire, if any.
    pub fn from_wire_name(s: &str) -> (r: Option<Self>)
        ensures
            r == Self::spec_from_wire_name(s@),
    {
        if text_is(s, "image") {
            Some(MediaType::Image)
        } else if text_is(s, "video") {
            Some(MediaType::Video)
        } else if text_is(s, "audio") {
            Some(MediaType::Audio)
        } else if text_is(s, "pdf") {
            Some(MediaType::Pdf)
        } else if text_is(s, "doc") {
            Some(MediaType::Doc)
        } else {
            None
        }
    }
}

impl Wire for MediaType {
    open spec fn wire_ok(j: JsonModel) -> bool {
        j matches JsonModel::Str(s) && Self::spec_from_wire_name(s) is Some
    }

    open spec fn wire_is(j: JsonModel, x: MediaType) -> bool {
        j matches JsonModel::Str(s) && Self::spec_from_wire_name(s) == Some(x)
    }

    open spec fn wire_of(x: MediaType) -> JsonModel {
        JsonModel::Str(x.spec_wire_name())
    }

    fn decode(j: &Json) -> (r: Result<MediaType, String>) {
        match j {
            Json::Str(s) => match Self::from_wire_name(s.as_str()) {
                Some(v) => Ok(v),
                None => Err(String::from_str("unknown variant of MediaType")),
            },
            _ => Err(String::from_str("expected a string")),
        }
    }

    fn encode(&self) -> (r: Json) {
        Json::Str(String::from_str(self.wire_name()))
    }

    proof fn lemma_round_trip(x: Self) {
        reveal_strlit("audio");
        reveal_strlit("doc");
        reveal_strlit("image");
        reveal_strlit("pdf");
        reveal_strlit("video");
        assert("audio"@.len() == 5);
        assert("doc"@.len() == 3);
        assert("image"@.len() == 5);
        assert("pdf"@.len() == 3);
        assert("video"@.len() == 5);
        assert("audio"@[0] != "image"@[0]);
        assert("audio"@[0] != "video"@[0]);
        assert("doc"@[0] != "pdf"@[0]);
        assert("image"@[0] != "video"@[0]);
        match x {
            MediaType::Image => {},
            MediaType::Video => {},
            MediaType::Audio => {},
            MediaType::Pdf => {},
            MediaType::Doc => {},
        }
    }
}

/// An uploaded file behind a bookmark.
#[derive(Debug, Clone)]
pub struct FileInfo {
    pub name: String,
    pub size: Option<i64>,
    pub file_type: String,
}

impl Wire for FileInfo {
    open spec fn wire_ok(j: JsonModel) -> bool {
        &&& j is Object
        &&& req_ok::<String>(j.field("name"@))
        &&& opt_ok::<i64>(j.field("size"@))
        &&& req_ok::<String>(j.field("type"@))
    }

    open spec fn wire_is(j: JsonModel, x: FileInfo) -> bool {
        &&& j is Object
        &&& req_is::<String>(j.field("name"@), x.name)
        &&& opt_is::<i64>(j.field("size"@), x.size)
        &&& req_is::<String>(j.field("type"@), x.file_type)
    }

    open spec fn wire_of(x: FileInfo) -> JsonModel {
        JsonModel::Object(
            Seq::empty()
                + entry::<String>("name"@, x.name)
                + skip_entry::<i64>("size"@, x.size)
                + entry::<String>("type"@, x.file_type)
        )
    }

    fn decode(j: &Json) -> (r: Result<FileInfo, String>) {
        match expect_object(j) {
            Ok(()) => {},
            Err(e) => return Err(e),
        }
        let name = match decode_field::<String>(j, "name") {
            Ok(v) => v,
            Err(e) => return Err(e),
        };
        let size = match decode_opt_field::<i64>(j, "size") {
            Ok(v) => v,
            Err(e) => return Err(e),
        };
        let file_type = match decode_field::<String>(j, "type") {
            Ok(v) => v,
            Err(e) => return Err(e),
        };
        Ok(FileInfo { name, size, file_type })
    }

    fn encode(&self) -> (r: Json) {
        let mut fields = no_fields();
        push_field::<String>(&mut fields, "name", &self.name);
        push_skip::<i64>(&mut fields, "size", &self.size);
        push_field::<String>(&mut fields, "type", &self.file_type);
        object(fields)
    }

    proof fn lemma_round_trip(x: Self) {
        lemma_file_info_name(x);
        <String as Wire>::lemma_round_trip(x.name);
        lemma_file_info_size(x);
        lemma_opt_round_trip::<i64>(x.size);
        lemma_file_info_file_type(x);
        <String as Wire>::lemma_round_trip(x.file_type);
        let j = Self::wire_of(x);
        assert(req_ok::<String>(j.field("name"@)));
        assert(opt_ok::<i64>(j.field("size"@)));
        assert(req_ok::<String>(j.field("type"@)));
        assert(req_is::<String>(j.field("name"@), x.name));
        assert(opt_is::<i64>(j.field("size"@), x.size));
        assert(req_is::<String>(j.field("type"@), x.file_type));
        assert forall|y: Self| #[trigger] Self::wire_is(j, y) implies Self::wire_of(y) == j by {
            assert(entry::<String>("name"@, y.name) == entry::<String>("name"@, x.name));
            assert(skip_entry::<i64>("size"@, y.size) == skip_entry::<i64>("size"@, x.size));
            assert(entry::<String>("type"@, y.file_type) == entry::<String>("type"@, x.file_type));
        }
    }
}

/// The `name` member of an encoded `FileInfo`.
pub(crate) proof fn lemma_file_info_name(x: FileInfo)
    ensures
        FileInfo::wire_of(x).field("name"@) == Some(<String as Wire>::wire_of(x.name)),
{
    reveal_strlit("name");
    assert("name"@.len() == 4);
    reveal_strlit("size");
    assert("size"@[0] != "name"@[0]);
    reveal_strlit("type");
    assert("type"@[0] != "name"@[0]);
    let acc0 = Seq::<(Seq<char>, JsonModel)>::empty();
    lemma_lookup_empty("name"@);
    let acc1 = acc0 + entry::<String>("name"@, x.name);
    let acc2 = acc1 + skip_entry::<i64>("size"@, x.size);
    let acc3 = acc2 + entry::<String>("type"@, x.file_type);
    lemma_lookup_then_entry::<String>(acc0, "name"@, x.name, "name"@);
    lemma_lookup_then_skip_entry::<i64>(acc1, "size"@, x.size, "name"@);
    lemma_lookup_then_entry::<String>(acc2, "type"@, x.file_type, "name"@);
}

/// The `size` member of an encoded `FileInfo`.
pub(crate) proof fn lemma_file_info_size(x: FileInfo)
    ensures
        FileInfo::wire_of(x).field("size"@) == match x.size { Some(y) => Some(<i64 as Wire>::wire_of(y)), None => None },
{
    reveal_strlit("size");
    assert("size"@.len() == 4);
    reveal_strlit("name");
    assert("name"@[0] != "size"@[0]);
    reveal_strlit("type");
    assert("type"@[0] != "size"@[0]);
    let acc0 = Seq::<(Seq<char>, JsonModel)>::empty();
    lemma_lookup_empty("size"@);
    let acc1 = acc0 + entry::<String>("name"@, x.name);
    let acc2 = acc1 + skip_entry::<i64>("size"@, x.size);
    let acc3 = acc2 + entry::<String>("type"@, x.file_type);
    lemma_lookup_then_entry::<String>(acc0, "name"@, x.name, "size"@);
    lemma_lookup_then_skip_entry::<i64>(acc1, "size"@, x.size, "size"@);
    lemma_lookup_then_entry::<String>(acc2, "type"@, x.file_type, "size"@);
}

/// The `type` member of an encoded `FileInfo`.
pub(crate) proof fn lemma_file_info_file_type(x: FileInfo)
    ensures
        FileInfo::wire_of(x).field("type"@) == Some(<String as Wire>::wire_of(x.file_type)),
{
    reveal_strlit("type");
    assert("type"@.len() == 4);
    reveal_strlit("name");
    assert("name"@[0] != "type"@[0]);
    reveal_strlit("size");
    assert("size"@[0] != "type"@[0]);
    let acc0 = Seq::<(Seq<char>, JsonModel)>::empty();
    lemma_lookup_empty("type"@);
    let acc1 = acc0 + entry::<String>("name"@, x.name);
    let acc2 = acc1 + skip_entry::<i64>("size"@, x.size);
    let acc3 = acc2 + entry::<String>("type"@, x.file_type);
    lemma_lookup_then_entry::<String>(acc0, "name"@, x.name, "type"@);
    lemma_lookup_then_skip_entry::<i64>(acc1, "size"@, x.size, "type"@);
    lemma_lookup_then_entry::<String>(acc2, "type"@, x.file_type, "type"@);
}

/// A reminder set on a bookmark.
#[derive(Debug, Clone)]
pub struct Reminder {
    pub data: Option<String>,
    pub note: Option<String>,
}

impl Wire for Reminder {
    open spec fn wire_ok(j: JsonModel) -> bool {
        &&& j is Object
        &&& opt_ok::<String>(j.field("data"@))
        &&& opt_ok::<String>(j.field("note"@))
    }

    open spec fn wire_is(j: JsonModel, x: Reminder) -> bool {
        &&& j is Object
        &&& opt_is::<String>(j.field("data"@), x.data)
        &&& opt_is::<String>(j.field("note"@), x.note)
    }

    open spec fn wire_of(x: Reminder) -> JsonModel {
        JsonModel::Object(
            Seq::empty()
                + opt_entry::<String>("data"@, x.data)
                + opt_entry::<String>("note"@, x.note)
        )
    }

    fn decode(j: &Json) -> (r: Result<Reminder, String>) {
        match expect_object(j) {
            Ok(()) => {},
            Err(e) => return Err(e),
        }
        let data = match decode_opt_field::<String>(j, "data") {
            Ok(v) => v,
            Err(e) => return Err(e),
        };
        let note = match decode_opt_field::<String>(j, "note") {
            Ok(v) => v,
            Err(e) => return Err(e),
        };
        Ok(Reminder { data, note })
    }

    fn encode(&self) -> (r: Json) {
        let mut fields = no_fields();
        push_opt::<String>(&mut fields, "data", &self.data);
        push_opt::<String>(&mut fields, "note", &self.note);
        object(fields)
    }

    proof fn lemma_round_trip(x: Self) {
        lemma_reminder_data(x);
        lemma_opt_round_trip::<String>(x.data);
        lemma_reminder_note(x);
        lemma_opt_round_trip::<String>(x.note);
        let j = Self::wire_of(x);
        assert(opt_ok::<String>(j.field("data"@)));
        assert(opt_ok::<String>(j.field("note"@)));
        assert(opt_is::<String>(j.field("data"@), x.data));
        assert(opt_is::<String>(j.field("note"@), x.note));
        assert forall|y: Self| #[trigger] Self::wire_is(j, y) implies Self::wire_of(y) == j by {
            assert(opt_entry::<String>("data"@, y.data) == opt_entry::<String>("data"@, x.data));
            assert(opt_entry::<String>("note"@, y.note) == opt_entry::<String>("note"@, x.note));
        }
    }
}

/// The `data` member of an encoded `Reminder`.
pub(crate) proof fn lemma_reminder_data(x: Reminder)
    ensures
        Reminder::wire_of(x).field("data"@) == Some(match x.data { Some(y) => <String as Wire>::wire_of(y), None => JsonModel::Null }),
{
    reveal_strlit("data");
    assert("data"@.len() == 4);
    reveal_strlit("note");
    assert("note"@[0] != "data"@[0]);
    let acc0 = Seq::<(Seq<char>, JsonModel)>::empty();
    lemma_lookup_empty("data"@);
    let acc1 = acc0 + opt_entry::<String>("data"@, x.data);
    let acc2 = acc1 + opt_entry::<String>("note"@, x.note);
    lemma_lookup_then_opt_entry::<String>(acc0, "data"@, x.data, "data"@);
    lemma_lookup_then_opt_entry::<String>(acc1, "note"@, x.note, "data"@);
}

/// The `note` member of an encoded `Reminder`.
pub(crate) proof fn lemma_reminder_note(x: Reminder)
    ensures
        Reminder::wire_of(x).field("note"@) == Some(match x.note { Some(y) => <String as Wire>::wire_of(y), None => JsonModel::Null }),
{
    reveal_strlit("note");
    assert("note"@.len() == 4);
    reveal_strlit("data");
    assert("data"@[0] != "note"@[0]);
    let acc0 = Seq::<(Seq<char>, JsonModel)>::empty();
    lemma_lookup_empty("note"@);
    let acc1 = acc0 + opt_entry::<String>("data"@, x.data);
    let acc2 = acc1 + opt_entry::<String>("note"@, x.note);
    lemma_lookup_then_opt_entry::<String>(acc0, "data"@, x.data, "note"@);
    lemma_lookup_then_opt_entry::<String>(acc1, "note"@, x.note, "note"@);
}

/// The permanent copy of a bookmarked page.
#[derive(Debug, Clone)]
pub struct CacheInfo {
    pub status: CacheStatus,
    pub size: Option<i64>,
    pub created: Option<String>,
}

impl Wire for CacheInfo {
    open spec fn wire_ok(j: JsonModel) -> bool {
        &&& j is Object
        &&& req_ok::<CacheStatus>(j.field("status"@))
        &&& opt_ok::<i64>(j.field("size"@))
        &&& opt_ok::<String>(j.field("created"@))
    }

    open spec fn wire_is(j: JsonModel, x: CacheInfo) -> bool {
        &&& j is Object
        &&& req_is::<CacheStatus>(j.field("status"@), x.status)
        &&& opt_is::<i64>(j.field("size"@), x.size)
        &&& opt_is::<String>(j.field("created"@), x.created)
    }

    open spec fn wire_of(x: CacheInfo) -> JsonModel {
        JsonModel::Object(
            Seq::empty()
                + entry::<CacheStatus>("status"@, x.status)
                + skip_entry::<i64>("size"@, x.size)
                + skip_entry::<String>("created"@, x.created)
        )
    }

    fn decode(j: &Json) -> (r: Result<CacheInfo, String>) {
        match expect_object(j) {
            Ok(()) => {},
            Err(e) => return Err(e),
        }
        let status = match decode_field::<CacheStatus>(j, "status") {
            Ok(v) => v,
            Err(e) => return Err(e),
        };
        let size = match decode_opt_field::<i64>(j, "size") {
            Ok(v) => v,
            Err(e) => return Err(e),
        };
        let created = match decode_opt_field::<String>(j, "created") {
            Ok(v) => v,
            Err(e) => return Err(e),
        };
        Ok(CacheInfo { status, size, created })
    }

    fn encode(&self) -> (r: Json) {
        let mut fields = no_fields();
        push_field::<CacheStatus>(&mut fields, "status", &self.status);
        push_skip::<i64>(&mut fields, "size", &self.size);
        push_skip::<String>(&mut fields, "created", &self.created);
        object(fields)
    }

    proof fn lemma_round_trip(x: Self) {
        lemma_cache_info_status(x);
        <CacheStatus as Wire>::lemma_round_trip(x.status);
        lemma_cache_info_size(x);
        lemma_opt_round_trip::<i64>(x.size);
        lemma_cache_info_created(x);
        lemma_opt_round_trip::<String>(x.created);
        let j = Self::wire_of(x);
        assert(req_ok::<CacheStatus>(j.field("status"@)));
        assert(opt_ok::<i64>(j.field("size"@)));
        assert(opt_ok::<String>(j.field("created"@)));
        assert(req_is::<CacheStatus>(j.field("status"@), x.status));
        assert(opt_is::<i64>(j.field("size"@), x.size));
        assert(opt_is::<String>(j.field("created"@), x.created));
        assert forall|y: Self| #[trigger] Self::wire_is(j, y) implies Self::wire_of(y) == j by {
            assert(entry::<CacheStatus>("status"@, y.status) == entry::<CacheStatus>("status"@, x.status));
            assert(skip_entry::<i64>("size"@, y.size) == skip_entry::<i64>("size"@, x.size));
            assert(skip_entry::<String>("created"@, y.created) == skip_entry::<String>("created"@, x.created));
        }
    }
}

/// The `status` member of an encoded `CacheInfo`.
pub(crate) proof fn lemma_cache_info_status(x: CacheInfo)
    ensures
        CacheInfo::wire_of(x).field("status"@) == Some(<CacheStatus as Wire>::wire_of(x.status)),
{
    reveal_strlit("status");
    assert("status"@.len() == 6);
    reveal_strlit("size");
    assert("size"@.len() == 4);
    reveal_strlit("created");
    assert("created"@.len() == 7);
    let acc0 = Seq::<(Seq<char>, JsonModel)>::empty();
    lemma_lookup_empty("status"@);
    let acc1 = acc0 + entry::<CacheStatus>("status"@, x.status);
    let acc2 = acc1 + skip_entry::<i64>("size"@, x.size);
    let acc3 = acc2 + skip_entry::<String>("created"@, x.created);
    lemma_lookup_then_entry::<CacheStatus>(acc0, "status"@, x.status, "status"@);
    lemma_lookup_then_skip_entry::<i64>(acc1, "size"@, x.size, "status"@);
    lemma_lookup_then_skip_entry::<String>(acc2, "created"@, x.created, "status"@);
}

/// The `size` member of an encoded `CacheInfo`.
pub(crate) proof fn lemma_cache_info_size(x: CacheInfo)
    ensures
        CacheInfo::wire_of(x).field("size"@) == match x.size { Some(y) => Some(<i64 as Wire>::wire_of(y)), None => None },
{
    reveal_strlit("size");
    assert("size"@.len() == 4);
    reveal_strlit("status");
    assert("status"@.len() == 6);
    reveal_strlit("created");
    assert("created"@.len() == 7);
    let acc0 = Seq::<(Seq<char>, JsonModel)>::empty();
    lemma_lookup_empty("size"@);
    let acc1 = acc0 + entry::<CacheStatus>("status"@, x.status);
    let acc2 = acc1 + skip_entry::<i64>("size"@, x.size);
    let acc3 = acc2 + skip_entry::<String>("created"@, x.created);
    lemma_lookup_then_entry::<CacheStatus>(acc0, "status"@, x.status, "size"@);
    lemma_lookup_then_skip_entry::<i64>(acc1, "size"@, x.size, "size"@);
    lemma_lookup_then_skip_entry::<String>(acc2, "created"@, x.created, "size"@);
}

/// The `created` member of an encoded `CacheInfo`.
pub(crate) proof fn lemma_cache_info_created(x: CacheInfo)
    ensures
        CacheInfo::wire_of(x).field("created"@) == match x.created { Some(y) => Some(<String as Wire>::wire_of(y)), None => None },
{
    reveal_strlit("created");
    assert("created"@.len() == 7);
    reveal_strlit("status");
    assert("status"@.len() == 6);
    reveal_strlit("size");
    assert("size"@.len() == 4);
    let acc0 = Seq::<(Seq<char>, JsonModel)>::empty();
    lemma_lookup_empty("created"@);
    let acc1 = acc0 + entry::<CacheStatus>("status"@, x.status);
    let acc2 = acc1 + skip_entry::<i64>("size"@, x.size);
    let acc3 = acc2 + skip_entry::<String>("created"@, x.created);
    lemma_lookup_then_entry::<CacheStatus>(acc0, "status"@, x.status, "created"@);
    lemma_lookup_then_skip_entry::<i64>(acc1, "size"@, x.size, "created"@);
    lemma_lookup_then_skip_entry::<String>(acc2, "created"@, x.created, "created"@);
}

/// The state of a permanent copy.
#[derive(Debug, Clone, Copy, PartialEq, Eq, Structural)]
pub enum CacheStatus {
    Ready,
    Retry,
    Failed,
    InvalidOrigin,
    InvalidTimeout,
    InvalidSize,
}

impl CacheStatus {
    /// The name of this value on the wire.
    pub open spec fn spec_wire_name(self) -> Seq<char> {
        match self {
            CacheStatus::Ready => "ready"@,
            CacheStatus::Retry => "retry"@,
            CacheStatus::Failed => "failed"@,
            CacheStatus::InvalidOrigin => "invalid-origin"@,
            CacheStatus::InvalidTimeout => "invalid-timeout"@,
            CacheStatus::InvalidSize => "invalid-size"@,
        }
    }

    /// The value named `s` on the wire, if any.
    pub open spec fn spec_from_wire_name(s: Seq<char>) -> Option<Self> {
        if s == "ready"@ {
            Some(CacheStatus::Ready)
        } else if s == "retry"@ {
            Some(CacheStatus::Retry)
        } else if s == "failed"@ {
            Some(CacheStatus::Failed)
        } else if s == "invalid-origin"@ {
            Some(CacheStatus::InvalidOrigin)
        } else if s == "invalid-timeout"@ {
            Some(CacheStatus::InvalidTimeout)
        } else if s == "invalid-size"@ {
            Some(CacheStatus::InvalidSize)
        } else {
            None
        }
    }

    /// The name of this value on the wire.
    pub fn wire_name(&self) -> (r: &'static str)
        ensures
            r@ == self.spec_wire_name(),
    {
        match self {
            CacheStatus::Ready => "ready",
            CacheStatus::Retry => "retry",
            CacheStatus::Failed => "failed",
            CacheStatus::InvalidOrigin => "invalid-origin",
            CacheStatus::InvalidTimeout => "invalid-timeout",
            CacheStatus::InvalidSize => "invalid-size",
        }
    }

    /// The value named `s` on the wire, if any.
    pub fn from_wire_name(s: &str) -> (r: Option<Self>)
        ensures
            r == Self::spec_from_wire_name(s@),
    {
        if text_is(s, "ready") {
            Some(CacheStatus::Ready)
        } else if text_is(s, "retry") {
            Some(CacheStatus::Retry)
        } else if text_is(s, "failed") {
            Some(CacheStatus::Failed)
        } else if text_is(s, "invalid-origin") {
            Some(CacheStatus::InvalidOrigin)
        } else if text_is(s, "invalid-timeout") {
            Some(CacheStatus::InvalidTimeout)
        } else if text_is(s, "invalid-size") {
            Some(CacheStatus::InvalidSize)
        } else {
            None
        }
    }
}

impl Wire for CacheStatus {
    open spec fn wire_ok(j: JsonModel) -> bool {
        j matches JsonModel::Str(s) && Self::spec_from_wire_name(s) is Some
    }

    open spec fn wire_is(j: JsonModel, x: CacheStatus) -> bool {
        j matches JsonModel::Str(s) && Self::spec_from_wire_name(s) == Some(x)
    }

    open spec fn wire_of(x: CacheStatus) -> JsonModel {
        JsonModel::Str(x.spec_wire_name())
    }

    fn decode(j: &Json) -> (r: Result<CacheStatus, String>) {
        match j {
            Json::Str(s) => match Self::from_wire_name(s.as_str()) {
                Some(v) => Ok(v),
                None => Err(String::from_str("unknown variant of CacheStatus")),
            },
            _ => Err(String::from_str("expected a string")),
        }
    }

    fn encode(&self) -> (r: Json) {
        Json::Str(String::from_str(self.wire_name()))
    }

    proof fn lemma_round_trip(x: Self) {
        reveal_strlit("failed");
        reveal_strlit("invalid-origin");
        reveal_strlit("invalid-size");
        reveal_strlit("invalid-timeout");
        reveal_strlit("ready");
        reveal_strlit("retry");
        assert("failed"@.len() == 6);
        assert("invalid-origin"@.len() == 14);
        assert("invalid-size"@.len() == 12);
        assert("invalid-timeout"@.len() == 15);
        assert("ready"@.len() == 5);
        assert("retry"@.len() == 5);
        assert("ready"@[2] != "retry"@[2]);
        match x {
            CacheStatus::Ready => {},
            CacheStatus::Retry => {},
            CacheStatus::Failed => {},
            CacheStatus::InvalidOrigin => {},
            CacheStatus::InvalidTimeout => {},
            CacheStatus::InvalidSize => {},
        }
    }
}

/// The envelope around one bookmark.
#[derive(Debug, Clone)]
pub struct BookmarkResponse {
    pub item: Bookmark,
}

impl Wire for BookmarkResponse {
    open spec fn wire_ok(j: JsonModel) -> bool {
        &&& j is Object
        &&& req_ok::<Bookmark>(j.field("item"@))
    }

    open spec fn wire_is(j: JsonModel, x: BookmarkResponse) -> bool {
        &&& j is Object
        &&& req_is::<Bookmark>(j.field("item"@), x.item)
    }

    open spec fn wire_of(x: BookmarkResponse) -> JsonModel {
        JsonModel::Object(
            Seq::empty()
                + entry::<Bookmark>("item"@, x.item)
        )
    }

    fn decode(j: &Json) -> (r: Result<BookmarkResponse, String>) {
        match expect_object(j) {
            Ok(()) => {},
            Err(e) => return Err(e),
        }
        let item = match decode_field::<Bookmark>(j, "item") {
            Ok(v) => v,
            Err(e) => return Err(e),
        };
        Ok(BookmarkResponse { item })
    }

    fn encode(&self) -> (r: Json) {
        let mut fields = no_fields();
        push_field::<Bookmark>(&mut fields, "item", &self.item);
        object(fields)
    }

    proof fn lemma_round_trip(x: Self) {
        lemma_bookmark_response_item(x);
        <Bookmark as Wire>::lemma_round_trip(x.item);
        let j = Self::wire_of(x);
        assert(req_ok::<Bookmark>(j.field("item"@)));
        assert(req_is::<Bookmark>(j.field("item"@), x.item));
        assert forall|y: Self| #[trigger] Self::wire_is(j, y) implies Self::wire_of(y) == j by {
            assert(entry::<Bookmark>("item"@, y.item) == entry::<Bookmark>("item"@, x.item));
        }
    }
}

/// The `item` member of an encoded `BookmarkResponse`.
pub(crate) proof fn lemma_bookmark_response_item(x: BookmarkResponse)
    ensures
        BookmarkResponse::wire_of(x).field("item"@) == Some(<Bookmark as Wire>::wire_of(x.item)),
{
    reveal_strlit("item");
    assert("item"@.len() == 4);
    let acc0 = Seq::<(Seq<char>, JsonModel)>::empty();
    lemma_lookup_empty("item"@);
    let acc1 = acc0 + entry::<Bookmark>("item"@, x.item);
    lemma_lookup_then_entry::<Bookmark>(acc0, "item"@, x.item, "item"@);
}

/// The envelope around a page of bookmarks.
#[derive(Debug, Clone)]
pub struct BookmarksResponse {
    pub items: Vec<Bookmark>,
    pub count: Option<i32>,
}

impl Wire for BookmarksResponse {
    open spec fn wire_ok(j: JsonModel) -> bool {
        &&& j is Object
        &&& req_ok::<Vec<Bookmark>>(j.field("items"@))
        &&& opt_ok::<i32>(j.field("count"@))
    }

    open spec fn wire_is(j: JsonModel, x: BookmarksResponse) -> bool {
        &&& j is Object
        &&& req_is::<Vec<Bookmark>>(j.field("items"@), x.items)
        &&& opt_is::<i32>(j.field("count"@), x.count)
    }

    open spec fn wire_of(x: BookmarksResponse) -> JsonModel {
        JsonModel::Object(
            Seq::empty()
                + entry::<Vec<Bookmark>>("items"@, x.items)
                + opt_entry::<i32>("count"@, x.count)
        )
    }

    fn decode(j: &Json) -> (r: Result<BookmarksResponse, String>) {
        match expect_object(j) {
            Ok(()) => {},
            Err(e) => return Err(e),
        }
        let items = match decode_field::<Vec<Bookmark>>(j, "items") {
            Ok(v) => v,
            Err(e) => return Err(e),
        };
        let count = match decode_opt_field::<i32>(j, "count") {
            Ok(v) => v,
            Err(e) => return Err(e),
        };
        Ok(BookmarksResponse { items, count })
    }

    fn encode(&self) -> (r: Json) {
        let mut fields = no_fields();
        push_field::<Vec<Bookmark>>(&mut fields, "items", &self.items);
        push_opt::<i32>(&mut fields, "count", &self.count);
        object(fields)
    }

    proof fn lemma_round_trip(x: Self) {
        lemma_bookmarks_response_items(x);
        <Vec<Bookmark> as Wire>::lemma_round_trip(x.items);
        lemma_bookmarks_response_count(x);
        lemma_opt_round_trip::<i32>(x.count);
        let j = Self::wire_of(x);
        assert(req_ok::<Vec<Bookmark>>(j.field("items"@)));
        assert(opt_ok::<i32>(j.field("count"@)));
        assert(req_is::<Vec<Bookmark>>(j.field("items"@), x.items));
        assert(opt_is::<i32>(j.field("count"@), x.count));
        assert forall|y: Self| #[trigger] Self::wire_is(j, y) implies Self::wire_of(y) == j by {
            assert(entry::<Vec<Bookmark>>("items"@, y.items) == entry::<Vec<Bookmark>>("items"@, x.items));
            assert(opt_entry::<i32>("count"@, y.count) == opt_entry::<i32>("count"@, x.count));
        }
    }
}

/// The `items` member of an encoded `BookmarksResponse`.
pub(crate) proof fn lemma_bookmarks_response_items(x: BookmarksResponse)
    ensures
        BookmarksResponse::wire_of(x).field("items"@) == Some(<Vec<Bookmark> as Wire>::wire_of(x.items)),
{
    reveal_strlit("items");
    assert("items"@.len() == 5);
    reveal_strlit("count");
    assert("count"@[0] != "items"@[0]);
    let acc0 = Seq::<(Seq<char>, JsonModel)>::empty();
    lemma_lookup_empty("items"@);
    let acc1 = acc0 + entry::<Vec<Bookmark>>("items"@, x.items);
    let acc2 = acc1 + opt_entry::<i32>("count"@, x.count);
    lemma_lookup_then_entry::<Vec<Bookmark>>(acc0, "items"@, x.items, "items"@);
    lemma_lookup_then_opt_entry::<i32>(acc1, "count"@, x.count, "items"@);
}

/// The `count` member of an encoded `BookmarksResponse`.
pub(crate) proof fn lemma_bookmarks_response_count(x: BookmarksResponse)
    ensures
        BookmarksResponse::wire_of(x).field("count"@) == Some(match x.count { Some(y) => <i32 as Wire>::wire_of(y), None => JsonModel::Null }),
{
    reveal_strlit("count");
    assert("count"@.len() == 5);
    reveal_strlit("items");
    assert("items"@[0] != "count"@[0]);
    let acc0 = Seq::<(Seq<char>, JsonModel)>::empty();
    lemma_lookup_empty("count"@);
    let acc1 = acc0 + entry::<Vec<Bookmark>>("items"@, x.items);
    let acc2 = acc1 + opt_entry::<i32>("count"@, x.count);
    lemma_lookup_then_entry::<Vec<Bookmark>>(acc0, "items"@, x.items, "count"@);
    lemma_lookup_then_opt_entry::<i32>(acc1, "count"@, x.count, "count"@);
}

/// A tag and the number of bookmarks that carry it.
#[derive(Debug, Clone)]
pub struct Tag {
    pub id: String,
    pub count: i32,
}

impl Wire for Tag {
    open spec fn wire_ok(j: JsonModel) -> bool {
        &&& j is Object
        &&& req_ok::<String>(j.field("_id"@))
        &&& req_ok::<i32>(j.field("count"@))
    }

    open spec fn wire_is(j: JsonModel, x: Tag) -> bool {
        &&& j is Object
        &&& req_is::<String>(j.field("_id"@), x.id)
        &&& req_is::<i32>(j.field("count"@), x.count)
    }

    open spec fn wire_of(x: Tag) -> JsonModel {
        JsonModel::Object(
            Seq::empty()
                + entry::<String>("_id"@, x.id)
                + entry::<i32>("count"@, x.count)
        )
    }

    fn decode(j: &Json) -> (r: Result<Tag, String>) {
        match expect_object(j) {
            Ok(()) => {},
            Err(e) => return Err(e),
        }
        let id = match decode_field::<String>(j, "_id") {
            Ok(v) => v,
            Err(e) => return Err(e),
        };
        let count = match decode_field::<i32>(j, "count") {
            Ok(v) => v,
            Err(e) => return Err(e),
        };
        Ok(Tag { id, count })
    }

    fn encode(&self) -> (r: Json) {
        let mut fields = no_fields();
        push_field::<String>(&mut fields, "_id", &self.id);
        push_field::<i32>(&mut fields, "count", &self.count);
        object(fields)
    }

    proof fn lemma_round_trip(x: Self) {
        lemma_tag_id(x);
        <String as Wire>::lemma_round_trip(x.id);
        lemma_tag_count(x);
        <i32 as Wire>::lemma_round_trip(x.count);
        let j = Self::wire_of(x);
        assert(req_ok::<String>(j.field("_id"@)));
        assert(req_ok::<i32>(j.field("count"@)));
        assert(req_is::<String>(j.field("_id"@), x.id));
        assert(req_is::<i32>(j.field("count"@), x.count));
        assert forall|y: Self| #[trigger] Self::wire_is(j, y) implies Self::wire_of(y) == j by {
            assert(entry::<String>("_id"@, y.id) == entry::<String>("_id"@, x.id));
            assert(entry::<i32>("count"@, y.count) == entry::<i32>("count"@, x.count));
        }
    }
}

/// The `_id` member of an encoded `Tag`.
pub(crate) proof fn lemma_tag_id(x: Tag)
    ensures
        Tag::wire_of(x).field("_id"@) == Some(<String as Wire>::wire_of(x.id)),
{
    reveal_strlit("_id");
    assert("_id"@.len() == 3);
    reveal_strlit("count");
    assert("count"@.len() == 5);
    let acc0 = Seq::<(Seq<char>, JsonModel)>::empty();
    lemma_lookup_empty("_id"@);
    let acc1 = acc0 + entry::<String>("_id"@, x.id);
    let acc2 = acc1 + entry::<i32>("count"@, x.count);
    lemma_lookup_then_entry::<String>(acc0, "_id"@, x.id, "_id"@);
    lemma_lookup_then_entry::<i32>(acc1, "count"@, x.count, "_id"@);
}

/// The `count` member of an encoded `Tag`.
pub(crate) proof fn lemma_tag_count(x: Tag)
    ensures
        Tag::wire_of(x).field("count"@) == Some(<i32 as Wire>::wire_of(x.count)),
{
    reveal_strlit("count");
    assert("count"@.len() == 5);
    reveal_strlit("_id");
    assert("_id"@.len() == 3);
    let acc0 = Seq::<(Seq<char>, JsonModel)>::empty();
    lemma_lookup_empty("count"@);
    let acc1 = acc0 + entry::<String>("_id"@, x.id);
    let acc2 = acc1 + entry::<i32>("count"@, x.count);
    lemma_lookup_then_entry::<String>(acc0, "_id"@, x.id, "count"@);
    lemma_lookup_then_entry::<i32>(acc1, "count"@, x.count, "count"@);
}

/// The envelope around a list of tags.
#[derive(Debug, Clone)]
pub struct TagsResponse {
    pub items: Vec<Tag>,
}

impl Wire for TagsResponse {
    open spec fn wire_ok(j: JsonModel) -> bool {
        &&& j is Object
        &&& req_ok::<Vec<Tag>>(j.field("items"@))
    }

    open spec fn wire_is(j: JsonModel, x: TagsResponse) -> bool {
        &&& j is Object
        &&& req_is::<Vec<Tag>>(j.field("items"@), x.items)
    }

    open spec fn wire_of(x: TagsResponse) -> JsonModel {
        JsonModel::Object(
            Seq::empty()
                + entry::<Vec<Tag>>("items"@, x.items)
        )
    }

    fn decode(j: &Json) -> (r: Result<TagsResponse, String>) {
        match expect_object(j) {
            Ok(()) => {},
            Err(e) => return Err(e),
        }
        let items = match decode_field::<Vec<Tag>>(j, "items") {
            Ok(v) => v,
            Err(e) => return Err(e),
        };
        Ok(TagsResponse { items })
    }

    fn encode(&self) -> (r: Json) {
        let mut fields = no_fields();
        push_field::<Vec<Tag>>(&mut fields, "items", &self.items);
        object(fields)
    }

    proof fn lemma_round_trip(x: Self) {
        lemma_tags_response_items(x);
        <Vec<Tag> as Wire>::lemma_round_trip(x.items);
        let j = Self::wire_of(x);
        assert(req_ok::<Vec<Tag>>(j.field("items"@)));
        assert(req_is::<Vec<Tag>>(j.field("items"@), x.items));
        assert forall|y: Self| #[trigger] Self::wire_is(j, y) implies Self::wire_of(y) == j by {
            assert(entry::<Vec<Tag>>("items"@, y.items) == entry::<Vec<Tag>>("items"@, x.items));
        }
    }
}

/// The `items` member of an encoded `TagsResponse`.
pub(crate) proof fn lemma_tags_response_items(x: TagsResponse)
    ensures
        TagsResponse::wire_of(x).field("items"@) == Some(<Vec<Tag> as Wire>::wire_of(x.items)),
{
    reveal_strlit("items");
    assert("items"@.len() == 5);
    let acc0 = Seq::<(Seq<char>, JsonModel)>::empty();
    lemma_lookup_empty("items"@);
    let acc1 = acc0 + entry::<Vec<Tag>>("items"@, x.items);
    lemma_lookup_then_entry::<Vec<Tag>>(acc0, "items"@, x.items, "items"@);
}

} // verus!
