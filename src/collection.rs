//! Collections.
use crate::json::{Json, JsonModel};
use crate::wire::{lemma_lookup_then_entry, lemma_lookup_then_opt_entry, lemma_lookup_then_skip_entry, lemma_opt_round_trip, lemma_lookup_empty, Wire, req_ok, req_is, opt_ok, opt_is, entry, opt_entry, skip_entry, decode_field, decode_opt_field, push_field, push_opt, push_skip, expect_object, object, no_fields, text_is};
use crate::user::UserRef;
use vstd::prelude::*;
use vstd::string::StringExecFns;

verus! {

/// How a collection lists its bookmarks.
#[derive(Debug, Clone, Copy, PartialEq, Eq, Structural)]
pub enum CollectionView {
    List,
    Simple,
    Grid,
    Masonry,
}

impl CollectionView {
    /// The name of this value on the wire.
    pub open spec fn spec_wire_name(self) -> Seq<char> {
        match self {
            CollectionView::List => "list"@,
            CollectionView::Simple => "simple"@,
            CollectionView::Grid => "grid"@,
            CollectionView::Masonry => "masonry"@,
        }
    }

    /// The value named `s` on the wire, if any.
    pub open spec fn spec_from_wire_name(s: Seq<char>) -> Option<Self> {
        if s == "list"@ {
            Some(CollectionView::List)
        } else if s == "simple"@ {
            Some(CollectionView::Simple)
        } else if s == "grid"@ {
            Some(CollectionView::Grid)
        } else if s == "masonry"@ {
            Some(CollectionView::Masonry)
        } else {
            None
        }
    }

    /// The name of this value on the wire.
    pub fn wire_name(&self) -> (r: &'static str)
        ensures
            r@ == self.spec_wire_name(),
    {
        match self {
            CollectionView::List => "list",
            CollectionView::Simple => "simple",
            CollectionView::Grid => "grid",
            CollectionView::Masonry => "masonry",
        }
    }

    /// The value named `s` on the wire, if any.
    pub fn from_wire_name(s: &str) -> (r: Option<Self>)
        ensures
            r == Self::spec_from_wire_name(s@),
    {
        if text_is(s, "list") {
            Some(CollectionView::List)
        } else if text_is(s, "simple") {
            Some(CollectionView::Simple)
        } else if text_is(s, "grid") {
            Some(CollectionView::Grid)
        } else if text_is(s, "masonry") {
            Some(CollectionView::Masonry)
        } else {
            None
        }
    }
}

impl Wire for CollectionView {
    open spec fn wire_ok(j: JsonModel) -> bool {
        j matches JsonModel::Str(s) && Self::spec_from_wire_name(s) is Some
    }

    open spec fn wire_is(j: JsonModel, x: CollectionView) -> bool {
        j matches JsonModel::Str(s) && Self::spec_from_wire_name(s) == Some(x)
    }

    open spec fn wire_of(x: CollectionView) -> JsonModel {
        JsonModel::Str(x.spec_wire_name())
    }

    fn decode(j: &Json) -> (r: Result<CollectionView, String>) {
        match j {
            Json::Str(s) => match Self::from_wire_name(s.as_str()) {
                Some(v) => Ok(v),
                None => Err(String::from_str("unknown variant of CollectionView")),
            },
            _ => Err(String::from_str("expected a string")),
        }
    }

    fn encode(&self) -> (r: Json) {
        Json::Str(String::from_str(self.wire_name()))
    }

    proof fn lemma_round_trip(x: Self) {
        reveal_strlit("grid");
        reveal_strlit("list");
        reveal_strlit("masonry");
        reveal_strlit("simple");
        assert("grid"@.len() == 4);
        assert("list"@.len() == 4);
        assert("masonry"@.len() == 7);
        assert("simple"@.len() == 6);
        assert("grid"@[0] != "list"@[0]);
        match x {
            CollectionView::List => {},
            CollectionView::Simple => {},
            CollectionView::Grid => {},
            CollectionView::Masonry => {},
        }
    }
}

/// A folder of bookmarks.
#[derive(Debug, Clone)]
pub struct Collection {
    pub id: i64,
    pub title: String,
    pub description: Option<String>,
    pub color: Option<String>,
    pub public: Option<bool>,
    pub view: CollectionView,
    pub sort: i32,
    pub cover: Option<Vec<String>>,
    pub count: i32,
    pub expanded: Option<bool>,
    pub parent: Option<ParentRef>,
    pub user: UserRef,
    pub created: String,
    pub last_update: String,
    pub creator_ref: Option<CreatorRef>,
    pub collaborators: Option<Vec<Collaborator>>,
    pub access: Option<AccessInfo>,
}

impl Wire for Collection {
    open spec fn wire_ok(j: JsonModel) -> bool {
        &&& j is Object
        &&& req_ok::<i64>(j.field("_id"@))
        &&& req_ok::<String>(j.field("title"@))
        &&& opt_ok::<String>(j.field("description"@))
        &&& opt_ok::<String>(j.field("color"@))
        &&& opt_ok::<bool>(j.field("public"@))
        &&& req_ok::<CollectionView>(j.field("view"@))
        &&& req_ok::<i32>(j.field("sort"@))
        &&& opt_ok::<Vec<String>>(j.field("cover"@))
        &&& req_ok::<i32>(j.field("count"@))
        &&& opt_ok::<bool>(j.field("expanded"@))
        &&& opt_ok::<ParentRef>(j.field("parent"@))
        &&& req_ok::<UserRef>(j.field("user"@))
        &&& req_ok::<String>(j.field("created"@))
        &&& req_ok::<String>(j.field("lastUpdate"@))
        &&& opt_ok::<CreatorRef>(j.field("creatorRef"@))
        &&& opt_ok::<Vec<Collaborator>>(j.field("collaborators"@))
        &&& opt_ok::<AccessInfo>(j.field("access"@))
    }

    open spec fn wire_is(j: JsonModel, x: Collection) -> bool {
        &&& j is Object
        &&& req_is::<i64>(j.field("_id"@), x.id)
        &&& req_is::<String>(j.field("title"@), x.title)
        &&& opt_is::<String>(j.field("description"@), x.description)
        &&& opt_is::<String>(j.field("color"@), x.color)
        &&& opt_is::<bool>(j.field("public"@), x.public)
        &&& req_is::<CollectionView>(j.field("view"@), x.view)
        &&& req_is::<i32>(j.field("sort"@), x.sort)
        &&& opt_is::<Vec<String>>(j.field("cover"@), x.cover)
        &&& req_is::<i32>(j.field("count"@), x.count)
        &&& opt_is::<bool>(j.field("expanded"@), x.expanded)
        &&& opt_is::<ParentRef>(j.field("parent"@), x.parent)
        &&& req_is::<UserRef>(j.field("user"@), x.user)
        &&& req_is::<String>(j.field("created"@), x.created)
        &&& req_is::<String>(j.field("lastUpdate"@), x.last_update)
        &&& opt_is::<CreatorRef>(j.field("creatorRef"@), x.creator_ref)
        &&& opt_is::<Vec<Collaborator>>(j.field("collaborators"@), x.collaborators)
        &&& opt_is::<AccessInfo>(j.field("access"@), x.access)
    }

    open spec fn wire_of(x: Collection) -> JsonModel {
        JsonModel::Object(
            Seq::empty()
                + entry::<i64>("_id"@, x.id)
                + entry::<String>("title"@, x.title)
                + opt_entry::<String>("description"@, x.description)
                + opt_entry::<String>("color"@, x.color)
                + opt_entry::<bool>("public"@, x.public)
                + entry::<CollectionView>("view"@, x.view)
                + entry::<i32>("sort"@, x.sort)
                + opt_entry::<Vec<String>>("cover"@, x.cover)
                + entry::<i32>("count"@, x.count)
                + opt_entry::<bool>("expanded"@, x.expanded)
                + opt_entry::<ParentRef>("parent"@, x.parent)
                + entry::<UserRef>("user"@, x.user)
                + entry::<String>("created"@, x.created)
                + entry::<String>("lastUpdate"@, x.last_update)
                + opt_entry::<CreatorRef>("creatorRef"@, x.creator_ref)
                + opt_entry::<Vec<Collaborator>>("collaborators"@, x.collaborators)
                + skip_entry::<AccessInfo>("access"@, x.access)
        )
    }

    fn decode(j: &Json) -> (r: Result<Collection, String>) {
        match expect_object(j) {
            Ok(()) => {},
            Err(e) => return Err(e),
        }
        let id = match decode_field::<i64>(j, "_id") {
            Ok(v) => v,
            Err(e) => return Err(e),
        };
        let title = match decode_field::<String>(j, "title") {
            Ok(v) => v,
            Err(e) => return Err(e),
        };
        let description = match decode_opt_field::<String>(j, "description") {
            Ok(v) => v,
            Err(e) => return Err(e),
        };
        let color = match decode_opt_field::<String>(j, "color") {
            Ok(v) => v,
            Err(e) => return Err(e),
        };
        let public = match decode_opt_field::<bool>(j, "public") {
            Ok(v) => v,
            Err(e) => return Err(e),
        };
        let view = match decode_field::<CollectionView>(j, "view") {
            Ok(v) => v,
            Err(e) => return Err(e),
        };
        let sort = match decode_field::<i32>(j, "sort") {
            Ok(v) => v,
            Err(e) => return Err(e),
        };
        let cover = match decode_opt_field::<Vec<String>>(j, "cover") {
            Ok(v) => v,
            Err(e) => return Err(e),
        };
        let count = match decode_field::<i32>(j, "count") {
            Ok(v) => v,
            Err(e) => return Err(e),
        };
        let expanded = match decode_opt_field::<bool>(j, "expanded") {
            Ok(v) => v,
            Err(e) => return Err(e),
        };
        let parent = match decode_opt_field::<ParentRef>(j, "parent") {
            Ok(v) => v,
            Err(e) => return Err(e),
        };
        let user = match decode_field::<UserRef>(j, "user") {
            Ok(v) => v,
            Err(e) => return Err(e),
        };
        let created = match decode_field::<String>(j, "created") {
            Ok(v) => v,
            Err(e) => return Err(e),
        };
        let last_update = match decode_field::<String>(j, "lastUpdate") {
            Ok(v) => v,
            Err(e) => return Err(e),
        };
        let creator_ref = match decode_opt_field::<CreatorRef>(j, "creatorRef") {
            Ok(v) => v,
            Err(e) => return Err(e),
        };
        let collaborators = match decode_opt_field::<Vec<Collaborator>>(j, "collaborators") {
            Ok(v) => v,
            Err(e) => return Err(e),
        };
        let access = match decode_opt_field::<AccessInfo>(j, "access") {
            Ok(v) => v,
            Err(e) => return Err(e),
        };
        Ok(Collection { id, title, description, color, public, view, sort, cover, count, expanded, parent, user, created, last_update, creator_ref, collaborators, access })
    }

    fn encode(&self) -> (r: Json) {
        let mut fields = no_fields();
        push_field::<i64>(&mut fields, "_id", &self.id);
        push_field::<String>(&mut fields, "title", &self.title);
        push_opt::<String>(&mut fields, "description", &self.description);
        push_opt::<String>(&mut fields, "color", &self.color);
        push_opt::<bool>(&mut fields, "public", &self.public);
        push_field::<CollectionView>(&mut fields, "view", &self.view);
        push_field::<i32>(&mut fields, "sort", &self.sort);
        push_opt::<Vec<String>>(&mut fields, "cover", &self.cover);
        push_field::<i32>(&mut fields, "count", &self.count);
        push_opt::<bool>(&mut fields, "expanded", &self.expanded);
        push_opt::<ParentRef>(&mut fields, "parent", &self.parent);
        push_field::<UserRef>(&mut fields, "user", &self.user);
        push_field::<String>(&mut fields, "created", &self.created);
        push_field::<String>(&mut fields, "lastUpdate", &self.last_update);
        push_opt::<CreatorRef>(&mut fields, "creatorRef", &self.creator_ref);
        push_opt::<Vec<Collaborator>>(&mut fields, "collaborators", &self.collaborators);
        push_skip::<AccessInfo>(&mut fields, "access", &self.access);
        object(fields)
    }

    proof fn lemma_round_trip(x: Self) {
        lemma_collection_id(x);
        <i64 as Wire>::lemma_round_trip(x.id);
        lemma_collection_title(x);
        <String as Wire>::lemma_round_trip(x.title);
        lemma_collection_description(x);
        lemma_opt_round_trip::<String>(x.description);
        lemma_collection_color(x);
        lemma_opt_round_trip::<String>(x.color);
        lemma_collection_public(x);
        lemma_opt_round_trip::<bool>(x.public);
        lemma_collection_view(x);
        <CollectionView as Wire>::lemma_round_trip(x.view);
        lemma_collection_sort(x);
        <i32 as Wire>::lemma_round_trip(x.sort);
        lemma_collection_cover(x);
        lemma_opt_round_trip::<Vec<String>>(x.cover);
        lemma_collection_count(x);
        <i32 as Wire>::lemma_round_trip(x.count);
        lemma_collection_expanded(x);
        lemma_opt_round_trip::<bool>(x.expanded);
        lemma_collection_parent(x);
        lemma_opt_round_trip::<ParentRef>(x.parent);
        lemma_collection_user(x);
        <UserRef as Wire>::lemma_round_trip(x.user);
        lemma_collection_created(x);
        <String as Wire>::lemma_round_trip(x.created);
        lemma_collection_last_update(x);
        <String as Wire>::lemma_round_trip(x.last_update);
        lemma_collection_creator_ref(x);
        lemma_opt_round_trip::<CreatorRef>(x.creator_ref);
        lemma_collection_collaborators(x);
        lemma_opt_round_trip::<Vec<Collaborator>>(x.collaborators);
        lemma_collection_access(x);
        lemma_opt_round_trip::<AccessInfo>(x.access);
        let j = Self::wire_of(x);
        assert(req_ok::<i64>(j.field("_id"@)));
        assert(req_ok::<String>(j.field("title"@)));
        assert(opt_ok::<String>(j.field("description"@)));
        assert(opt_ok::<String>(j.field("color"@)));
        assert(opt_ok::<bool>(j.field("public"@)));
        assert(req_ok::<CollectionView>(j.field("view"@)));
        assert(req_ok::<i32>(j.field("sort"@)));
        assert(opt_ok::<Vec<String>>(j.field("cover"@)));
        assert(req_ok::<i32>(j.field("count"@)));
        assert(opt_ok::<bool>(j.field("expanded"@)));
        assert(opt_ok::<ParentRef>(j.field("parent"@)));
        assert(req_ok::<UserRef>(j.field("user"@)));
        assert(req_ok::<String>(j.field("created"@)));
        assert(req_ok::<String>(j.field("lastUpdate"@)));
        assert(opt_ok::<CreatorRef>(j.field("creatorRef"@)));
        assert(opt_ok::<Vec<Collaborator>>(j.field("collaborators"@)));
        assert(opt_ok::<AccessInfo>(j.field("access"@)));
        assert(req_is::<i64>(j.field("_id"@), x.id));
        assert(req_is::<String>(j.field("title"@), x.title));
        assert(opt_is::<String>(j.field("description"@), x.description));
        assert(opt_is::<String>(j.field("color"@), x.color));
        assert(opt_is::<bool>(j.field("public"@), x.public));
        assert(req_is::<CollectionView>(j.field("view"@), x.view));
        assert(req_is::<i32>(j.field("sort"@), x.sort));
        assert(opt_is::<Vec<String>>(j.field("cover"@), x.cover));
        assert(req_is::<i32>(j.field("count"@), x.count));
        assert(opt_is::<bool>(j.field("expanded"@), x.expanded));
        assert(opt_is::<ParentRef>(j.field("parent"@), x.parent));
        assert(req_is::<UserRef>(j.field("user"@), x.user));
        assert(req_is::<String>(j.field("created"@), x.created));
        assert(req_is::<String>(j.field("lastUpdate"@), x.last_update));
        assert(opt_is::<CreatorRef>(j.field("creatorRef"@), x.creator_ref));
        assert(opt_is::<Vec<Collaborator>>(j.field("collaborators"@), x.collaborators));
        assert(opt_is::<AccessInfo>(j.field("access"@), x.access));
        assert forall|y: Self| #[trigger] Self::wire_is(j, y) implies Self::wire_of(y) == j by {
            assert(entry::<i64>("_id"@, y.id) == entry::<i64>("_id"@, x.id));
            assert(entry::<String>("title"@, y.title) == entry::<String>("title"@, x.title));
            assert(opt_entry::<String>("description"@, y.description) == opt_entry::<String>("description"@, x.description));
            assert(opt_entry::<String>("color"@, y.color) == opt_entry::<String>("color"@, x.color));
            assert(opt_entry::<bool>("public"@, y.public) == opt_entry::<bool>("public"@, x.public));
            assert(entry::<CollectionView>("view"@, y.view) == entry::<CollectionView>("view"@, x.view));
            assert(entry::<i32>("sort"@, y.sort) == entry::<i32>("sort"@, x.sort));
            assert(opt_entry::<Vec<String>>("cover"@, y.cover) == opt_entry::<Vec<String>>("cover"@, x.cover));
            assert(entry::<i32>("count"@, y.count) == entry::<i32>("count"@, x.count));
            assert(opt_entry::<bool>("expanded"@, y.expanded) == opt_entry::<bool>("expanded"@, x.expanded));
            assert(opt_entry::<ParentRef>("parent"@, y.parent) == opt_entry::<ParentRef>("parent"@, x.parent));
            assert(entry::<UserRef>("user"@, y.user) == entry::<UserRef>("user"@, x.user));
            assert(entry::<String>("created"@, y.created) == entry::<String>("created"@, x.created));
            assert(entry::<String>("lastUpdate"@, y.last_update) == entry::<String>("lastUpdate"@, x.last_update));
            assert(opt_entry::<CreatorRef>("creatorRef"@, y.creator_ref) == opt_entry::<CreatorRef>("creatorRef"@, x.creator_ref));
            assert(opt_entry::<Vec<Collaborator>>("collaborators"@, y.collaborators) == opt_entry::<Vec<Collaborator>>("collaborators"@, x.collaborators));
            assert(skip_entry::<AccessInfo>("access"@, y.access) == skip_entry::<AccessInfo>("access"@, x.access));
        }
    }
}

/// The `_id` member of an encoded `Collection`.
pub(crate) proof fn lemma_collection_id(x: Collection)
    ensures
        Collection::wire_of(x).field("_id"@) == Some(<i64 as Wire>::wire_of(x.id)),
{
    reveal_strlit("_id");
    assert("_id"@.len() == 3);
    reveal_strlit("title");
    assert("title"@.len() == 5);
    reveal_strlit("description");
    assert("description"@.len() == 11);
    reveal_strlit("color");
    assert("color"@.len() == 5);
    reveal_strlit("public");
    assert("public"@.len() == 6);
    reveal_strlit("view");
    assert("view"@.len() == 4);
    reveal_strlit("sort");
    assert("sort"@.len() == 4);
    reveal_strlit("cover");
    assert("cover"@.len() == 5);
    reveal_strlit("count");
    assert("count"@.len() == 5);
    reveal_strlit("expanded");
    assert("expanded"@.len() == 8);
    reveal_strlit("parent");
    assert("parent"@.len() == 6);
    reveal_strlit("user");
    assert("user"@.len() == 4);
    reveal_strlit("created");
    assert("created"@.len() == 7);
    reveal_strlit("lastUpdate");
    assert("lastUpdate"@.len() == 10);
    reveal_strlit("creatorRef");
    assert("creatorRef"@.len() == 10);
    reveal_strlit("collaborators");
    assert("collaborators"@.len() == 13);
    reveal_strlit("access");
    assert("access"@.len() == 6);
    let acc0 = Seq::<(Seq<char>, JsonModel)>::empty();
    lemma_lookup_empty("_id"@);
    let acc1 = acc0 + entry::<i64>("_id"@, x.id);
    let acc2 = acc1 + entry::<String>("title"@, x.title);
    let acc3 = acc2 + opt_entry::<String>("description"@, x.description);
    let acc4 = acc3 + opt_entry::<String>("color"@, x.color);
    let acc5 = acc4 + opt_entry::<bool>("public"@, x.public);
    let acc6 = acc5 + entry::<CollectionView>("view"@, x.view);
    let acc7 = acc6 + entry::<i32>("sort"@, x.sort);
    let acc8 = acc7 + opt_entry::<Vec<String>>("cover"@, x.cover);
    let acc9 = acc8 + entry::<i32>("count"@, x.count);
    let acc10 = acc9 + opt_entry::<bool>("expanded"@, x.expanded);
    let acc11 = acc10 + opt_entry::<ParentRef>("parent"@, x.parent);
    let acc12 = acc11 + entry::<UserRef>("user"@, x.user);
    let acc13 = acc12 + entry::<String>("created"@, x.created);
    let acc14 = acc13 + entry::<String>("lastUpdate"@, x.last_update);
    let acc15 = acc14 + opt_entry::<CreatorRef>("creatorRef"@, x.creator_ref);
    let acc16 = acc15 + opt_entry::<Vec<Collaborator>>("collaborators"@, x.collaborators);
    let acc17 = acc16 + skip_entry::<AccessInfo>("access"@, x.access);
    lemma_lookup_then_entry::<i64>(acc0, "_id"@, x.id, "_id"@);
    lemma_lookup_then_entry::<String>(acc1, "title"@, x.title, "_id"@);
    lemma_lookup_then_opt_entry::<String>(acc2, "description"@, x.description, "_id"@);
    lemma_lookup_then_opt_entry::<String>(acc3, "color"@, x.color, "_id"@);
    lemma_lookup_then_opt_entry::<bool>(acc4, "public"@, x.public, "_id"@);
    lemma_lookup_then_entry::<CollectionView>(acc5, "view"@, x.view, "_id"@);
    lemma_lookup_then_entry::<i32>(acc6, "sort"@, x.sort, "_id"@);
    lemma_lookup_then_opt_entry::<Vec<String>>(acc7, "cover"@, x.cover, "_id"@);
    lemma_lookup_then_entry::<i32>(acc8, "count"@, x.count, "_id"@);
    lemma_lookup_then_opt_entry::<bool>(acc9, "expanded"@, x.expanded, "_id"@);
    lemma_lookup_then_opt_entry::<ParentRef>(acc10, "parent"@, x.parent, "_id"@);
    lemma_lookup_then_entry::<UserRef>(acc11, "user"@, x.user, "_id"@);
    lemma_lookup_then_entry::<String>(acc12, "created"@, x.created, "_id"@);
    lemma_lookup_then_entry::<String>(acc13, "lastUpdate"@, x.last_update, "_id"@);
    lemma_lookup_then_opt_entry::<CreatorRef>(acc14, "creatorRef"@, x.creator_ref, "_id"@);
    lemma_lookup_then_opt_entry::<Vec<Collaborator>>(acc15, "collaborators"@, x.collaborators, "_id"@);
    lemma_lookup_then_skip_entry::<AccessInfo>(acc16, "access"@, x.access, "_id"@);
}

/// The `title` member of an encoded `Collection`.
pub(crate) proof fn lemma_collection_title(x: Collection)
    ensures
        Collection::wire_of(x).field("title"@) == Some(<String as Wire>::wire_of(x.title)),
{
    reveal_strlit("title");
    assert("title"@.len() == 5);
    reveal_strlit("_id");
    assert("_id"@.len() == 3);
    reveal_strlit("description");
    assert("description"@.len() == 11);
    reveal_strlit("color");
    assert("color"@[0] != "title"@[0]);
    reveal_strlit("public");
    assert("public"@.len() == 6);
    reveal_strlit("view");
    assert("view"@.len() == 4);
    reveal_strlit("sort");
    assert("sort"@.len() == 4);
    reveal_strlit("cover");
    assert("cover"@[0] != "title"@[0]);
    reveal_strlit("count");
    assert("count"@[0] != "title"@[0]);
    reveal_strlit("expanded");
    assert("expanded"@.len() == 8);
    reveal_strlit("parent");
    assert("parent"@.len() == 6);
    reveal_strlit("user");
    assert("user"@.len() == 4);
    reveal_strlit("created");
    assert("created"@.len() == 7);
    reveal_strlit("lastUpdate");
    assert("lastUpdate"@.len() == 10);
    reveal_strlit("creatorRef");
    assert("creatorRef"@.len() == 10);
    reveal_strlit("collaborators");
    assert("collaborators"@.len() == 13);
    reveal_strlit("access");
    assert("access"@.len() == 6);
    let acc0 = Seq::<(Seq<char>, JsonModel)>::empty();
    lemma_lookup_empty("title"@);
    let acc1 = acc0 + entry::<i64>("_id"@, x.id);
    let acc2 = acc1 + entry::<String>("title"@, x.title);
    let acc3 = acc2 + opt_entry::<String>("description"@, x.description);
    let acc4 = acc3 + opt_entry::<String>("color"@, x.color);
    let acc5 = acc4 + opt_entry::<bool>("public"@, x.public);
    let acc6 = acc5 + entry::<CollectionView>("view"@, x.view);
    let acc7 = acc6 + entry::<i32>("sort"@, x.sort);
    let acc8 = acc7 + opt_entry::<Vec<String>>("cover"@, x.cover);
    let acc9 = acc8 + entry::<i32>("count"@, x.count);
    let acc10 = acc9 + opt_entry::<bool>("expanded"@, x.expanded);
    let acc11 = acc10 + opt_entry::<ParentRef>("parent"@, x.parent);
    let acc12 = acc11 + entry::<UserRef>("user"@, x.user);
    let acc13 = acc12 + entry::<String>("created"@, x.created);
    let acc14 = acc13 + entry::<String>("lastUpdate"@, x.last_update);
    let acc15 = acc14 + opt_entry::<CreatorRef>("creatorRef"@, x.creator_ref);
    let acc16 = acc15 + opt_entry::<Vec<Collaborator>>("collaborators"@, x.collaborators);
    let acc17 = acc16 + skip_entry::<AccessInfo>("access"@, x.access);
    lemma_lookup_then_entry::<i64>(acc0, "_id"@, x.id, "title"@);
    lemma_lookup_then_entry::<String>(acc1, "title"@, x.title, "title"@);
    lemma_lookup_then_opt_entry::<String>(acc2, "description"@, x.description, "title"@);
    lemma_lookup_then_opt_entry::<String>(acc3, "color"@, x.color, "title"@);
    lemma_lookup_then_opt_entry::<bool>(acc4, "public"@, x.public, "title"@);
    lemma_lookup_then_entry::<CollectionView>(acc5, "view"@, x.view, "title"@);
    lemma_lookup_then_entry::<i32>(acc6, "sort"@, x.sort, "title"@);
    lemma_lookup_then_opt_entry::<Vec<String>>(acc7, "cover"@, x.cover, "title"@);
    lemma_lookup_then_entry::<i32>(acc8, "count"@, x.count, "title"@);
    lemma_lookup_then_opt_entry::<bool>(acc9, "expanded"@, x.expanded, "title"@);
    lemma_lookup_then_opt_entry::<ParentRef>(acc10, "parent"@, x.parent, "title"@);
    lemma_lookup_then_entry::<UserRef>(acc11, "user"@, x.user, "title"@);
    lemma_lookup_then_entry::<String>(acc12, "created"@, x.created, "title"@);
    lemma_lookup_then_entry::<String>(acc13, "lastUpdate"@, x.last_update, "title"@);
    lemma_lookup_then_opt_entry::<CreatorRef>(acc14, "creatorRef"@, x.creator_ref, "title"@);
    lemma_lookup_then_opt_entry::<Vec<Collaborator>>(acc15, "collaborators"@, x.collaborators, "title"@);
    lemma_lookup_then_skip_entry::<AccessInfo>(acc16, "access"@, x.access, "title"@);
}

/// The `description` member of an encoded `Collection`.
pub(crate) proof fn lemma_collection_description(x: Collection)
    ensures
        Collection::wire_of(x).field("description"@) == Some(match x.description { Some(y) => <String as Wire>::wire_of(y), None => JsonModel::Null }),
{
    reveal_strlit("description");
    assert("description"@.len() == 11);
    reveal_strlit("_id");
    assert("_id"@.len() == 3);
    reveal_strlit("title");
    assert("title"@.len() == 5);
    reveal_strlit("color");
    assert("color"@.len() == 5);
    reveal_strlit("public");
    assert("public"@.len() == 6);
    reveal_strlit("view");
    assert("view"@.len() == 4);
    reveal_strlit("sort");
    assert("sort"@.len() == 4);
    reveal_strlit("cover");
    assert("cover"@.len() == 5);
    reveal_strlit("count");
    assert("count"@.len() == 5);
    reveal_strlit("expanded");
    assert("expanded"@.len() == 8);
    reveal_strlit("parent");
    assert("parent"@.len() == 6);
    reveal_strlit("user");
    assert("user"@.len() == 4);
    reveal_strlit("created");
    assert("created"@.len() == 7);
    reveal_strlit("lastUpdate");
    assert("lastUpdate"@.len() == 10);
    reveal_strlit("creatorRef");
    assert("creatorRef"@.len() == 10);
    reveal_strlit("collaborators");
    assert("collaborators"@.len() == 13);
    reveal_strlit("access");
    assert("access"@.len() == 6);
    let acc0 = Seq::<(Seq<char>, JsonModel)>::empty();
    lemma_lookup_empty("description"@);
    let acc1 = acc0 + entry::<i64>("_id"@, x.id);
    let acc2 = acc1 + entry::<String>("title"@, x.title);
    let acc3 = acc2 + opt_entry::<String>("description"@, x.description);
    let acc4 = acc3 + opt_entry::<String>("color"@, x.color);
    let acc5 = acc4 + opt_entry::<bool>("public"@, x.public);
    let acc6 = acc5 + entry::<CollectionView>("view"@, x.view);
    let acc7 = acc6 + entry::<i32>("sort"@, x.sort);
    let acc8 = acc7 + opt_entry::<Vec<String>>("cover"@, x.cover);
    let acc9 = acc8 + entry::<i32>("count"@, x.count);
    let acc10 = acc9 + opt_entry::<bool>("expanded"@, x.expanded);
    let acc11 = acc10 + opt_entry::<ParentRef>("parent"@, x.parent);
    let acc12 = acc11 + entry::<UserRef>("user"@, x.user);
    let acc13 = acc12 + entry::<String>("created"@, x.created);
    let acc14 = acc13 + entry::<String>("lastUpdate"@, x.last_update);
    let acc15 = acc14 + opt_entry::<CreatorRef>("creatorRef"@, x.creator_ref);
    let acc16 = acc15 + opt_entry::<Vec<Collaborator>>("collaborators"@, x.collaborators);
    let acc17 = acc16 + skip_entry::<AccessInfo>("access"@, x.access);
    lemma_lookup_then_entry::<i64>(acc0, "_id"@, x.id, "description"@);
    lemma_lookup_then_entry::<String>(acc1, "title"@, x.title, "description"@);
    lemma_lookup_then_opt_entry::<String>(acc2, "description"@, x.description, "description"@);
    lemma_lookup_then_opt_entry::<String>(acc3, "color"@, x.color, "description"@);
    lemma_lookup_then_opt_entry::<bool>(acc4, "public"@, x.public, "description"@);
    lemma_lookup_then_entry::<CollectionView>(acc5, "view"@, x.view, "description"@);
    lemma_lookup_then_entry::<i32>(acc6, "sort"@, x.sort, "description"@);
    lemma_lookup_then_opt_entry::<Vec<String>>(acc7, "cover"@, x.cover, "description"@);
    lemma_lookup_then_entry::<i32>(acc8, "count"@, x.count, "description"@);
    lemma_lookup_then_opt_entry::<bool>(acc9, "expanded"@, x.expanded, "description"@);
    lemma_lookup_then_opt_entry::<ParentRef>(acc10, "parent"@, x.parent, "description"@);
    lemma_lookup_then_entry::<UserRef>(acc11, "user"@, x.user, "description"@);
    lemma_lookup_then_entry::<String>(acc12, "created"@, x.created, "description"@);
    lemma_lookup_then_entry::<String>(acc13, "lastUpdate"@, x.last_update, "description"@);
    lemma_lookup_then_opt_entry::<CreatorRef>(acc14, "creatorRef"@, x.creator_ref, "description"@);
    lemma_lookup_then_opt_entry::<Vec<Collaborator>>(acc15, "collaborators"@, x.collaborators, "description"@);
    lemma_lookup_then_skip_entry::<AccessInfo>(acc16, "access"@, x.access, "description"@);
}

/// The `color` member of an encoded `Collection`.
pub(crate) proof fn lemma_collection_color(x: Collection)
    ensures
        Collection::wire_of(x).field("color"@) == Some(match x.color { Some(y) => <String as Wire>::wire_of(y), None => JsonModel::Null }),
{
    reveal_strlit("color");
    assert("color"@.len() == 5);
    reveal_strlit("_id");
    assert("_id"@.len() == 3);
    reveal_strlit("title");
    assert("title"@[0] != "color"@[0]);
    reveal_strlit("description");
    assert("description"@.len() == 11);
    reveal_strlit("public");
    assert("public"@.len() == 6);
    reveal_strlit("view");
    assert("view"@.len() == 4);
    reveal_strlit("sort");
    assert("sort"@.len() == 4);
    reveal_strlit("cover");
    assert("cover"@[2] != "color"@[2]);
    reveal_strlit("count");
    assert("count"@[2] != "color"@[2]);
    reveal_strlit("expanded");
    assert("expanded"@.len() == 8);
    reveal_strlit("parent");
    assert("parent"@.len() == 6);
    reveal_strlit("user");
    assert("user"@.len() == 4);
    reveal_strlit("created");
    assert("created"@.len() == 7);
    reveal_strlit("lastUpdate");
    assert("lastUpdate"@.len() == 10);
    reveal_strlit("creatorRef");
    assert("creatorRef"@.len() == 10);
    reveal_strlit("collaborators");
    assert("collaborators"@.len() == 13);
    reveal_strlit("access");
    assert("access"@.len() == 6);
    let acc0 = Seq::<(Seq<char>, JsonModel)>::empty();
    lemma_lookup_empty("color"@);
    let acc1 = acc0 + entry::<i64>("_id"@, x.id);
    let acc2 = acc1 + entry::<String>("title"@, x.title);
    let acc3 = acc2 + opt_entry::<String>("description"@, x.description);
    let acc4 = acc3 + opt_entry::<String>("color"@, x.color);
    let acc5 = acc4 + opt_entry::<bool>("public"@, x.public);
    let acc6 = acc5 + entry::<CollectionView>("view"@, x.view);
    let acc7 = acc6 + entry::<i32>("sort"@, x.sort);
    let acc8 = acc7 + opt_entry::<Vec<String>>("cover"@, x.cover);
    let acc9 = acc8 + entry::<i32>("count"@, x.count);
    let acc10 = acc9 + opt_entry::<bool>("expanded"@, x.expanded);
    let acc11 = acc10 + opt_entry::<ParentRef>("parent"@, x.parent);
    let acc12 = acc11 + entry::<UserRef>("user"@, x.user);
    let acc13 = acc12 + entry::<String>("created"@, x.created);
    let acc14 = acc13 + entry::<String>("lastUpdate"@, x.last_update);
    let acc15 = acc14 + opt_entry::<CreatorRef>("creatorRef"@, x.creator_ref);
    let acc16 = acc15 + opt_entry::<Vec<Collaborator>>("collaborators"@, x.collaborators);
    let acc17 = acc16 + skip_entry::<AccessInfo>("access"@, x.access);
    lemma_lookup_then_entry::<i64>(acc0, "_id"@, x.id, "color"@);
    lemma_lookup_then_entry::<String>(acc1, "title"@, x.title, "color"@);
    lemma_lookup_then_opt_entry::<String>(acc2, "description"@, x.description, "color"@);
    lemma_lookup_then_opt_entry::<String>(acc3, "color"@, x.color, "color"@);
    lemma_lookup_then_opt_entry::<bool>(acc4, "public"@, x.public, "color"@);
    lemma_lookup_then_entry::<CollectionView>(acc5, "view"@, x.view, "color"@);
    lemma_lookup_then_entry::<i32>(acc6, "sort"@, x.sort, "color"@);
    lemma_lookup_then_opt_entry::<Vec<String>>(acc7, "cover"@, x.cover, "color"@);
    lemma_lookup_then_entry::<i32>(acc8, "count"@, x.count, "color"@);
    lemma_lookup_then_opt_entry::<bool>(acc9, "expanded"@, x.expanded, "color"@);
    lemma_lookup_then_opt_entry::<ParentRef>(acc10, "parent"@, x.parent, "color"@);
    lemma_lookup_then_entry::<UserRef>(acc11, "user"@, x.user, "color"@);
    lemma_lookup_then_entry::<String>(acc12, "created"@, x.created, "color"@);
    lemma_lookup_then_entry::<String>(acc13, "lastUpdate"@, x.last_update, "color"@);
    lemma_lookup_then_opt_entry::<CreatorRef>(acc14, "creatorRef"@, x.creator_ref, "color"@);
    lemma_lookup_then_opt_entry::<Vec<Collaborator>>(acc15, "collaborators"@, x.collaborators, "color"@);
    lemma_lookup_then_skip_entry::<AccessInfo>(acc16, "access"@, x.access, "color"@);
}

/// The `public` member of an encoded `Collection`.
pub(crate) proof fn lemma_collection_public(x: Collection)
    ensures
        Collection::wire_of(x).field("public"@) == Some(match x.public { Some(y) => <bool as Wire>::wire_of(y), None => JsonModel::Null }),
{
    reveal_strlit("public");
    assert("public"@.len() == 6);
    reveal_strlit("_id");
    assert("_id"@.len() == 3);
    reveal_strlit("title");
    assert("title"@.len() == 5);
    reveal_strlit("description");
    assert("description"@.len() == 11);
    reveal_strlit("color");
    assert("color"@.len() == 5);
    reveal_strlit("view");
    assert("view"@.len() == 4);
    reveal_strlit("sort");
    assert("sort"@.len() == 4);
    reveal_strlit("cover");
    assert("cover"@.len() == 5);
    reveal_strlit("count");
    assert("count"@.len() == 5);
    reveal_strlit("expanded");
    assert("expanded"@.len() == 8);
    reveal_strlit("parent");
    assert("parent"@[1] != "public"@[1]);
    reveal_strlit("user");
    assert("user"@.len() == 4);
    reveal_strlit("created");
    assert("created"@.len() == 7);
    reveal_strlit("lastUpdate");
    assert("lastUpdate"@.len() == 10);
    reveal_strlit("creatorRef");
    assert("creatorRef"@.len() == 10);
    reveal_strlit("collaborators");
    assert("collaborators"@.len() == 13);
    reveal_strlit("access");
    assert("access"@[0] != "public"@[0]);
    let acc0 = Seq::<(Seq<char>, JsonModel)>::empty();
    lemma_lookup_empty("public"@);
    let acc1 = acc0 + entry::<i64>("_id"@, x.id);
    let acc2 = acc1 + entry::<String>("title"@, x.title);
    let acc3 = acc2 + opt_entry::<String>("description"@, x.description);
    let acc4 = acc3 + opt_entry::<String>("color"@, x.color);
    let acc5 = acc4 + opt_entry::<bool>("public"@, x.public);
    let acc6 = acc5 + entry::<CollectionView>("view"@, x.view);
    let acc7 = acc6 + entry::<i32>("sort"@, x.sort);
    let acc8 = acc7 + opt_entry::<Vec<String>>("cover"@, x.cover);
    let acc9 = acc8 + entry::<i32>("count"@, x.count);
    let acc10 = acc9 + opt_entry::<bool>("expanded"@, x.expanded);
    let acc11 = acc10 + opt_entry::<ParentRef>("parent"@, x.parent);
    let acc12 = acc11 + entry::<UserRef>("user"@, x.user);
    let acc13 = acc12 + entry::<String>("created"@, x.created);
    let acc14 = acc13 + entry::<String>("lastUpdate"@, x.last_update);
    let acc15 = acc14 + opt_entry::<CreatorRef>("creatorRef"@, x.creator_ref);
    let acc16 = acc15 + opt_entry::<Vec<Collaborator>>("collaborators"@, x.collaborators);
    let acc17 = acc16 + skip_entry::<AccessInfo>("access"@, x.access);
    lemma_lookup_then_entry::<i64>(acc0, "_id"@, x.id, "public"@);
    lemma_lookup_then_entry::<String>(acc1, "title"@, x.title, "public"@);
    lemma_lookup_then_opt_entry::<String>(acc2, "description"@, x.description, "public"@);
    lemma_lookup_then_opt_entry::<String>(acc3, "color"@, x.color, "public"@);
    lemma_lookup_then_opt_entry::<bool>(acc4, "public"@, x.public, "public"@);
    lemma_lookup_then_entry::<CollectionView>(acc5, "view"@, x.view, "public"@);
    lemma_lookup_then_entry::<i32>(acc6, "sort"@, x.sort, "public"@);
    lemma_lookup_then_opt_entry::<Vec<String>>(acc7, "cover"@, x.cover, "public"@);
    lemma_lookup_then_entry::<i32>(acc8, "count"@, x.count, "public"@);
    lemma_lookup_then_opt_entry::<bool>(acc9, "expanded"@, x.expanded, "public"@);
    lemma_lookup_then_opt_entry::<ParentRef>(acc10, "parent"@, x.parent, "public"@);
    lemma_lookup_then_entry::<UserRef>(acc11, "user"@, x.user, "public"@);
    lemma_lookup_then_entry::<String>(acc12, "created"@, x.created, "public"@);
    lemma_lookup_then_entry::<String>(acc13, "lastUpdate"@, x.last_update, "public"@);
    lemma_lookup_then_opt_entry::<CreatorRef>(acc14, "creatorRef"@, x.creator_ref, "public"@);
    lemma_lookup_then_opt_entry::<Vec<Collaborator>>(acc15, "collaborators"@, x.collaborators, "public"@);
    lemma_lookup_then_skip_entry::<AccessInfo>(acc16, "access"@, x.access, "public"@);
}

/// The `view` member of an encoded `Collection`.
pub(crate) proof fn lemma_collection_view(x: Collection)
    ensures
        Collection::wire_of(x).field("view"@) == Some(<CollectionView as Wire>::wire_of(x.view)),
{
    reveal_strlit("view");
    assert("view"@.len() == 4);
    reveal_strlit("_id");
    assert("_id"@.len() == 3);
    reveal_strlit("title");
    assert("title"@.len() == 5);
    reveal_strlit("description");
    assert("description"@.len() == 11);
    reveal_strlit("color");
    assert("color"@.len() == 5);
    reveal_strlit("public");
    assert("public"@.len() == 6);
    reveal_strlit("sort");
    assert("sort"@[0] != "view"@[0]);
    reveal_strlit("cover");
    assert("cover"@.len() == 5);
    reveal_strlit("count");
    assert("count"@.len() == 5);
    reveal_strlit("expanded");
    assert("expanded"@.len() == 8);
    reveal_strlit("parent");
    assert("parent"@.len() == 6);
    reveal_strlit("user");
    assert("user"@[0] != "view"@[0]);
    reveal_strlit("created");
    assert("created"@.len() == 7);
    reveal_strlit("lastUpdate");
    assert("lastUpdate"@.len() == 10);
    reveal_strlit("creatorRef");
    assert("creatorRef"@.len() == 10);
    reveal_strlit("collaborators");
    assert("collaborators"@.len() == 13);
    reveal_strlit("access");
    assert("access"@.len() == 6);
    let acc0 = Seq::<(Seq<char>, JsonModel)>::empty();
    lemma_lookup_empty("view"@);
    let acc1 = acc0 + entry::<i64>("_id"@, x.id);
    let acc2 = acc1 + entry::<String>("title"@, x.title);
    let acc3 = acc2 + opt_entry::<String>("description"@, x.description);
    let acc4 = acc3 + opt_entry::<String>("color"@, x.color);
    let acc5 = acc4 + opt_entry::<bool>("public"@, x.public);
    let acc6 = acc5 + entry::<CollectionView>("view"@, x.view);
    let acc7 = acc6 + entry::<i32>("sort"@, x.sort);
    let acc8 = acc7 + opt_entry::<Vec<String>>("cover"@, x.cover);
    let acc9 = acc8 + entry::<i32>("count"@, x.count);
    let acc10 = acc9 + opt_entry::<bool>("expanded"@, x.expanded);
    let acc11 = acc10 + opt_entry::<ParentRef>("parent"@, x.parent);
    let acc12 = acc11 + entry::<UserRef>("user"@, x.user);
    let acc13 = acc12 + entry::<String>("created"@, x.created);
    let acc14 = acc13 + entry::<String>("lastUpdate"@, x.last_update);
    let acc15 = acc14 + opt_entry::<CreatorRef>("creatorRef"@, x.creator_ref);
    let acc16 = acc15 + opt_entry::<Vec<Collaborator>>("collaborators"@, x.collaborators);
    let acc17 = acc16 + skip_entry::<AccessInfo>("access"@, x.access);
    lemma_lookup_then_entry::<i64>(acc0, "_id"@, x.id, "view"@);
    lemma_lookup_then_entry::<String>(acc1, "title"@, x.title, "view"@);
    lemma_lookup_then_opt_entry::<String>(acc2, "description"@, x.description, "view"@);
    lemma_lookup_then_opt_entry::<String>(acc3, "color"@, x.color, "view"@);
    lemma_lookup_then_opt_entry::<bool>(acc4, "public"@, x.public, "view"@);
    lemma_lookup_then_entry::<CollectionView>(acc5, "view"@, x.view, "view"@);
    lemma_lookup_then_entry::<i32>(acc6, "sort"@, x.sort, "view"@);
    lemma_lookup_then_opt_entry::<Vec<String>>(acc7, "cover"@, x.cover, "view"@);
    lemma_lookup_then_entry::<i32>(acc8, "count"@, x.count, "view"@);
    lemma_lookup_then_opt_entry::<bool>(acc9, "expanded"@, x.expanded, "view"@);
    lemma_lookup_then_opt_entry::<ParentRef>(acc10, "parent"@, x.parent, "view"@);
    lemma_lookup_then_entry::<UserRef>(acc11, "user"@, x.user, "view"@);
    lemma_lookup_then_entry::<String>(acc12, "created"@, x.created, "view"@);
    lemma_lookup_then_entry::<String>(acc13, "lastUpdate"@, x.last_update, "view"@);
    lemma_lookup_then_opt_entry::<CreatorRef>(acc14, "creatorRef"@, x.creator_ref, "view"@);
    lemma_lookup_then_opt_entry::<Vec<Collaborator>>(acc15, "collaborators"@, x.collaborators, "view"@);
    lemma_lookup_then_skip_entry::<AccessInfo>(acc16, "access"@, x.access, "view"@);
}

/// The `sort` member of an encoded `Collection`.
pub(crate) proof fn lemma_collection_sort(x: Collection)
    ensures
        Collection::wire_of(x).field("sort"@) == Some(<i32 as Wire>::wire_of(x.sort)),
{
    reveal_strlit("sort");
    assert("sort"@.len() == 4);
    reveal_strlit("_id");
    assert("_id"@.len() == 3);
    reveal_strlit("title");
    assert("title"@.len() == 5);
    reveal_strlit("description");
    assert("description"@.len() == 11);
    reveal_strlit("color");
    assert("color"@.len() == 5);
    reveal_strlit("public");
    assert("public"@.len() == 6);
    reveal_strlit("view");
    assert("view"@[0] != "sort"@[0]);
    reveal_strlit("cover");
    assert("cover"@.len() == 5);
    reveal_strlit("count");
    assert("count"@.len() == 5);
    reveal_strlit("expanded");
    assert("expanded"@.len() == 8);
    reveal_strlit("parent");
    assert("parent"@.len() == 6);
    reveal_strlit("user");
    assert("user"@[0] != "sort"@[0]);
    reveal_strlit("created");
    assert("created"@.len() == 7);
    reveal_strlit("lastUpdate");
    assert("lastUpdate"@.len() == 10);
    reveal_strlit("creatorRef");
    assert("creatorRef"@.len() == 10);
    reveal_strlit("collaborators");
    assert("collaborators"@.len() == 13);
    reveal_strlit("access");
    assert("access"@.len() == 6);
    let acc0 = Seq::<(Seq<char>, JsonModel)>::empty();
    lemma_lookup_empty("sort"@);
    let acc1 = acc0 + entry::<i64>("_id"@, x.id);
    let acc2 = acc1 + entry::<String>("title"@, x.title);
    let acc3 = acc2 + opt_entry::<String>("description"@, x.description);
    let acc4 = acc3 + opt_entry::<String>("color"@, x.color);
    let acc5 = acc4 + opt_entry::<bool>("public"@, x.public);
    let acc6 = acc5 + entry::<CollectionView>("view"@, x.view);
    let acc7 = acc6 + entry::<i32>("sort"@, x.sort);
    let acc8 = acc7 + opt_entry::<Vec<String>>("cover"@, x.cover);
    let acc9 = acc8 + entry::<i32>("count"@, x.count);
    let acc10 = acc9 + opt_entry::<bool>("expanded"@, x.expanded);
    let acc11 = acc10 + opt_entry::<ParentRef>("parent"@, x.parent);
    let acc12 = acc11 + entry::<UserRef>("user"@, x.user);
    let acc13 = acc12 + entry::<String>("created"@, x.created);
    let acc14 = acc13 + entry::<String>("lastUpdate"@, x.last_update);
    let acc15 = acc14 + opt_entry::<CreatorRef>("creatorRef"@, x.creator_ref);
    let acc16 = acc15 + opt_entry::<Vec<Collaborator>>("collaborators"@, x.collaborators);
    let acc17 = acc16 + skip_entry::<AccessInfo>("access"@, x.access);
    lemma_lookup_then_entry::<i64>(acc0, "_id"@, x.id, "sort"@);
    lemma_lookup_then_entry::<String>(acc1, "title"@, x.title, "sort"@);
    lemma_lookup_then_opt_entry::<String>(acc2, "description"@, x.description, "sort"@);
    lemma_lookup_then_opt_entry::<String>(acc3, "color"@, x.color, "sort"@);
    lemma_lookup_then_opt_entry::<bool>(acc4, "public"@, x.public, "sort"@);
    lemma_lookup_then_entry::<CollectionView>(acc5, "view"@, x.view, "sort"@);
    lemma_lookup_then_entry::<i32>(acc6, "sort"@, x.sort, "sort"@);
    lemma_lookup_then_opt_entry::<Vec<String>>(acc7, "cover"@, x.cover, "sort"@);
    lemma_lookup_then_entry::<i32>(acc8, "count"@, x.count, "sort"@);
    lemma_lookup_then_opt_entry::<bool>(acc9, "expanded"@, x.expanded, "sort"@);
    lemma_lookup_then_opt_entry::<ParentRef>(acc10, "parent"@, x.parent, "sort"@);
    lemma_lookup_then_entry::<UserRef>(acc11, "user"@, x.user, "sort"@);
    lemma_lookup_then_entry::<String>(acc12, "created"@, x.created, "sort"@);
    lemma_lookup_then_entry::<String>(acc13, "lastUpdate"@, x.last_update, "sort"@);
    lemma_lookup_then_opt_entry::<CreatorRef>(acc14, "creatorRef"@, x.creator_ref, "sort"@);
    lemma_lookup_then_opt_entry::<Vec<Collaborator>>(acc15, "collaborators"@, x.collaborators, "sort"@);
    lemma_lookup_then_skip_entry::<AccessInfo>(acc16, "access"@, x.access, "sort"@);
}

/// The `cover` member of an encoded `Collection`.
pub(crate) proof fn lemma_collection_cover(x: Collection)
    ensures
        Collection::wire_of(x).field("cover"@) == Some(match x.cover { Some(y) => <Vec<String> as Wire>::wire_of(y), None => JsonModel::Null }),
{
    reveal_strlit("cover");
    assert("cover"@.len() == 5);
    reveal_strlit("_id");
    assert("_id"@.len() == 3);
    reveal_strlit("title");
    assert("title"@[0] != "cover"@[0]);
    reveal_strlit("description");
    assert("description"@.len() == 11);
    reveal_strlit("color");
    assert("color"@[2] != "cover"@[2]);
    reveal_strlit("public");
    assert("public"@.len() == 6);
    reveal_strlit("view");
    assert("view"@.len() == 4);
    reveal_strlit("sort");
    assert("sort"@.len() == 4);
    reveal_strlit("count");
    assert("count"@[2] != "cover"@[2]);
    reveal_strlit("expanded");
    assert("expanded"@.len() == 8);
    reveal_strlit("parent");
    assert("parent"@.len() == 6);
    reveal_strlit("user");
    assert("user"@.len() == 4);
    reveal_strlit("created");
    assert("created"@.len() == 7);
    reveal_strlit("lastUpdate");
    assert("lastUpdate"@.len() == 10);
    reveal_strlit("creatorRef");
    assert("creatorRef"@.len() == 10);
    reveal_strlit("collaborators");
    assert("collaborators"@.len() == 13);
    reveal_strlit("access");
    assert("access"@.len() == 6);
    let acc0 = Seq::<(Seq<char>, JsonModel)>::empty();
    lemma_lookup_empty("cover"@);
    let acc1 = acc0 + entry::<i64>("_id"@, x.id);
    let acc2 = acc1 + entry::<String>("title"@, x.title);
    let acc3 = acc2 + opt_entry::<String>("description"@, x.description);
    let acc4 = acc3 + opt_entry::<String>("color"@, x.color);
    let acc5 = acc4 + opt_entry::<bool>("public"@, x.public);
    let acc6 = acc5 + entry::<CollectionView>("view"@, x.view);
    let acc7 = acc6 + entry::<i32>("sort"@, x.sort);
    let acc8 = acc7 + opt_entry::<Vec<String>>("cover"@, x.cover);
    let acc9 = acc8 + entry::<i32>("count"@, x.count);
    let acc10 = acc9 + opt_entry::<bool>("expanded"@, x.expanded);
    let acc11 = acc10 + opt_entry::<ParentRef>("parent"@, x.parent);
    let acc12 = acc11 + entry::<UserRef>("user"@, x.user);
    let acc13 = acc12 + entry::<String>("created"@, x.created);
    let acc14 = acc13 + entry::<String>("lastUpdate"@, x.last_update);
    let acc15 = acc14 + opt_entry::<CreatorRef>("creatorRef"@, x.creator_ref);
    let acc16 = acc15 + opt_entry::<Vec<Collaborator>>("collaborators"@, x.collaborators);
    let acc17 = acc16 + skip_entry::<AccessInfo>("access"@, x.access);
    lemma_lookup_then_entry::<i64>(acc0, "_id"@, x.id, "cover"@);
    lemma_lookup_then_entry::<String>(acc1, "title"@, x.title, "cover"@);
    lemma_lookup_then_opt_entry::<String>(acc2, "description"@, x.description, "cover"@);
    lemma_lookup_then_opt_entry::<String>(acc3, "color"@, x.color, "cover"@);
    lemma_lookup_then_opt_entry::<bool>(acc4, "public"@, x.public, "cover"@);
    lemma_lookup_then_entry::<CollectionView>(acc5, "view"@, x.view, "cover"@);
    lemma_lookup_then_entry::<i32>(acc6, "sort"@, x.sort, "cover"@);
    lemma_lookup_then_opt_entry::<Vec<String>>(acc7, "cover"@, x.cover, "cover"@);
    lemma_lookup_then_entry::<i32>(acc8, "count"@, x.count, "cover"@);
    lemma_lookup_then_opt_entry::<bool>(acc9, "expanded"@, x.expanded, "cover"@);
    lemma_lookup_then_opt_entry::<ParentRef>(acc10, "parent"@, x.parent, "cover"@);
    lemma_lookup_then_entry::<UserRef>(acc11, "user"@, x.user, "cover"@);
    lemma_lookup_then_entry::<String>(acc12, "created"@, x.created, "cover"@);
    lemma_lookup_then_entry::<String>(acc13, "lastUpdate"@, x.last_update, "cover"@);
    lemma_lookup_then_opt_entry::<CreatorRef>(acc14, "creatorRef"@, x.creator_ref, "cover"@);
    lemma_lookup_then_opt_entry::<Vec<Collaborator>>(acc15, "collaborators"@, x.collaborators, "cover"@);
    lemma_lookup_then_skip_entry::<AccessInfo>(acc16, "access"@, x.access, "cover"@);
}

/// The `count` member of an encoded `Collection`.
pub(crate) proof fn lemma_collection_count(x: Collection)
    ensures
        Collection::wire_of(x).field("count"@) == Some(<i32 as Wire>::wire_of(x.count)),
{
    reveal_strlit("count");
    assert("count"@.len() == 5);
    reveal_strlit("_id");
    assert("_id"@.len() == 3);
    reveal_strlit("title");
    assert("title"@[0] != "count"@[0]);
    reveal_strlit("description");
    assert("description"@.len() == 11);
    reveal_strlit("color");
    assert("color"@[2] != "count"@[2]);
    reveal_strlit("public");
    assert("public"@.len() == 6);
    reveal_strlit("view");
    assert("view"@.len() == 4);
    reveal_strlit("sort");
    assert("sort"@.len() == 4);
    reveal_strlit("cover");
    assert("cover"@[2] != "count"@[2]);
    reveal_strlit("expanded");
    assert("expanded"@.len() == 8);
    reveal_strlit("parent");
    assert("parent"@.len() == 6);
    reveal_strlit("user");
    assert("user"@.len() == 4);
    reveal_strlit("created");
    assert("created"@.len() == 7);
    reveal_strlit("lastUpdate");
    assert("lastUpdate"@.len() == 10);
    reveal_strlit("creatorRef");
    assert("creatorRef"@.len() == 10);
    reveal_strlit("collaborators");
    assert("collaborators"@.len() == 13);
    reveal_strlit("access");
    assert("access"@.len() == 6);
    let acc0 = Seq::<(Seq<char>, JsonModel)>::empty();
    lemma_lookup_empty("count"@);
    let acc1 = acc0 + entry::<i64>("_id"@, x.id);
    let acc2 = acc1 + entry::<String>("title"@, x.title);
    let acc3 = acc2 + opt_entry::<String>("description"@, x.description);
    let acc4 = acc3 + opt_entry::<String>("color"@, x.color);
    let acc5 = acc4 + opt_entry::<bool>("public"@, x.public);
    let acc6 = acc5 + entry::<CollectionView>("view"@, x.view);
    let acc7 = acc6 + entry::<i32>("sort"@, x.sort);
    let acc8 = acc7 + opt_entry::<Vec<String>>("cover"@, x.cover);
    let acc9 = acc8 + entry::<i32>("count"@, x.count);
    let acc10 = acc9 + opt_entry::<bool>("expanded"@, x.expanded);
    let acc11 = acc10 + opt_entry::<ParentRef>("parent"@, x.parent);
    let acc12 = acc11 + entry::<UserRef>("user"@, x.user);
    let acc13 = acc12 + entry::<String>("created"@, x.created);
    let acc14 = acc13 + entry::<String>("lastUpdate"@, x.last_update);
    let acc15 = acc14 + opt_entry::<CreatorRef>("creatorRef"@, x.creator_ref);
    let acc16 = acc15 + opt_entry::<Vec<Collaborator>>("collaborators"@, x.collaborators);
    let acc17 = acc16 + skip_entry::<AccessInfo>("access"@, x.access);
    lemma_lookup_then_entry::<i64>(acc0, "_id"@, x.id, "count"@);
    lemma_lookup_then_entry::<String>(acc1, "title"@, x.title, "count"@);
    lemma_lookup_then_opt_entry::<String>(acc2, "description"@, x.description, "count"@);
    lemma_lookup_then_opt_entry::<String>(acc3, "color"@, x.color, "count"@);
    lemma_lookup_then_opt_entry::<bool>(acc4, "public"@, x.public, "count"@);
    lemma_lookup_then_entry::<CollectionView>(acc5, "view"@, x.view, "count"@);
    lemma_lookup_then_entry::<i32>(acc6, "sort"@, x.sort, "count"@);
    lemma_lookup_then_opt_entry::<Vec<String>>(acc7, "cover"@, x.cover, "count"@);
    lemma_lookup_then_entry::<i32>(acc8, "count"@, x.count, "count"@);
    lemma_lookup_then_opt_entry::<bool>(acc9, "expanded"@, x.expanded, "count"@);
    lemma_lookup_then_opt_entry::<ParentRef>(acc10, "parent"@, x.parent, "count"@);
    lemma_lookup_then_entry::<UserRef>(acc11, "user"@, x.user, "count"@);
    lemma_lookup_then_entry::<String>(acc12, "created"@, x.created, "count"@);
    lemma_lookup_then_entry::<String>(acc13, "lastUpdate"@, x.last_update, "count"@);
    lemma_lookup_then_opt_entry::<CreatorRef>(acc14, "creatorRef"@, x.creator_ref, "count"@);
    lemma_lookup_then_opt_entry::<Vec<Collaborator>>(acc15, "collaborators"@, x.collaborators, "count"@);
    lemma_lookup_then_skip_entry::<AccessInfo>(acc16, "access"@, x.access, "count"@);
}

/// The `expanded` member of an encoded `Collection`.
pub(crate) proof fn lemma_collection_expanded(x: Collection)
    ensures
        Collection::wire_of(x).field("expanded"@) == Some(match x.expanded { Some(y) => <bool as Wire>::wire_of(y), None => JsonModel::Null }),
{
    reveal_strlit("expanded");
    assert("expanded"@.len() == 8);
    reveal_strlit("_id");
    assert("_id"@.len() == 3);
    reveal_strlit("title");
    assert("title"@.len() == 5);
    reveal_strlit("description");
    assert("description"@.len() == 11);
    reveal_strlit("color");
    assert("color"@.len() == 5);
    reveal_strlit("public");
    assert("public"@.len() == 6);
    reveal_strlit("view");
    assert("view"@.len() == 4);
    reveal_strlit("sort");
    assert("sort"@.len() == 4);
    reveal_strlit("cover");
    assert("cover"@.len() == 5);
    reveal_strlit("count");
    assert("count"@.len() == 5);
    reveal_strlit("parent");
    assert("parent"@.len() == 6);
    reveal_strlit("user");
    assert("user"@.len() == 4);
    reveal_strlit("created");
    assert("created"@.len() == 7);
    reveal_strlit("lastUpdate");
    assert("lastUpdate"@.len() == 10);
    reveal_strlit("creatorRef");
    assert("creatorRef"@.len() == 10);
    reveal_strlit("collaborators");
    assert("collaborators"@.len() == 13);
    reveal_strlit("access");
    assert("access"@.len() == 6);
    let acc0 = Seq::<(Seq<char>, JsonModel)>::empty();
    lemma_lookup_empty("expanded"@);
    let acc1 = acc0 + entry::<i64>("_id"@, x.id);
    let acc2 = acc1 + entry::<String>("title"@, x.title);
    let acc3 = acc2 + opt_entry::<String>("description"@, x.description);
    let acc4 = acc3 + opt_entry::<String>("color"@, x.color);
    let acc5 = acc4 + opt_entry::<bool>("public"@, x.public);
    let acc6 = acc5 + entry::<CollectionView>("view"@, x.view);
    let acc7 = acc6 + entry::<i32>("sort"@, x.sort);
    let acc8 = acc7 + opt_entry::<Vec<String>>("cover"@, x.cover);
    let acc9 = acc8 + entry::<i32>("count"@, x.count);
    let acc10 = acc9 + opt_entry::<bool>("expanded"@, x.expanded);
    let acc11 = acc10 + opt_entry::<ParentRef>("parent"@, x.parent);
    let acc12 = acc11 + entry::<UserRef>("user"@, x.user);
    let acc13 = acc12 + entry::<String>("created"@, x.created);
    let acc14 = acc13 + entry::<String>("lastUpdate"@, x.last_update);
    let acc15 = acc14 + opt_entry::<CreatorRef>("creatorRef"@, x.creator_ref);
    let acc16 = acc15 + opt_entry::<Vec<Collaborator>>("collaborators"@, x.collaborators);
    let acc17 = acc16 + skip_entry::<AccessInfo>("access"@, x.access);
    lemma_lookup_then_entry::<i64>(acc0, "_id"@, x.id, "expanded"@);
    lemma_lookup_then_entry::<String>(acc1, "title"@, x.title, "expanded"@);
    lemma_lookup_then_opt_entry::<String>(acc2, "description"@, x.description, "expanded"@);
    lemma_lookup_then_opt_entry::<String>(acc3, "color"@, x.color, "expanded"@);
    lemma_lookup_then_opt_entry::<bool>(acc4, "public"@, x.public, "expanded"@);
    lemma_lookup_then_entry::<CollectionView>(acc5, "view"@, x.view, "expanded"@);
    lemma_lookup_then_entry::<i32>(acc6, "sort"@, x.sort, "expanded"@);
    lemma_lookup_then_opt_entry::<Vec<String>>(acc7, "cover"@, x.cover, "expanded"@);
    lemma_lookup_then_entry::<i32>(acc8, "count"@, x.count, "expanded"@);
    lemma_lookup_then_opt_entry::<bool>(acc9, "expanded"@, x.expanded, "expanded"@);
    lemma_lookup_then_opt_entry::<ParentRef>(acc10, "parent"@, x.parent, "expanded"@);
    lemma_lookup_then_entry::<UserRef>(acc11, "user"@, x.user, "expanded"@);
    lemma_lookup_then_entry::<String>(acc12, "created"@, x.created, "expanded"@);
    lemma_lookup_then_entry::<String>(acc13, "lastUpdate"@, x.last_update, "expanded"@);
    lemma_lookup_then_opt_entry::<CreatorRef>(acc14, "creatorRef"@, x.creator_ref, "expanded"@);
    lemma_lookup_then_opt_entry::<Vec<Collaborator>>(acc15, "collaborators"@, x.collaborators, "expanded"@);
    lemma_lookup_then_skip_entry::<AccessInfo>(acc16, "access"@, x.access, "expanded"@);
}

/// The `parent` member of an encoded `Collection`.
pub(crate) proof fn lemma_collection_parent(x: Collection)
    ensures
        Collection::wire_of(x).field("parent"@) == Some(match x.parent { Some(y) => <ParentRef as Wire>::wire_of(y), None => JsonModel::Null }),
{
    reveal_strlit("parent");
    assert("parent"@.len() == 6);
    reveal_strlit("_id");
    assert("_id"@.len() == 3);
    reveal_strlit("title");
    assert("title"@.len() == 5);
    reveal_strlit("description");
    assert("description"@.len() == 11);
    reveal_strlit("color");
    assert("color"@.len() == 5);
    reveal_strlit("public");
    assert("public"@[1] != "parent"@[1]);
    reveal_strlit("view");
    assert("view"@.len() == 4);
    reveal_strlit("sort");
    assert("sort"@.len() == 4);
    reveal_strlit("cover");
    assert("cover"@.len() == 5);
    reveal_strlit("count");
    assert("count"@.len() == 5);
    reveal_strlit("expanded");
    assert("expanded"@.len() == 8);
    reveal_strlit("user");
    assert("user"@.len() == 4);
    reveal_strlit("created");
    assert("created"@.len() == 7);
    reveal_strlit("lastUpdate");
    assert("lastUpdate"@.len() == 10);
    reveal_strlit("creatorRef");
    assert("creatorRef"@.len() == 10);
    reveal_strlit("collaborators");
    assert("collaborators"@.len() == 13);
    reveal_strlit("access");
    assert("access"@[0] != "parent"@[0]);
    let acc0 = Seq::<(Seq<char>, JsonModel)>::empty();
    lemma_lookup_empty("parent"@);
    let acc1 = acc0 + entry::<i64>("_id"@, x.id);
    let acc2 = acc1 + entry::<String>("title"@, x.title);
    let acc3 = acc2 + opt_entry::<String>("description"@, x.description);
    let acc4 = acc3 + opt_entry::<String>("color"@, x.color);
    let acc5 = acc4 + opt_entry::<bool>("public"@, x.public);
    let acc6 = acc5 + entry::<CollectionView>("view"@, x.view);
    let acc7 = acc6 + entry::<i32>("sort"@, x.sort);
    let acc8 = acc7 + opt_entry::<Vec<String>>("cover"@, x.cover);
    let acc9 = acc8 + entry::<i32>("count"@, x.count);
    let acc10 = acc9 + opt_entry::<bool>("expanded"@, x.expanded);
    let acc11 = acc10 + opt_entry::<ParentRef>("parent"@, x.parent);
    let acc12 = acc11 + entry::<UserRef>("user"@, x.user);
    let acc13 = acc12 + entry::<String>("created"@, x.created);
    let acc14 = acc13 + entry::<String>("lastUpdate"@, x.last_update);
    let acc15 = acc14 + opt_entry::<CreatorRef>("creatorRef"@, x.creator_ref);
    let acc16 = acc15 + opt_entry::<Vec<Collaborator>>("collaborators"@, x.collaborators);
    let acc17 = acc16 + skip_entry::<AccessInfo>("access"@, x.access);
    lemma_lookup_then_entry::<i64>(acc0, "_id"@, x.id, "parent"@);
    lemma_lookup_then_entry::<String>(acc1, "title"@, x.title, "parent"@);
    lemma_lookup_then_opt_entry::<String>(acc2, "description"@, x.description, "parent"@);
    lemma_lookup_then_opt_entry::<String>(acc3, "color"@, x.color, "parent"@);
    lemma_lookup_then_opt_entry::<bool>(acc4, "public"@, x.public, "parent"@);
    lemma_lookup_then_entry::<CollectionView>(acc5, "view"@, x.view, "parent"@);
    lemma_lookup_then_entry::<i32>(acc6, "sort"@, x.sort, "parent"@);
    lemma_lookup_then_opt_entry::<Vec<String>>(acc7, "cover"@, x.cover, "parent"@);
    lemma_lookup_then_entry::<i32>(acc8, "count"@, x.count, "parent"@);
    lemma_lookup_then_opt_entry::<bool>(acc9, "expanded"@, x.expanded, "parent"@);
    lemma_lookup_then_opt_entry::<ParentRef>(acc10, "parent"@, x.parent, "parent"@);
    lemma_lookup_then_entry::<UserRef>(acc11, "user"@, x.user, "parent"@);
    lemma_lookup_then_entry::<String>(acc12, "created"@, x.created, "parent"@);
    lemma_lookup_then_entry::<String>(acc13, "lastUpdate"@, x.last_update, "parent"@);
    lemma_lookup_then_opt_entry::<CreatorRef>(acc14, "creatorRef"@, x.creator_ref, "parent"@);
    lemma_lookup_then_opt_entry::<Vec<Collaborator>>(acc15, "collaborators"@, x.collaborators, "parent"@);
    lemma_lookup_then_skip_entry::<AccessInfo>(acc16, "access"@, x.access, "parent"@);
}

/// The `user` member of an encoded `Collection`.
pub(crate) proof fn lemma_collection_user(x: Collection)
    ensures
        Collection::wire_of(x).field("user"@) == Some(<UserRef as Wire>::wire_of(x.user)),
{
    reveal_strlit("user");
    assert("user"@.len() == 4);
    reveal_strlit("_id");
    assert("_id"@.len() == 3);
    reveal_strlit("title");
    assert("title"@.len() == 5);
    reveal_strlit("description");
    assert("description"@.len() == 11);
    reveal_strlit("color");
    assert("color"@.len() == 5);
    reveal_strlit("public");
    assert("public"@.len() == 6);
    reveal_strlit("view");
    assert("view"@[0] != "user"@[0]);
    reveal_strlit("sort");
    assert("sort"@[0] != "user"@[0]);
    reveal_strlit("cover");
    assert("cover"@.len() == 5);
    reveal_strlit("count");
    assert("count"@.len() == 5);
    reveal_strlit("expanded");
    assert("expanded"@.len() == 8);
    reveal_strlit("parent");
    assert("parent"@.len() == 6);
    reveal_strlit("created");
    assert("created"@.len() == 7);
    reveal_strlit("lastUpdate");
    assert("lastUpdate"@.len() == 10);
    reveal_strlit("creatorRef");
    assert("creatorRef"@.len() == 10);
    reveal_strlit("collaborators");
    assert("collaborators"@.len() == 13);
    reveal_strlit("access");
    assert("access"@.len() == 6);
    let acc0 = Seq::<(Seq<char>, JsonModel)>::empty();
    lemma_lookup_empty("user"@);
    let acc1 = acc0 + entry::<i64>("_id"@, x.id);
    let acc2 = acc1 + entry::<String>("title"@, x.title);
    let acc3 = acc2 + opt_entry::<String>("description"@, x.description);
    let acc4 = acc3 + opt_entry::<String>("color"@, x.color);
    let acc5 = acc4 + opt_entry::<bool>("public"@, x.public);
    let acc6 = acc5 + entry::<CollectionView>("view"@, x.view);
    let acc7 = acc6 + entry::<i32>("sort"@, x.sort);
    let acc8 = acc7 + opt_entry::<Vec<String>>("cover"@, x.cover);
    let acc9 = acc8 + entry::<i32>("count"@, x.count);
    let acc10 = acc9 + opt_entry::<bool>("expanded"@, x.expanded);
    let acc11 = acc10 + opt_entry::<ParentRef>("parent"@, x.parent);
    let acc12 = acc11 + entry::<UserRef>("user"@, x.user);
    let acc13 = acc12 + entry::<String>("created"@, x.created);
    let acc14 = acc13 + entry::<String>("lastUpdate"@, x.last_update);
    let acc15 = acc14 + opt_entry::<CreatorRef>("creatorRef"@, x.creator_ref);
    let acc16 = acc15 + opt_entry::<Vec<Collaborator>>("collaborators"@, x.collaborators);
    let acc17 = acc16 + skip_entry::<AccessInfo>("access"@, x.access);
    lemma_lookup_then_entry::<i64>(acc0, "_id"@, x.id, "user"@);
    lemma_lookup_then_entry::<String>(acc1, "title"@, x.title, "user"@);
    lemma_lookup_then_opt_entry::<String>(acc2, "description"@, x.description, "user"@);
    lemma_lookup_then_opt_entry::<String>(acc3, "color"@, x.color, "user"@);
    lemma_lookup_then_opt_entry::<bool>(acc4, "public"@, x.public, "user"@);
    lemma_lookup_then_entry::<CollectionView>(acc5, "view"@, x.view, "user"@);
    lemma_lookup_then_entry::<i32>(acc6, "sort"@, x.sort, "user"@);
    lemma_lookup_then_opt_entry::<Vec<String>>(acc7, "cover"@, x.cover, "user"@);
    lemma_lookup_then_entry::<i32>(acc8, "count"@, x.count, "user"@);
    lemma_lookup_then_opt_entry::<bool>(acc9, "expanded"@, x.expanded, "user"@);
    lemma_lookup_then_opt_entry::<ParentRef>(acc10, "parent"@, x.parent, "user"@);
    lemma_lookup_then_entry::<UserRef>(acc11, "user"@, x.user, "user"@);
    lemma_lookup_then_entry::<String>(acc12, "created"@, x.created, "user"@);
    lemma_lookup_then_entry::<String>(acc13, "lastUpdate"@, x.last_update, "user"@);
    lemma_lookup_then_opt_entry::<CreatorRef>(acc14, "creatorRef"@, x.creator_ref, "user"@);
    lemma_lookup_then_opt_entry::<Vec<Collaborator>>(acc15, "collaborators"@, x.collaborators, "user"@);
    lemma_lookup_then_skip_entry::<AccessInfo>(acc16, "access"@, x.access, "user"@);
}

/// The `created` member of an encoded `Collection`.
pub(crate) proof fn lemma_collection_created(x: Collection)
    ensures
        Collection::wire_of(x).field("created"@) == Some(<String as Wire>::wire_of(x.created)),
{
    reveal_strlit("created");
    assert("created"@.len() == 7);
    reveal_strlit("_id");
    assert("_id"@.len() == 3);
    reveal_strlit("title");
    assert("title"@.len() == 5);
    reveal_strlit("description");
    assert("description"@.len() == 11);
    reveal_strlit("color");
    assert("color"@.len() == 5);
    reveal_strlit("public");
    assert("public"@.len() == 6);
    reveal_strlit("view");
    assert("view"@.len() == 4);
    reveal_strlit("sort");
    assert("sort"@.len() == 4);
    reveal_strlit("cover");
    assert("cover"@.len() == 5);
    reveal_strlit("count");
    assert("count"@.len() == 5);
    reveal_strlit("expanded");
    assert("expanded"@.len() == 8);
    reveal_strlit("parent");
    assert("parent"@.len() == 6);
    reveal_strlit("user");
    assert("user"@.len() == 4);
    reveal_strlit("lastUpdate");
    assert("lastUpdate"@.len() == 10);
    reveal_strlit("creatorRef");
    assert("creatorRef"@.len() == 10);
    reveal_strlit("collaborators");
    assert("collaborators"@.len() == 13);
    reveal_strlit("access");
    assert("access"@.len() == 6);
    let acc0 = Seq::<(Seq<char>, JsonModel)>::empty();
    lemma_lookup_empty("created"@);
    let acc1 = acc0 + entry::<i64>("_id"@, x.id);
    let acc2 = acc1 + entry::<String>("title"@, x.title);
    let acc3 = acc2 + opt_entry::<String>("description"@, x.description);
    let acc4 = acc3 + opt_entry::<String>("color"@, x.color);
    let acc5 = acc4 + opt_entry::<bool>("public"@, x.public);
    let acc6 = acc5 + entry::<CollectionView>("view"@, x.view);
    let acc7 = acc6 + entry::<i32>("sort"@, x.sort);
    let acc8 = acc7 + opt_entry::<Vec<String>>("cover"@, x.cover);
    let acc9 = acc8 + entry::<i32>("count"@, x.count);
    let acc10 = acc9 + opt_entry::<bool>("expanded"@, x.expanded);
    let acc11 = acc10 + opt_entry::<ParentRef>("parent"@, x.parent);
    let acc12 = acc11 + entry::<UserRef>("user"@, x.user);
    let acc13 = acc12 + entry::<String>("created"@, x.created);
    let acc14 = acc13 + entry::<String>("lastUpdate"@, x.last_update);
    let acc15 = acc14 + opt_entry::<CreatorRef>("creatorRef"@, x.creator_ref);
    let acc16 = acc15 + opt_entry::<Vec<Collaborator>>("collaborators"@, x.collaborators);
    let acc17 = acc16 + skip_entry::<AccessInfo>("access"@, x.access);
    lemma_lookup_then_entry::<i64>(acc0, "_id"@, x.id, "created"@);
    lemma_lookup_then_entry::<String>(acc1, "title"@, x.title, "created"@);
    lemma_lookup_then_opt_entry::<String>(acc2, "description"@, x.description, "created"@);
    lemma_lookup_then_opt_entry::<String>(acc3, "color"@, x.color, "created"@);
    lemma_lookup_then_opt_entry::<bool>(acc4, "public"@, x.public, "created"@);
    lemma_lookup_then_entry::<CollectionView>(acc5, "view"@, x.view, "created"@);
    lemma_lookup_then_entry::<i32>(acc6, "sort"@, x.sort, "created"@);
    lemma_lookup_then_opt_entry::<Vec<String>>(acc7, "cover"@, x.cover, "created"@);
    lemma_lookup_then_entry::<i32>(acc8, "count"@, x.count, "created"@);
    lemma_lookup_then_opt_entry::<bool>(acc9, "expanded"@, x.expanded, "created"@);
    lemma_lookup_then_opt_entry::<ParentRef>(acc10, "parent"@, x.parent, "created"@);
    lemma_lookup_then_entry::<UserRef>(acc11, "user"@, x.user, "created"@);
    lemma_lookup_then_entry::<String>(acc12, "created"@, x.created, "created"@);
    lemma_lookup_then_entry::<String>(acc13, "lastUpdate"@, x.last_update, "created"@);
    lemma_lookup_then_opt_entry::<CreatorRef>(acc14, "creatorRef"@, x.creator_ref, "created"@);
    lemma_lookup_then_opt_entry::<Vec<Collaborator>>(acc15, "collaborators"@, x.collaborators, "created"@);
    lemma_lookup_then_skip_entry::<AccessInfo>(acc16, "access"@, x.access, "created"@);
}

/// The `lastUpdate` member of an encoded `Collection`.
pub(crate) proof fn lemma_collection_last_update(x: Collection)
    ensures
        Collection::wire_of(x).field("lastUpdate"@) == Some(<String as Wire>::wire_of(x.last_update)),
{
    reveal_strlit("lastUpdate");
    assert("lastUpdate"@.len() == 10);
    reveal_strlit("_id");
    assert("_id"@.len() == 3);
    reveal_strlit("title");
    assert("title"@.len() == 5);
    reveal_strlit("description");
    assert("description"@.len() == 11);
    reveal_strlit("color");
    assert("color"@.len() == 5);
    reveal_strlit("public");
    assert("public"@.len() == 6);
    reveal_strlit("view");
    assert("view"@.len() == 4);
    reveal_strlit("sort");
    assert("sort"@.len() == 4);
    reveal_strlit("cover");
    assert("cover"@.len() == 5);
    reveal_strlit("count");
    assert("count"@.len() == 5);
    reveal_strlit("expanded");
    assert("expanded"@.len() == 8);
    reveal_strlit("parent");
    assert("parent"@.len() == 6);
    reveal_strlit("user");
    assert("user"@.len() == 4);
    reveal_strlit("created");
    assert("created"@.len() == 7);
    reveal_strlit("creatorRef");
    assert("creatorRef"@[0] != "lastUpdate"@[0]);
    reveal_strlit("collaborators");
    assert("collaborators"@.len() == 13);
    reveal_strlit("access");
    assert("access"@.len() == 6);
    let acc0 = Seq::<(Seq<char>, JsonModel)>::empty();
    lemma_lookup_empty("lastUpdate"@);
    let acc1 = acc0 + entry::<i64>("_id"@, x.id);
    let acc2 = acc1 + entry::<String>("title"@, x.title);
    let acc3 = acc2 + opt_entry::<String>("description"@, x.description);
    let acc4 = acc3 + opt_entry::<String>("color"@, x.color);
    let acc5 = acc4 + opt_entry::<bool>("public"@, x.public);
    let acc6 = acc5 + entry::<CollectionView>("view"@, x.view);
    let acc7 = acc6 + entry::<i32>("sort"@, x.sort);
    let acc8 = acc7 + opt_entry::<Vec<String>>("cover"@, x.cover);
    let acc9 = acc8 + entry::<i32>("count"@, x.count);
    let acc10 = acc9 + opt_entry::<bool>("expanded"@, x.expanded);
    let acc11 = acc10 + opt_entry::<ParentRef>("parent"@, x.parent);
    let acc12 = acc11 + entry::<UserRef>("user"@, x.user);
    let acc13 = acc12 + entry::<String>("created"@, x.created);
    let acc14 = acc13 + entry::<String>("lastUpdate"@, x.last_update);
    let acc15 = acc14 + opt_entry::<CreatorRef>("creatorRef"@, x.creator_ref);
    let acc16 = acc15 + opt_entry::<Vec<Collaborator>>("collaborators"@, x.collaborators);
    let acc17 = acc16 + skip_entry::<AccessInfo>("access"@, x.access);
    lemma_lookup_then_entry::<i64>(acc0, "_id"@, x.id, "lastUpdate"@);
    lemma_lookup_then_entry::<String>(acc1, "title"@, x.title, "lastUpdate"@);
    lemma_lookup_then_opt_entry::<String>(acc2, "description"@, x.description, "lastUpdate"@);
    lemma_lookup_then_opt_entry::<String>(acc3, "color"@, x.color, "lastUpdate"@);
    lemma_lookup_then_opt_entry::<bool>(acc4, "public"@, x.public, "lastUpdate"@);
    lemma_lookup_then_entry::<CollectionView>(acc5, "view"@, x.view, "lastUpdate"@);
    lemma_lookup_then_entry::<i32>(acc6, "sort"@, x.sort, "lastUpdate"@);
    lemma_lookup_then_opt_entry::<Vec<String>>(acc7, "cover"@, x.cover, "lastUpdate"@);
    lemma_lookup_then_entry::<i32>(acc8, "count"@, x.count, "lastUpdate"@);
    lemma_lookup_then_opt_entry::<bool>(acc9, "expanded"@, x.expanded, "lastUpdate"@);
    lemma_lookup_then_opt_entry::<ParentRef>(acc10, "parent"@, x.parent, "lastUpdate"@);
    lemma_lookup_then_entry::<UserRef>(acc11, "user"@, x.user, "lastUpdate"@);
    lemma_lookup_then_entry::<String>(acc12, "created"@, x.created, "lastUpdate"@);
    lemma_lookup_then_entry::<String>(acc13, "lastUpdate"@, x.last_update, "lastUpdate"@);
    lemma_lookup_then_opt_entry::<CreatorRef>(acc14, "creatorRef"@, x.creator_ref, "lastUpdate"@);
    lemma_lookup_then_opt_entry::<Vec<Collaborator>>(acc15, "collaborators"@, x.collaborators, "lastUpdate"@);
    lemma_lookup_then_skip_entry::<AccessInfo>(acc16, "access"@, x.access, "lastUpdate"@);
}

/// The `creatorRef` member of an encoded `Collection`.
pub(crate) proof fn lemma_collection_creator_ref(x: Collection)
    ensures
        Collection::wire_of(x).field("creatorRef"@) == Some(match x.creator_ref { Some(y) => <CreatorRef as Wire>::wire_of(y), None => JsonModel::Null }),
{
    reveal_strlit("creatorRef");
    assert("creatorRef"@.len() == 10);
    reveal_strlit("_id");
    assert("_id"@.len() == 3);
    reveal_strlit("title");
    assert("title"@.len() == 5);
    reveal_strlit("description");
    assert("description"@.len() == 11);
    reveal_strlit("color");
    assert("color"@.len() == 5);
    reveal_strlit("public");
    assert("public"@.len() == 6);
    reveal_strlit("view");
    assert("view"@.len() == 4);
    reveal_strlit("sort");
    assert("sort"@.len() == 4);
    reveal_strlit("cover");
    assert("cover"@.len() == 5);
    reveal_strlit("count");
    assert("count"@.len() == 5);
    reveal_strlit("expanded");
    assert("expanded"@.len() == 8);
    reveal_strlit("parent");
    assert("parent"@.len() == 6);
    reveal_strlit("user");
    assert("user"@.len() == 4);
    reveal_strlit("created");
    assert("created"@.len() == 7);
    reveal_strlit("lastUpdate");
    assert("lastUpdate"@[0] != "creatorRef"@[0]);
    reveal_strlit("collaborators");
    assert("collaborators"@.len() == 13);
    reveal_strlit("access");
    assert("access"@.len() == 6);
    let acc0 = Seq::<(Seq<char>, JsonModel)>::empty();
    lemma_lookup_empty("creatorRef"@);
    let acc1 = acc0 + entry::<i64>("_id"@, x.id);
    let acc2 = acc1 + entry::<String>("title"@, x.title);
    let acc3 = acc2 + opt_entry::<String>("description"@, x.description);
    let acc4 = acc3 + opt_entry::<String>("color"@, x.color);
    let acc5 = acc4 + opt_entry::<bool>("public"@, x.public);
    let acc6 = acc5 + entry::<CollectionView>("view"@, x.view);
    let acc7 = acc6 + entry::<i32>("sort"@, x.sort);
    let acc8 = acc7 + opt_entry::<Vec<String>>("cover"@, x.cover);
    let acc9 = acc8 + entry::<i32>("count"@, x.count);
    let acc10 = acc9 + opt_entry::<bool>("expanded"@, x.expanded);
    let acc11 = acc10 + opt_entry::<ParentRef>("parent"@, x.parent);
    let acc12 = acc11 + entry::<UserRef>("user"@, x.user);
    let acc13 = acc12 + entry::<String>("created"@, x.created);
    let acc14 = acc13 + entry::<String>("lastUpdate"@, x.last_update);
    let acc15 = acc14 + opt_entry::<CreatorRef>("creatorRef"@, x.creator_ref);
    let acc16 = acc15 + opt_entry::<Vec<Collaborator>>("collaborators"@, x.collaborators);
    let acc17 = acc16 + skip_entry::<AccessInfo>("access"@, x.access);
    lemma_lookup_then_entry::<i64>(acc0, "_id"@, x.id, "creatorRef"@);
    lemma_lookup_then_entry::<String>(acc1, "title"@, x.title, "creatorRef"@);
    lemma_lookup_then_opt_entry::<String>(acc2, "description"@, x.description, "creatorRef"@);
    lemma_lookup_then_opt_entry::<String>(acc3, "color"@, x.color, "creatorRef"@);
    lemma_lookup_then_opt_entry::<bool>(acc4, "public"@, x.public, "creatorRef"@);
    lemma_lookup_then_entry::<CollectionView>(acc5, "view"@, x.view, "creatorRef"@);
    lemma_lookup_then_entry::<i32>(acc6, "sort"@, x.sort, "creatorRef"@);
    lemma_lookup_then_opt_entry::<Vec<String>>(acc7, "cover"@, x.cover, "creatorRef"@);
    lemma_lookup_then_entry::<i32>(acc8, "count"@, x.count, "creatorRef"@);
    lemma_lookup_then_opt_entry::<bool>(acc9, "expanded"@, x.expanded, "creatorRef"@);
    lemma_lookup_then_opt_entry::<ParentRef>(acc10, "parent"@, x.parent, "creatorRef"@);
    lemma_lookup_then_entry::<UserRef>(acc11, "user"@, x.user, "creatorRef"@);
    lemma_lookup_then_entry::<String>(acc12, "created"@, x.created, "creatorRef"@);
    lemma_lookup_then_entry::<String>(acc13, "lastUpdate"@, x.last_update, "creatorRef"@);
    lemma_lookup_then_opt_entry::<CreatorRef>(acc14, "creatorRef"@, x.creator_ref, "creatorRef"@);
    lemma_lookup_then_opt_entry::<Vec<Collaborator>>(acc15, "collaborators"@, x.collaborators, "creatorRef"@);
    lemma_lookup_then_skip_entry::<AccessInfo>(acc16, "access"@, x.access, "creatorRef"@);
}

/// The `collaborators` member of an encoded `Collection`.
pub(crate) proof fn lemma_collection_collaborators(x: Collection)
    ensures
        Collection::wire_of(x).field("collaborators"@) == Some(match x.collaborators { Some(y) => <Vec<Collaborator> as Wire>::wire_of(y), None => JsonModel::Null }),
{
    reveal_strlit("collaborators");
    assert("collaborators"@.len() == 13);
    reveal_strlit("_id");
    assert("_id"@.len() == 3);
    reveal_strlit("title");
    assert("title"@.len() == 5);
    reveal_strlit("description");
    assert("description"@.len() == 11);
    reveal_strlit("color");
    assert("color"@.len() == 5);
    reveal_strlit("public");
    assert("public"@.len() == 6);
    reveal_strlit("view");
    assert("view"@.len() == 4);
    reveal_strlit("sort");
    assert("sort"@.len() == 4);
    reveal_strlit("cover");
    assert("cover"@.len() == 5);
    reveal_strlit("count");
    assert("count"@.len() == 5);
    reveal_strlit("expanded");
    assert("expanded"@.len() == 8);
    reveal_strlit("parent");
    assert("parent"@.len() == 6);
    reveal_strlit("user");
    assert("user"@.len() == 4);
    reveal_strlit("created");
    assert("created"@.len() == 7);
    reveal_strlit("lastUpdate");
    assert("lastUpdate"@.len() == 10);
    reveal_strlit("creatorRef");
    assert("creatorRef"@.len() == 10);
    reveal_strlit("access");
    assert("access"@.len() == 6);
    let acc0 = Seq::<(Seq<char>, JsonModel)>::empty();
    lemma_lookup_empty("collaborators"@);
    let acc1 = acc0 + entry::<i64>("_id"@, x.id);
    let acc2 = acc1 + entry::<String>("title"@, x.title);
    let acc3 = acc2 + opt_entry::<String>("description"@, x.description);
    let acc4 = acc3 + opt_entry::<String>("color"@, x.color);
    let acc5 = acc4 + opt_entry::<bool>("public"@, x.public);
    let acc6 = acc5 + entry::<CollectionView>("view"@, x.view);
    let acc7 = acc6 + entry::<i32>("sort"@, x.sort);
    let acc8 = acc7 + opt_entry::<Vec<String>>("cover"@, x.cover);
    let acc9 = acc8 + entry::<i32>("count"@, x.count);
    let acc10 = acc9 + opt_entry::<bool>("expanded"@, x.expanded);
    let acc11 = acc10 + opt_entry::<ParentRef>("parent"@, x.parent);
    let acc12 = acc11 + entry::<UserRef>("user"@, x.user);
    let acc13 = acc12 + entry::<String>("created"@, x.created);
    let acc14 = acc13 + entry::<String>("lastUpdate"@, x.last_update);
    let acc15 = acc14 + opt_entry::<CreatorRef>("creatorRef"@, x.creator_ref);
    let acc16 = acc15 + opt_entry::<Vec<Collaborator>>("collaborators"@, x.collaborators);
    let acc17 = acc16 + skip_entry::<AccessInfo>("access"@, x.access);
    lemma_lookup_then_entry::<i64>(acc0, "_id"@, x.id, "collaborators"@);
    lemma_lookup_then_entry::<String>(acc1, "title"@, x.title, "collaborators"@);
    lemma_lookup_then_opt_entry::<String>(acc2, "description"@, x.description, "collaborators"@);
    lemma_lookup_then_opt_entry::<String>(acc3, "color"@, x.color, "collaborators"@);
    lemma_lookup_then_opt_entry::<bool>(acc4, "public"@, x.public, "collaborators"@);
    lemma_lookup_then_entry::<CollectionView>(acc5, "view"@, x.view, "collaborators"@);
    lemma_lookup_then_entry::<i32>(acc6, "sort"@, x.sort, "collaborators"@);
    lemma_lookup_then_opt_entry::<Vec<String>>(acc7, "cover"@, x.cover, "collaborators"@);
    lemma_lookup_then_entry::<i32>(acc8, "count"@, x.count, "collaborators"@);
    lemma_lookup_then_opt_entry::<bool>(acc9, "expanded"@, x.expanded, "collaborators"@);
    lemma_lookup_then_opt_entry::<ParentRef>(acc10, "parent"@, x.parent, "collaborators"@);
    lemma_lookup_then_entry::<UserRef>(acc11, "user"@, x.user, "collaborators"@);
    lemma_lookup_then_entry::<String>(acc12, "created"@, x.created, "collaborators"@);
    lemma_lookup_then_entry::<String>(acc13, "lastUpdate"@, x.last_update, "collaborators"@);
    lemma_lookup_then_opt_entry::<CreatorRef>(acc14, "creatorRef"@, x.creator_ref, "collaborators"@);
    lemma_lookup_then_opt_entry::<Vec<Collaborator>>(acc15, "collaborators"@, x.collaborators, "collaborators"@);
    lemma_lookup_then_skip_entry::<AccessInfo>(acc16, "access"@, x.access, "collaborators"@);
}

/// The `access` member of an encoded `Collection`.
pub(crate) proof fn lemma_collection_access(x: Collection)
    ensures
        Collection::wire_of(x).field("access"@) == match x.access { Some(y) => Some(<AccessInfo as Wire>::wire_of(y)), None => None },
{
    reveal_strlit("access");
    assert("access"@.len() == 6);
    reveal_strlit("_id");
    assert("_id"@.len() == 3);
    reveal_strlit("title");
    assert("title"@.len() == 5);
    reveal_strlit("description");
    assert("description"@.len() == 11);
    reveal_strlit("color");
    assert("color"@.len() == 5);
    reveal_strlit("public");
    assert("public"@[0] != "access"@[0]);
    reveal_strlit("view");
    assert("view"@.len() == 4);
    reveal_strlit("sort");
    assert("sort"@.len() == 4);
    reveal_strlit("cover");
    assert("cover"@.len() == 5);
    reveal_strlit("count");
    assert("count"@.len() == 5);
    reveal_strlit("expanded");
    assert("expanded"@.len() == 8);
    reveal_strlit("parent");
    assert("parent"@[0] != "access"@[0]);
    reveal_strlit("user");
    assert("user"@.len() == 4);
    reveal_strlit("created");
    assert("created"@.len() == 7);
    reveal_strlit("lastUpdate");
    assert("lastUpdate"@.len() == 10);
    reveal_strlit("creatorRef");
    assert("creatorRef"@.len() == 10);
    reveal_strlit("collaborators");
    assert("collaborators"@.len() == 13);
    let acc0 = Seq::<(Seq<char>, JsonModel)>::empty();
    lemma_lookup_empty("access"@);
    let acc1 = acc0 + entry::<i64>("_id"@, x.id);
    let acc2 = acc1 + entry::<String>("title"@, x.title);
    let acc3 = acc2 + opt_entry::<String>("description"@, x.description);
    let acc4 = acc3 + opt_entry::<String>("color"@, x.color);
    let acc5 = acc4 + opt_entry::<bool>("public"@, x.public);
    let acc6 = acc5 + entry::<CollectionView>("view"@, x.view);
    let acc7 = acc6 + entry::<i32>("sort"@, x.sort);
    let acc8 = acc7 + opt_entry::<Vec<String>>("cover"@, x.cover);
    let acc9 = acc8 + entry::<i32>("count"@, x.count);
    let acc10 = acc9 + opt_entry::<bool>("expanded"@, x.expanded);
    let acc11 = acc10 + opt_entry::<ParentRef>("parent"@, x.parent);
    let acc12 = acc11 + entry::<UserRef>("user"@, x.user);
    let acc13 = acc12 + entry::<String>("created"@, x.created);
    let acc14 = acc13 + entry::<String>("lastUpdate"@, x.last_update);
    let acc15 = acc14 + opt_entry::<CreatorRef>("creatorRef"@, x.creator_ref);
    let acc16 = acc15 + opt_entry::<Vec<Collaborator>>("collaborators"@, x.collaborators);
    let acc17 = acc16 + skip_entry::<AccessInfo>("access"@, x.access);
    lemma_lookup_then_entry::<i64>(acc0, "_id"@, x.id, "access"@);
    lemma_lookup_then_entry::<String>(acc1, "title"@, x.title, "access"@);
    lemma_lookup_then_opt_entry::<String>(acc2, "description"@, x.description, "access"@);
    lemma_lookup_then_opt_entry::<String>(acc3, "color"@, x.color, "access"@);
    lemma_lookup_then_opt_entry::<bool>(acc4, "public"@, x.public, "access"@);
    lemma_lookup_then_entry::<CollectionView>(acc5, "view"@, x.view, "access"@);
    lemma_lookup_then_entry::<i32>(acc6, "sort"@, x.sort, "access"@);
    lemma_lookup_then_opt_entry::<Vec<String>>(acc7, "cover"@, x.cover, "access"@);
    lemma_lookup_then_entry::<i32>(acc8, "count"@, x.count, "access"@);
    lemma_lookup_then_opt_entry::<bool>(acc9, "expanded"@, x.expanded, "access"@);
    lemma_lookup_then_opt_entry::<ParentRef>(acc10, "parent"@, x.parent, "access"@);
    lemma_lookup_then_entry::<UserRef>(acc11, "user"@, x.user, "access"@);
    lemma_lookup_then_entry::<String>(acc12, "created"@, x.created, "access"@);
    lemma_lookup_then_entry::<String>(acc13, "lastUpdate"@, x.last_update, "access"@);
    lemma_lookup_then_opt_entry::<CreatorRef>(acc14, "creatorRef"@, x.creator_ref, "access"@);
    lemma_lookup_then_opt_entry::<Vec<Collaborator>>(acc15, "collaborators"@, x.collaborators, "access"@);
    lemma_lookup_then_skip_entry::<AccessInfo>(acc16, "access"@, x.access, "access"@);
}

/// The caller's access to a collection.
#[derive(Debug, Clone)]
pub struct AccessInfo {
    pub level: i32,
    pub draggable: bool,
}

impl Wire for AccessInfo {
    open spec fn wire_ok(j: JsonModel) -> bool {
        &&& j is Object
        &&& req_ok::<i32>(j.field("level"@))
        &&& req_ok::<bool>(j.field("draggable"@))
    }

    open spec fn wire_is(j: JsonModel, x: AccessInfo) -> bool {
        &&& j is Object
        &&& req_is::<i32>(j.field("level"@), x.level)
        &&& req_is::<bool>(j.field("draggable"@), x.draggable)
    }

    open spec fn wire_of(x: AccessInfo) -> JsonModel {
        JsonModel::Object(
            Seq::empty()
                + entry::<i32>("level"@, x.level)
                + entry::<bool>("draggable"@, x.draggable)
        )
    }

    fn decode(j: &Json) -> (r: Result<AccessInfo, String>) {
        match expect_object(j) {
            Ok(()) => {},
            Err(e) => return Err(e),
        }
        let level = match decode_field::<i32>(j, "level") {
            Ok(v) => v,
            Err(e) => return Err(e),
        };
        let draggable = match decode_field::<bool>(j, "draggable") {
            Ok(v) => v,
            Err(e) => return Err(e),
        };
        Ok(AccessInfo { level, draggable })
    }

    fn encode(&self) -> (r: Json) {
        let mut fields = no_fields();
        push_field::<i32>(&mut fields, "level", &self.level);
        push_field::<bool>(&mut fields, "draggable", &self.draggable);
        object(fields)
    }

    proof fn lemma_round_trip(x: Self) {
        lemma_access_info_level(x);
        <i32 as Wire>::lemma_round_trip(x.level);
        lemma_access_info_draggable(x);
        <bool as Wire>::lemma_round_trip(x.draggable);
        let j = Self::wire_of(x);
        assert(req_ok::<i32>(j.field("level"@)));
        assert(req_ok::<bool>(j.field("draggable"@)));
        assert(req_is::<i32>(j.field("level"@), x.level));
        assert(req_is::<bool>(j.field("draggable"@), x.draggable));
        assert forall|y: Self| #[trigger] Self::wire_is(j, y) implies Self::wire_of(y) == j by {
            assert(entry::<i32>("level"@, y.level) == entry::<i32>("level"@, x.level));
            assert(entry::<bool>("draggable"@, y.draggable) == entry::<bool>("draggable"@, x.draggable));
        }
    }
}

/// The `level` member of an encoded `AccessInfo`.
pub(crate) proof fn lemma_access_info_level(x: AccessInfo)
    ensures
        AccessInfo::wire_of(x).field("level"@) == Some(<i32 as Wire>::wire_of(x.level)),
{
    reveal_strlit("level");
    assert("level"@.len() == 5);
    reveal_strlit("draggable");
    assert("draggable"@.len() == 9);
    let acc0 = Seq::<(Seq<char>, JsonModel)>::empty();
    lemma_lookup_empty("level"@);
    let acc1 = acc0 + entry::<i32>("level"@, x.level);
    let acc2 = acc1 + entry::<bool>("draggable"@, x.draggable);
    lemma_lookup_then_entry::<i32>(acc0, "level"@, x.level, "level"@);
    lemma_lookup_then_entry::<bool>(acc1, "draggable"@, x.draggable, "level"@);
}

/// The `draggable` member of an encoded `AccessInfo`.
pub(crate) proof fn lemma_access_info_draggable(x: AccessInfo)
    ensures
        AccessInfo::wire_of(x).field("draggable"@) == Some(<bool as Wire>::wire_of(x.draggable)),
{
    reveal_strlit("draggable");
    assert("draggable"@.len() == 9);
    reveal_strlit("level");
    assert("level"@.len() == 5);
    let acc0 = Seq::<(Seq<char>, JsonModel)>::empty();
    lemma_lookup_empty("draggable"@);
    let acc1 = acc0 + entry::<i32>("level"@, x.level);
    let acc2 = acc1 + entry::<bool>("draggable"@, x.draggable);
    lemma_lookup_then_entry::<i32>(acc0, "level"@, x.level, "draggable"@);
    lemma_lookup_then_entry::<bool>(acc1, "draggable"@, x.draggable, "draggable"@);
}

/// A reference to the parent of a collection.
#[derive(Debug, Clone)]
pub struct ParentRef {
    pub id: i64,
    pub title: Option<String>,
}

impl Wire for ParentRef {
    open spec fn wire_ok(j: JsonModel) -> bool {
        &&& j is Object
        &&& req_ok::<i64>(j.field("$id"@))
        &&& opt_ok::<String>(j.field("title"@))
    }

    open spec fn wire_is(j: JsonModel, x: ParentRef) -> bool {
        &&& j is Object
        &&& req_is::<i64>(j.field("$id"@), x.id)
        &&& opt_is::<String>(j.field("title"@), x.title)
    }

    open spec fn wire_of(x: ParentRef) -> JsonModel {
        JsonModel::Object(
            Seq::empty()
                + entry::<i64>("$id"@, x.id)
                + opt_entry::<String>("title"@, x.title)
        )
    }

    fn decode(j: &Json) -> (r: Result<ParentRef, String>) {
        match expect_object(j) {
            Ok(()) => {},
            Err(e) => return Err(e),
        }
        let id = match decode_field::<i64>(j, "$id") {
            Ok(v) => v,
            Err(e) => return Err(e),
        };
        let title = match decode_opt_field::<String>(j, "title") {
            Ok(v) => v,
            Err(e) => return Err(e),
        };
        Ok(ParentRef { id, title })
    }

    fn encode(&self) -> (r: Json) {
        let mut fields = no_fields();
        push_field::<i64>(&mut fields, "$id", &self.id);
        push_opt::<String>(&mut fields, "title", &self.title);
        object(fields)
    }

    proof fn lemma_round_trip(x: Self) {
        lemma_parent_ref_id(x);
        <i64 as Wire>::lemma_round_trip(x.id);
        lemma_parent_ref_title(x);
        lemma_opt_round_trip::<String>(x.title);
        let j = Self::wire_of(x);
        assert(req_ok::<i64>(j.field("$id"@)));
        assert(opt_ok::<String>(j.field("title"@)));
        assert(req_is::<i64>(j.field("$id"@), x.id));
        assert(opt_is::<String>(j.field("title"@), x.title));
        assert forall|y: Self| #[trigger] Self::wire_is(j, y) implies Self::wire_of(y) == j by {
            assert(entry::<i64>("$id"@, y.id) == entry::<i64>("$id"@, x.id));
            assert(opt_entry::<String>("title"@, y.title) == opt_entry::<String>("title"@, x.title));
        }
    }
}

/// The `$id` member of an encoded `ParentRef`.
pub(crate) proof fn lemma_parent_ref_id(x: ParentRef)
    ensures
        ParentRef::wire_of(x).field("$id"@) == Some(<i64 as Wire>::wire_of(x.id)),
{
    reveal_strlit("$id");
    assert("$id"@.len() == 3);
    reveal_strlit("title");
    assert("title"@.len() == 5);
    let acc0 = Seq::<(Seq<char>, JsonModel)>::empty();
    lemma_lookup_empty("$id"@);
    let acc1 = acc0 + entry::<i64>("$id"@, x.id);
    let acc2 = acc1 + opt_entry::<String>("title"@, x.title);
    lemma_lookup_then_entry::<i64>(acc0, "$id"@, x.id, "$id"@);
    lemma_lookup_then_opt_entry::<String>(acc1, "title"@, x.title, "$id"@);
}

/// The `title` member of an encoded `ParentRef`.
pub(crate) proof fn lemma_parent_ref_title(x: ParentRef)
    ensures
        ParentRef::wire_of(x).field("title"@) == Some(match x.title { Some(y) => <String as Wire>::wire_of(y), None => JsonModel::Null }),
{
    reveal_strlit("title");
    assert("title"@.len() == 5);
    reveal_strlit("$id");
    assert("$id"@.len() == 3);
    let acc0 = Seq::<(Seq<char>, JsonModel)>::empty();
    lemma_lookup_empty("title"@);
    let acc1 = acc0 + entry::<i64>("$id"@, x.id);
    let acc2 = acc1 + opt_entry::<String>("title"@, x.title);
    lemma_lookup_then_entry::<i64>(acc0, "$id"@, x.id, "title"@);
    lemma_lookup_then_opt_entry::<String>(acc1, "title"@, x.title, "title"@);
}

/// The account that created a collection.
#[derive(Debug, Clone)]
pub struct CreatorRef {
    pub id: i64,
    pub full_name: String,
}

impl Wire for CreatorRef {
    open spec fn wire_ok(j: JsonModel) -> bool {
        &&& j is Object
        &&& req_ok::<i64>(j.field("_id"@))
        &&& req_ok::<String>(j.field("fullName"@))
    }

    open spec fn wire_is(j: JsonModel, x: CreatorRef) -> bool {
        &&& j is Object
        &&& req_is::<i64>(j.field("_id"@), x.id)
        &&& req_is::<String>(j.field("fullName"@), x.full_name)
    }

    open spec fn wire_of(x: CreatorRef) -> JsonModel {
        JsonModel::Object(
            Seq::empty()
                + entry::<i64>("_id"@, x.id)
                + entry::<String>("fullName"@, x.full_name)
        )
    }

    fn decode(j: &Json) -> (r: Result<CreatorRef, String>) {
        match expect_object(j) {
            Ok(()) => {},
            Err(e) => return Err(e),
        }
        let id = match decode_field::<i64>(j, "_id") {
            Ok(v) => v,
            Err(e) => return Err(e),
        };
        let full_name = match decode_field::<String>(j, "fullName") {
            Ok(v) => v,
            Err(e) => return Err(e),
        };
        Ok(CreatorRef { id, full_name })
    }

    fn encode(&self) -> (r: Json) {
        let mut fields = no_fields();
        push_field::<i64>(&mut fields, "_id", &self.id);
        push_field::<String>(&mut fields, "fullName", &self.full_name);
        object(fields)
    }

    proof fn lemma_round_trip(x: Self) {
        lemma_creator_ref_id(x);
        <i64 as Wire>::lemma_round_trip(x.id);
        lemma_creator_ref_full_name(x);
        <String as Wire>::lemma_round_trip(x.full_name);
        let j = Self::wire_of(x);
        assert(req_ok::<i64>(j.field("_id"@)));
        assert(req_ok::<String>(j.field("fullName"@)));
        assert(req_is::<i64>(j.field("_id"@), x.id));
        assert(req_is::<String>(j.field("fullName"@), x.full_name));
        assert forall|y: Self| #[trigger] Self::wire_is(j, y) implies Self::wire_of(y) == j by {
            assert(entry::<i64>("_id"@, y.id) == entry::<i64>("_id"@, x.id));
            assert(entry::<String>("fullName"@, y.full_name) == entry::<String>("fullName"@, x.full_name));
        }
    }
}

/// The `_id` member of an encoded `CreatorRef`.
pub(crate) proof fn lemma_creator_ref_id(x: CreatorRef)
    ensures
        CreatorRef::wire_of(x).field("_id"@) == Some(<i64 as Wire>::wire_of(x.id)),
{
    reveal_strlit("_id");
    assert("_id"@.len() == 3);
    reveal_strlit("fullName");
    assert("fullName"@.len() == 8);
    let acc0 = Seq::<(Seq<char>, JsonModel)>::empty();
    lemma_lookup_empty("_id"@);
    let acc1 = acc0 + entry::<i64>("_id"@, x.id);
    let acc2 = acc1 + entry::<String>("fullName"@, x.full_name);
    lemma_lookup_then_entry::<i64>(acc0, "_id"@, x.id, "_id"@);
    lemma_lookup_then_entry::<String>(acc1, "fullName"@, x.full_name, "_id"@);
}

/// The `fullName` member of an encoded `CreatorRef`.
pub(crate) proof fn lemma_creator_ref_full_name(x: CreatorRef)
    ensures
        CreatorRef::wire_of(x).field("fullName"@) == Some(<String as Wire>::wire_of(x.full_name)),
{
    reveal_strlit("fullName");
    assert("fullName"@.len() == 8);
    reveal_strlit("_id");
    assert("_id"@.len() == 3);
    let acc0 = Seq::<(Seq<char>, JsonModel)>::empty();
    lemma_lookup_empty("fullName"@);
    let acc1 = acc0 + entry::<i64>("_id"@, x.id);
    let acc2 = acc1 + entry::<String>("fullName"@, x.full_name);
    lemma_lookup_then_entry::<i64>(acc0, "_id"@, x.id, "fullName"@);
    lemma_lookup_then_entry::<String>(acc1, "fullName"@, x.full_name, "fullName"@);
}

/// An account a collection is shared with.
#[derive(Debug, Clone)]
pub struct Collaborator {
    pub id: i64,
    pub email: String,
    pub name: Option<String>,
    pub role: CollaboratorRole,
}

impl Wire for Collaborator {
    open spec fn wire_ok(j: JsonModel) -> bool {
        &&& j is Object
        &&& req_ok::<i64>(j.field("_id"@))
        &&& req_ok::<String>(j.field("email"@))
        &&& opt_ok::<String>(j.field("name"@))
        &&& req_ok::<CollaboratorRole>(j.field("role"@))
    }

    open spec fn wire_is(j: JsonModel, x: Collaborator) -> bool {
        &&& j is Object
        &&& req_is::<i64>(j.field("_id"@), x.id)
        &&& req_is::<String>(j.field("email"@), x.email)
        &&& opt_is::<String>(j.field("name"@), x.name)
        &&& req_is::<CollaboratorRole>(j.field("role"@), x.role)
    }

    open spec fn wire_of(x: Collaborator) -> JsonModel {
        JsonModel::Object(
            Seq::empty()
                + entry::<i64>("_id"@, x.id)
                + entry::<String>("email"@, x.email)
                + opt_entry::<String>("name"@, x.name)
                + entry::<CollaboratorRole>("role"@, x.role)
        )
    }

    fn decode(j: &Json) -> (r: Result<Collaborator, String>) {
        match expect_object(j) {
            Ok(()) => {},
            Err(e) => return Err(e),
        }
        let id = match decode_field::<i64>(j, "_id") {
            Ok(v) => v,
            Err(e) => return Err(e),
        };
        let email = match decode_field::<String>(j, "email") {
            Ok(v) => v,
            Err(e) => return Err(e),
        };
        let name = match decode_opt_field::<String>(j, "name") {
            Ok(v) => v,
            Err(e) => return Err(e),
        };
        let role = match decode_field::<CollaboratorRole>(j, "role") {
            Ok(v) => v,
            Err(e) => return Err(e),
        };
        Ok(Collaborator { id, email, name, role })
    }

    fn encode(&self) -> (r: Json) {
        let mut fields = no_fields();
        push_field::<i64>(&mut fields, "_id", &self.id);
        push_field::<String>(&mut fields, "email", &self.email);
        push_opt::<String>(&mut fields, "name", &self.name);
        push_field::<CollaboratorRole>(&mut fields, "role", &self.role);
        object(fields)
    }

    proof fn lemma_round_trip(x: Self) {
        lemma_collaborator_id(x);
        <i64 as Wire>::lemma_round_trip(x.id);
        lemma_collaborator_email(x);
        <String as Wire>::lemma_round_trip(x.email);
        lemma_collaborator_name(x);
        lemma_opt_round_trip::<String>(x.name);
        lemma_collaborator_role(x);
        <CollaboratorRole as Wire>::lemma_round_trip(x.role);
        let j = Self::wire_of(x);
        assert(req_ok::<i64>(j.field("_id"@)));
        assert(req_ok::<String>(j.field("email"@)));
        assert(opt_ok::<String>(j.field("name"@)));
        assert(req_ok::<CollaboratorRole>(j.field("role"@)));
        assert(req_is::<i64>(j.field("_id"@), x.id));
        assert(req_is::<String>(j.field("email"@), x.email));
        assert(opt_is::<String>(j.field("name"@), x.name));
        assert(req_is::<CollaboratorRole>(j.field("role"@), x.role));
        assert forall|y: Self| #[trigger] Self::wire_is(j, y) implies Self::wire_of(y) == j by {
            assert(entry::<i64>("_id"@, y.id) == entry::<i64>("_id"@, x.id));
            assert(entry::<String>("email"@, y.email) == entry::<String>("email"@, x.email));
            assert(opt_entry::<String>("name"@, y.name) == opt_entry::<String>("name"@, x.name));
            assert(entry::<CollaboratorRole>("role"@, y.role) == entry::<CollaboratorRole>("role"@, x.role));
        }
    }
}

/// The `_id` member of an encoded `Collaborator`.
pub(crate) proof fn lemma_collaborator_id(x: Collaborator)
    ensures
        Collaborator::wire_of(x).field("_id"@) == Some(<i64 as Wire>::wire_of(x.id)),
{
    reveal_strlit("_id");
    assert("_id"@.len() == 3);
    reveal_strlit("email");
    assert("email"@.len() == 5);
    reveal_strlit("name");
    assert("name"@.len() == 4);
    reveal_strlit("role");
    assert("role"@.len() == 4);
    let acc0 = Seq::<(Seq<char>, JsonModel)>::empty();
    lemma_lookup_empty("_id"@);
    let acc1 = acc0 + entry::<i64>("_id"@, x.id);
    let acc2 = acc1 + entry::<String>("email"@, x.email);
    let acc3 = acc2 + opt_entry::<String>("name"@, x.name);
    let acc4 = acc3 + entry::<CollaboratorRole>("role"@, x.role);
    lemma_lookup_then_entry::<i64>(acc0, "_id"@, x.id, "_id"@);
    lemma_lookup_then_entry::<String>(acc1, "email"@, x.email, "_id"@);
    lemma_lookup_then_opt_entry::<String>(acc2, "name"@, x.name, "_id"@);
    lemma_lookup_then_entry::<CollaboratorRole>(acc3, "role"@, x.role, "_id"@);
}

/// The `email` member of an encoded `Collaborator`.
pub(crate) proof fn lemma_collaborator_email(x: Collaborator)
    ensures
        Collaborator::wire_of(x).field("email"@) == Some(<String as Wire>::wire_of(x.email)),
{
    reveal_strlit("email");
    assert("email"@.len() == 5);
    reveal_strlit("_id");
    assert("_id"@.len() == 3);
    reveal_strlit("name");
    assert("name"@.len() == 4);
    reveal_strlit("role");
    assert("role"@.len() == 4);
    let acc0 = Seq::<(Seq<char>, JsonModel)>::empty();
    lemma_lookup_empty("email"@);
    let acc1 = acc0 + entry::<i64>("_id"@, x.id);
    let acc2 = acc1 + entry::<String>("email"@, x.email);
    let acc3 = acc2 + opt_entry::<String>("name"@, x.name);
    let acc4 = acc3 + entry::<CollaboratorRole>("role"@, x.role);
    lemma_lookup_then_entry::<i64>(acc0, "_id"@, x.id, "email"@);
    lemma_lookup_then_entry::<String>(acc1, "email"@, x.email, "email"@);
    lemma_lookup_then_opt_entry::<String>(acc2, "name"@, x.name, "email"@);
    lemma_lookup_then_entry::<CollaboratorRole>(acc3, "role"@, x.role, "email"@);
}

/// The `name` member of an encoded `Collaborator`.
pub(crate) proof fn lemma_collaborator_name(x: Collaborator)
    ensures
        Collaborator::wire_of(x).field("name"@) == Some(match x.name { Some(y) => <String as Wire>::wire_of(y), None => JsonModel::Null }),
{
    reveal_strlit("name");
    assert("name"@.len() == 4);
    reveal_strlit("_id");
    assert("_id"@.len() == 3);
    reveal_strlit("email");
    assert("email"@.len() == 5);
    reveal_strlit("role");
    assert("role"@[0] != "name"@[0]);
    let acc0 = Seq::<(Seq<char>, JsonModel)>::empty();
    lemma_lookup_empty("name"@);
    let acc1 = acc0 + entry::<i64>("_id"@, x.id);
    let acc2 = acc1 + entry::<String>("email"@, x.email);
    let acc3 = acc2 + opt_entry::<String>("name"@, x.name);
    let acc4 = acc3 + entry::<CollaboratorRole>("role"@, x.role);
    lemma_lookup_then_entry::<i64>(acc0, "_id"@, x.id, "name"@);
    lemma_lookup_then_entry::<String>(acc1, "email"@, x.email, "name"@);
    lemma_lookup_then_opt_entry::<String>(acc2, "name"@, x.name, "name"@);
    lemma_lookup_then_entry::<CollaboratorRole>(acc3, "role"@, x.role, "name"@);
}

/// The `role` member of an encoded `Collaborator`.
pub(crate) proof fn lemma_collaborator_role(x: Collaborator)
    ensures
        Collaborator::wire_of(x).field("role"@) == Some(<CollaboratorRole as Wire>::wire_of(x.role)),
{
    reveal_strlit("role");
    assert("role"@.len() == 4);
    reveal_strlit("_id");
    assert("_id"@.len() == 3);
    reveal_strlit("email");
    assert("email"@.len() == 5);
    reveal_strlit("name");
    assert("name"@[0] != "role"@[0]);
    let acc0 = Seq::<(Seq<char>, JsonModel)>::empty();
    lemma_lookup_empty("role"@);
    let acc1 = acc0 + entry::<i64>("_id"@, x.id);
    let acc2 = acc1 + entry::<String>("email"@, x.email);
    let acc3 = acc2 + opt_entry::<String>("name"@, x.name);
    let acc4 = acc3 + entry::<CollaboratorRole>("role"@, x.role);
    lemma_lookup_then_entry::<i64>(acc0, "_id"@, x.id, "role"@);
    lemma_lookup_then_entry::<String>(acc1, "email"@, x.email, "role"@);
    lemma_lookup_then_opt_entry::<String>(acc2, "name"@, x.name, "role"@);
    lemma_lookup_then_entry::<CollaboratorRole>(acc3, "role"@, x.role, "role"@);
}

/// What a collaborator may do.
#[derive(Debug, Clone, Copy, PartialEq, Eq, Structural)]
pub enum CollaboratorRole {
    Owner,
    Viewer,
    Editor,
}

impl CollaboratorRole {
    /// The name of this value on the wire.
    pub open spec fn spec_wire_name(self) -> Seq<char> {
        match self {
            CollaboratorRole::Owner => "owner"@,
            CollaboratorRole::Viewer => "viewer"@,
            CollaboratorRole::Editor => "editor"@,
        }
    }

    /// The value named `s` on the wire, if any.
    pub open spec fn spec_from_wire_name(s: Seq<char>) -> Option<Self> {
        if s == "owner"@ {
            Some(CollaboratorRole::Owner)
        } else if s == "viewer"@ {
            Some(CollaboratorRole::Viewer)
        } else if s == "editor"@ {
            Some(CollaboratorRole::Editor)
        } else {
            None
        }
    }

    /// The name of this value on the wire.
    pub fn wire_name(&self) -> (r: &'static str)
        ensures
            r@ == self.spec_wire_name(),
    {
        match self {
            CollaboratorRole::Owner => "owner",
            CollaboratorRole::Viewer => "viewer",
            CollaboratorRole::Editor => "editor",
        }
    }

    /// The value named `s` on the wire, if any.
    pub fn from_wire_name(s: &str) -> (r: Option<Self>)
        ensures
            r == Self::spec_from_wire_name(s@),
    {
        if text_is(s, "owner") {
            Some(CollaboratorRole::Owner)
        } else if text_is(s, "viewer") {
            Some(CollaboratorRole::Viewer)
        } else if text_is(s, "editor") {
            Some(CollaboratorRole::Editor)
        } else {
            None
        }
    }
}

impl Wire for CollaboratorRole {
    open spec fn wire_ok(j: JsonModel) -> bool {
        j matches JsonModel::Str(s) && Self::spec_from_wire_name(s) is Some
    }

    open spec fn wire_is(j: JsonModel, x: CollaboratorRole) -> bool {
        j matches JsonModel::Str(s) && Self::spec_from_wire_name(s) == Some(x)
    }

    open spec fn wire_of(x: CollaboratorRole) -> JsonModel {
        JsonModel::Str(x.spec_wire_name())
    }

    fn decode(j: &Json) -> (r: Result<CollaboratorRole, String>) {
        match j {
            Json::Str(s) => match Self::from_wire_name(s.as_str()) {
                Some(v) => Ok(v),
                None => Err(String::from_str("unknown variant of CollaboratorRole")),
            },
            _ => Err(String::from_str("expected a string")),
        }
    }

    fn encode(&self) -> (r: Json) {
        Json::Str(String::from_str(self.wire_name()))
    }

    proof fn lemma_round_trip(x: Self) {
        reveal_strlit("editor");
        reveal_strlit("owner");
        reveal_strlit("viewer");
        assert("editor"@.len() == 6);
        assert("owner"@.len() == 5);
        assert("viewer"@.len() == 6);
        assert("editor"@[0] != "viewer"@[0]);
        match x {
            CollaboratorRole::Owner => {},
            CollaboratorRole::Viewer => {},
            CollaboratorRole::Editor => {},
        }
    }
}

/// A reference to a collection.
#[derive(Debug, Clone)]
pub struct CollectionRef {
    pub id: i64,
}

impl Wire for CollectionRef {
    open spec fn wire_ok(j: JsonModel) -> bool {
        &&& j is Object
        &&& req_ok::<i64>(j.field("$id"@))
    }

    open spec fn wire_is(j: JsonModel, x: CollectionRef) -> bool {
        &&& j is Object
        &&& req_is::<i64>(j.field("$id"@), x.id)
    }

    open spec fn wire_of(x: CollectionRef) -> JsonModel {
        JsonModel::Object(
            Seq::empty()
                + entry::<i64>("$id"@, x.id)
        )
    }

    fn decode(j: &Json) -> (r: Result<CollectionRef, String>) {
        match expect_object(j) {
            Ok(()) => {},
            Err(e) => return Err(e),
        }
        let id = match decode_field::<i64>(j, "$id") {
            Ok(v) => v,
            Err(e) => return Err(e),
        };
        Ok(CollectionRef { id })
    }

    fn encode(&self) -> (r: Json) {
        let mut fields = no_fields();
        push_field::<i64>(&mut fields, "$id", &self.id);
        object(fields)
    }

    proof fn lemma_round_trip(x: Self) {
        lemma_collection_ref_id(x);
        <i64 as Wire>::lemma_round_trip(x.id);
        let j = Self::wire_of(x);
        assert(req_ok::<i64>(j.field("$id"@)));
        assert(req_is::<i64>(j.field("$id"@), x.id));
        assert forall|y: Self| #[trigger] Self::wire_is(j, y) implies Self::wire_of(y) == j by {
            assert(entry::<i64>("$id"@, y.id) == entry::<i64>("$id"@, x.id));
        }
    }
}

/// The `$id` member of an encoded `CollectionRef`.
pub(crate) proof fn lemma_collection_ref_id(x: CollectionRef)
    ensures
        CollectionRef::wire_of(x).field("$id"@) == Some(<i64 as Wire>::wire_of(x.id)),
{
    reveal_strlit("$id");
    assert("$id"@.len() == 3);
    let acc0 = Seq::<(Seq<char>, JsonModel)>::empty();
    lemma_lookup_empty("$id"@);
    let acc1 = acc0 + entry::<i64>("$id"@, x.id);
    lemma_lookup_then_entry::<i64>(acc0, "$id"@, x.id, "$id"@);
}

/// The envelope around one collection.
#[derive(Debug, Clone)]
pub struct CollectionResponse {
    pub item: Collection,
}

impl Wire for CollectionResponse {
    open spec fn wire_ok(j: JsonModel) -> bool {
        &&& j is Object
        &&& req_ok::<Collection>(j.field("item"@))
    }

    open spec fn wire_is(j: JsonModel, x: CollectionResponse) -> bool {
        &&& j is Object
        &&& req_is::<Collection>(j.field("item"@), x.item)
    }

    open spec fn wire_of(x: CollectionResponse) -> JsonModel {
        JsonModel::Object(
            Seq::empty()
                + entry::<Collection>("item"@, x.item)
        )
    }

    fn decode(j: &Json) -> (r: Result<CollectionResponse, String>) {
        match expect_object(j) {
            Ok(()) => {},
            Err(e) => return Err(e),
        }
        let item = match decode_field::<Collection>(j, "item") {
            Ok(v) => v,
            Err(e) => return Err(e),
        };
        Ok(CollectionResponse { item })
    }

    fn encode(&self) -> (r: Json) {
        let mut fields = no_fields();
        push_field::<Collection>(&mut fields, "item", &self.item);
        object(fields)
    }

    proof fn lemma_round_trip(x: Self) {
        lemma_collection_response_item(x);
        <Collection as Wire>::lemma_round_trip(x.item);
        let j = Self::wire_of(x);
        assert(req_ok::<Collection>(j.field("item"@)));
        assert(req_is::<Collection>(j.field("item"@), x.item));
        assert forall|y: Self| #[trigger] Self::wire_is(j, y) implies Self::wire_of(y) == j by {
            assert(entry::<Collection>("item"@, y.item) == entry::<Collection>("item"@, x.item));
        }
    }
}

/// The `item` member of an encoded `CollectionResponse`.
pub(crate) proof fn lemma_collection_response_item(x: CollectionResponse)
    ensures
        CollectionResponse::wire_of(x).field("item"@) == Some(<Collection as Wire>::wire_of(x.item)),
{
    reveal_strlit("item");
    assert("item"@.len() == 4);
    let acc0 = Seq::<(Seq<char>, JsonModel)>::empty();
    lemma_lookup_empty("item"@);
    let acc1 = acc0 + entry::<Collection>("item"@, x.item);
    lemma_lookup_then_entry::<Collection>(acc0, "item"@, x.item, "item"@);
}

/// The envelope around a list of collections.
#[derive(Debug, Clone)]
pub struct CollectionsResponse {
    pub items: Vec<Collection>,
}

impl Wire for CollectionsResponse {
    open spec fn wire_ok(j: JsonModel) -> bool {
        &&& j is Object
        &&& req_ok::<Vec<Collection>>(j.field("items"@))
    }

    open spec fn wire_is(j: JsonModel, x: CollectionsResponse) -> bool {
        &&& j is Object
        &&& req_is::<Vec<Collection>>(j.field("items"@), x.items)
    }

    open spec fn wire_of(x: CollectionsResponse) -> JsonModel {
        JsonModel::Object(
            Seq::empty()
                + entry::<Vec<Collection>>("items"@, x.items)
        )
    }

    fn decode(j: &Json) -> (r: Result<CollectionsResponse, String>) {
        match expect_object(j) {
            Ok(()) => {},
            Err(e) => return Err(e),
        }
        let items = match decode_field::<Vec<Collection>>(j, "items") {
            Ok(v) => v,
            Err(e) => return Err(e),
        };
        Ok(CollectionsResponse { items })
    }

    fn encode(&self) -> (r: Json) {
        let mut fields = no_fields();
        push_field::<Vec<Collection>>(&mut fields, "items", &self.items);
        object(fields)
    }

    proof fn lemma_round_trip(x: Self) {
        lemma_collections_response_items(x);
        <Vec<Collection> as Wire>::lemma_round_trip(x.items);
        let j = Self::wire_of(x);
        assert(req_ok::<Vec<Collection>>(j.field("items"@)));
        assert(req_is::<Vec<Collection>>(j.field("items"@), x.items));
        assert forall|y: Self| #[trigger] Self::wire_is(j, y) implies Self::wire_of(y) == j by {
            assert(entry::<Vec<Collection>>("items"@, y.items) == entry::<Vec<Collection>>("items"@, x.items));
        }
    }
}

/// The `items` member of an encoded `CollectionsResponse`.
pub(crate) proof fn lemma_collections_response_items(x: CollectionsResponse)
    ensures
        CollectionsResponse::wire_of(x).field("items"@) == Some(<Vec<Collection> as Wire>::wire_of(x.items)),
{
    reveal_strlit("items");
    assert("items"@.len() == 5);
    let acc0 = Seq::<(Seq<char>, JsonModel)>::empty();
    lemma_lookup_empty("items"@);
    let acc1 = acc0 + entry::<Vec<Collection>>("items"@, x.items);
    lemma_lookup_then_entry::<Vec<Collection>>(acc0, "items"@, x.items, "items"@);
}

} // verus!
