use raindrop::bookmark::{Bookmark, BookmarkType, BookmarksResponse};
use raindrop::collection::{Collection, CollectionResponse, CollectionView, CollectionsResponse, CollectionRef};
use raindrop::json::Json;
use raindrop::search::SearchParams;
use raindrop::transfer::{ExportFormat, ExportOptions, ProcessStatus};
use raindrop::user::{User, UserRef, UserResponse};
use raindrop::wire::Wire;

fn s(x: &str) -> Json {
    Json::Str(x.to_string())
}

fn obj(entries: Vec<(&str, Json)>) -> Json {
    Json::Object(entries.into_iter().map(|(k, v)| (k.to_string(), v)).collect())
}

fn int_at(j: &Json, key: &str) -> Option<i64> {
    match j.field(key) {
        Some(Json::Int(n)) => Some(*n),
        _ => None,
    }
}

fn text_at(j: &Json, key: &str) -> Option<String> {
    match j.field(key) {
        Some(Json::Str(t)) => Some(t.clone()),
        _ => None,
    }
}

fn bool_at(j: &Json, key: &str) -> Option<bool> {
    match j.field(key) {
        Some(Json::Bool(b)) => Some(*b),
        _ => None,
    }
}

fn sample_user() -> User {
    User {
        id: 12345,
        email: Some("test@example.com".to_string()),
        email_md5: Some("13a0a20681d8781912e5314150694bf7".to_string()),
        full_name: Some("Test User".to_string()),
        pro: true,
        pro_expire: Some("2028-09-27T22:00:00.000Z".to_string()),
        registered: Some("2023-01-01T00:00:00Z".to_string()),
        password: Some(true),
        groups: None,
        avatar: None,
        files: None,
        facebook: None,
        twitter: None,
        vkontakte: None,
        google: None,
        dropbox: None,
        gdrive: None,
    }
}

#[test]
fn test_user_serialization() {
    let user = sample_user();
    let json = user.encode();
    assert_eq!(int_at(&json, "_id"), Some(12345));
    assert_eq!(text_at(&json, "email"), Some("test@example.com".to_string()));
    assert_eq!(
        text_at(&json, "email_MD5"),
        Some("13a0a20681d8781912e5314150694bf7".to_string())
    );
    assert_eq!(text_at(&json, "fullName"), Some("Test User".to_string()));
    assert_eq!(bool_at(&json, "pro"), Some(true));
    assert_eq!(text_at(&json, "proExpire"), Some("2028-09-27T22:00:00.000Z".to_string()));
}

fn collection_json() -> Json {
    obj(vec![
        ("_id", Json::Int(123)),
        ("title", s("My Collection")),
        ("description", s("Test collection")),
        ("color", s("#FF0000")),
        ("public", Json::Bool(true)),
        ("view", s("list")),
        ("sort", Json::Int(123)),
        ("cover", Json::Array(vec![s("https://example.com/cover.jpg")])),
        ("count", Json::Int(42)),
        ("expanded", Json::Bool(true)),
        ("parent", obj(vec![("$id", Json::Int(456)), ("title", s("Parent Collection"))])),
        ("user", obj(vec![("$id", Json::Int(789))])),
        ("created", s("2023-01-01T00:00:00Z")),
        ("lastUpdate", s("2023-01-02T00:00:00Z")),
        ("creatorRef", obj(vec![("_id", Json::Int(789)), ("fullName", s("Creator Name"))])),
        (
            "collaborators",
            Json::Array(vec![obj(vec![
                ("_id", Json::Int(999)),
                ("email", s("collab@example.com")),
                ("name", s("Collaborator")),
                ("role", s("editor")),
            ])]),
        ),
    ])
}

#[test]
fn test_collection_deserialization() {
    let collection = Collection::decode(&collection_json()).unwrap();
    assert_eq!(collection.id, 123);
    assert_eq!(collection.title, "My Collection");
    assert_eq!(collection.count, 42);
    assert!(collection.public.unwrap());
    assert!(collection.parent.is_some());
    assert_eq!(collection.parent.unwrap().id, 456);
}

#[test]
fn test_bookmark_types() {
    let json = obj(vec![
        ("_id", Json::Int(1001)),
        ("title", s("Test Bookmark")),
        ("excerpt", s("This is a test")),
        ("note", s("My note")),
        ("type", s("link")),
        ("tags", Json::Array(vec![s("test"), s("example")])),
        ("cover", s("https://example.com/cover.jpg")),
        ("link", s("https://example.com")),
        ("domain", s("example.com")),
        ("created", s("2023-01-01T00:00:00Z")),
        ("lastUpdate", s("2023-01-02T00:00:00Z")),
        ("media", Json::Array(vec![])),
        ("user", obj(vec![("$id", Json::Int(123))])),
        ("collection", obj(vec![("$id", Json::Int(456))])),
        ("important", Json::Bool(true)),
        ("highlights", Json::Array(vec![])),
        ("reminder", Json::Null),
        ("broken", Json::Bool(false)),
        (
            "cache",
            obj(vec![
                ("status", s("ready")),
                ("size", Json::Int(1024)),
                ("created", s("2023-01-01T00:00:00Z")),
            ]),
        ),
    ]);
    let bookmark = Bookmark::decode(&json).unwrap();
    assert_eq!(bookmark.id, 1001);
    assert_eq!(bookmark.title, "Test Bookmark");
    assert_eq!(bookmark.tags.len(), 2);
    assert!(bookmark.important);
    assert!(!bookmark.broken);
    assert!(matches!(bookmark.bookmark_type, BookmarkType::Link));
    assert!(bookmark.reminder.is_none());
}

#[test]
fn test_search_params_default() {
    let params = SearchParams::default();
    assert!(params.search.is_none());
    assert!(params.collection.is_none());
    assert!(params.tags.is_none());
    assert!(params.page.is_none());
    assert!(params.per_page.is_none());
}

fn json_text(j: &Json) -> String {
    match j {
        Json::Str(t) => serde_json::to_string(t).unwrap(),
        _ => panic!("expected a string"),
    }
}

#[test]
fn test_enum_serialization() {
    assert_eq!(json_text(&CollectionView::List.encode()), "\"list\"");
    assert_eq!(json_text(&CollectionView::Grid.encode()), "\"grid\"");
    assert_eq!(json_text(&BookmarkType::Link.encode()), "\"link\"");
    assert_eq!(json_text(&BookmarkType::Video.encode()), "\"video\"");
    assert_eq!(json_text(&ProcessStatus::InProgress.encode()), "\"in-progress\"");
    assert_eq!(json_text(&ProcessStatus::Ready.encode()), "\"ready\"");
}

#[test]
fn test_api_response_wrappers() {
    let collection = Collection {
        id: 123,
        title: "Test".to_string(),
        description: None,
        color: None,
        public: Some(false),
        view: CollectionView::List,
        sort: 0,
        cover: None,
        count: 0,
        expanded: None,
        parent: None,
        user: UserRef { id: 456 },
        created: "2023-01-01T00:00:00Z".to_string(),
        last_update: "2023-01-01T00:00:00Z".to_string(),
        creator_ref: None,
        collaborators: None,
        access: None,
    };
    let response = CollectionResponse { item: collection.clone() };
    let json = response.encode();
    let item = json.field("item").unwrap();
    assert_eq!(int_at(item, "_id"), Some(123));
    assert_eq!(text_at(item, "title"), Some("Test".to_string()));
}

#[test]
fn test_user_deserialization_from_api() {
    let json = obj(vec![
        ("result", Json::Bool(true)),
        (
            "user",
            obj(vec![
                ("_id", Json::Int(32)),
                (
                    "config",
                    obj(vec![
                        ("broken_level", s("strict")),
                        ("font_color", s("")),
                        ("font_size", Json::Int(0)),
                        ("lang", s("ru_RU")),
                        ("last_collection", Json::Int(8492393)),
                        ("raindrops_sort", s("-lastUpdate")),
                        ("raindrops_view", s("list")),
                    ]),
                ),
                ("dropbox", obj(vec![("enabled", Json::Bool(true))])),
                ("email", s("some@email.com")),
                ("email_MD5", s("13a0a20681d8781912e5314150694bf7")),
                (
                    "files",
                    obj(vec![
                        ("used", Json::Int(6766094)),
                        ("size", Json::Int(10_000_000_000)),
                        ("lastCheckPoint", s("2020-01-26T23:53:19.676Z")),
                    ]),
                ),
                ("fullName", s("Mussabekov Rustem")),
                ("gdrive", obj(vec![("enabled", Json::Bool(true))])),
                (
                    "groups",
                    Json::Array(vec![obj(vec![
                        ("title", s("My Collections")),
                        ("hidden", Json::Bool(false)),
                        ("sort", Json::Int(0)),
                        (
                            "collections",
                            Json::Array(vec![
                                Json::Int(8364483),
                                Json::Int(8364403),
                                Json::Int(66),
                            ]),
                        ),
                    ])]),
                ),
                ("password", Json::Bool(true)),
                ("pro", Json::Bool(true)),
                ("proExpire", s("2028-09-27T22:00:00.000Z")),
                ("registered", s("2014-09-30T07:51:15.406Z")),
            ]),
        ),
    ]);
    let response = UserResponse::decode(&json).unwrap();
    let user = response.user;
    assert_eq!(user.id, 32);
    assert_eq!(user.email, Some("some@email.com".to_string()));
    assert_eq!(user.email_md5, Some("13a0a20681d8781912e5314150694bf7".to_string()));
    assert_eq!(user.full_name, Some("Mussabekov Rustem".to_string()));
    assert!(user.pro);
    assert_eq!(user.pro_expire, Some("2028-09-27T22:00:00.000Z".to_string()));
    assert!(user.password.unwrap());
    let groups = user.groups.unwrap();
    assert_eq!(groups.len(), 1);
    assert_eq!(groups[0].title, "My Collections");
    assert_eq!(groups[0].collections.len(), 3);
}

#[test]
fn user_survives_a_round_trip() {
    let user = sample_user();
    let back = User::decode(&user.encode()).unwrap();
    assert_eq!(back.id, 12345);
    assert_eq!(back.email, Some("test@example.com".to_string()));
    assert!(back.pro);
    assert_eq!(back.email_md5, user.email_md5);
    assert_eq!(back.full_name, user.full_name);
    assert_eq!(back.pro_expire, user.pro_expire);
    assert_eq!(back.registered, user.registered);
    assert_eq!(back.password, user.password);
    assert!(back.groups.is_none());
}

#[test]
fn user_skips_absent_optional_fields_but_writes_null_for_others() {
    let mut user = sample_user();
    user.pro_expire = None;
    user.registered = None;
    let json = user.encode();
    assert!(json.field("proExpire").is_none());
    assert!(matches!(json.field("registered"), Some(Json::Null)));
}

#[test]
fn listing_keeps_length_and_order() {
    let mut second = collection_json();
    if let Json::Object(fields) = &mut second {
        fields[0].1 = Json::Int(124);
    }
    let json = obj(vec![("items", Json::Array(vec![collection_json(), second]))]);
    let listing = CollectionsResponse::decode(&json).unwrap();
    assert_eq!(listing.items.len(), 2);
    assert_eq!(listing.items[0].id, 123);
    assert_eq!(listing.items[1].id, 124);
}

#[test]
fn empty_listing_decodes_to_no_collections() {
    let json = obj(vec![("items", Json::Array(vec![]))]);
    assert_eq!(CollectionsResponse::decode(&json).unwrap().items.len(), 0);
}

#[test]
fn single_entity_envelope_keeps_identity() {
    let json = obj(vec![("item", collection_json())]);
    let response = CollectionResponse::decode(&json).unwrap();
    assert_eq!(response.item.id, 123);
}

#[test]
fn unknown_enum_value_fails_the_decode() {
    let mut json = collection_json();
    if let Json::Object(fields) = &mut json {
        fields[5].1 = s("tiles");
    }
    assert!(Collection::decode(&json).is_err());
}

#[test]
fn missing_required_field_fails_the_decode() {
    let json = obj(vec![("$id", Json::Null)]);
    let err = CollectionRef::decode(&json).unwrap_err();
    assert_eq!(err, "missing or invalid field `$id`");
    assert!(CollectionRef::decode(&obj(vec![])).is_err());
    assert!(CollectionRef::decode(&Json::Int(3)).is_err());
}

#[test]
fn integer_out_of_range_fails_an_i32_field() {
    let mut json = collection_json();
    if let Json::Object(fields) = &mut json {
        fields[8].1 = Json::Int(3_000_000_000);
    }
    assert!(Collection::decode(&json).is_err());
}

#[test]
fn null_optional_field_decodes_to_none() {
    let mut json = collection_json();
    if let Json::Object(fields) = &mut json {
        fields[2].1 = Json::Null;
    }
    assert!(Collection::decode(&json).unwrap().description.is_none());
}

#[test]
fn export_options_encode_every_field() {
    let options = ExportOptions {
        collection: Some(7),
        format: ExportFormat::Csv,
        broken: None,
        duplicates: Some(true),
    };
    let json = options.encode();
    assert_eq!(int_at(&json, "collection"), Some(7));
    assert_eq!(text_at(&json, "format"), Some("csv".to_string()));
    assert!(matches!(json.field("broken"), Some(Json::Null)));
    assert_eq!(bool_at(&json, "duplicates"), Some(true));
}

#[test]
fn wire_names_read_back() {
    assert_eq!(ProcessStatus::from_wire_name("in-progress"), Some(ProcessStatus::InProgress));
    assert_eq!(ProcessStatus::from_wire_name("done"), None);
    assert_eq!(ExportFormat::Pdf.wire_name(), "pdf");
}

#[test]
fn bookmark_listing_count_is_optional() {
    let without = obj(vec![("items", Json::Array(vec![]))]);
    assert_eq!(BookmarksResponse::decode(&without).unwrap().count, None);
    let with = obj(vec![("items", Json::Array(vec![])), ("count", Json::Int(12))]);
    assert_eq!(BookmarksResponse::decode(&with).unwrap().count, Some(12));
}
