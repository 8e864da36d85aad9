//! Accounts.
use crate::json::{Json, JsonModel};
use crate::wire::{lemma_lookup_then_entry, lemma_lookup_then_opt_entry, lemma_lookup_then_skip_entry, lemma_opt_round_trip, lemma_lookup_empty, Wire, req_ok, req_is, opt_ok, opt_is, entry, opt_entry, skip_entry, decode_field, decode_opt_field, push_field, push_opt, push_skip, expect_object, object, no_fields, text_is};
use vstd::prelude::*;
use vstd::string::StringExecFns;

verus! {

/// How strictly broken links are reported.
#[derive(Debug, Clone, Copy, PartialEq, Eq, Structural)]
pub enum BrokenLevel {
    Basic,
    Default,
    Strict,
    Off,
}

impl BrokenLevel {
    /// The name of this value on the wire.
    pub open spec fn spec_wire_name(self) -> Seq<char> {
        match self {
            BrokenLevel::Basic => "basic"@,
            BrokenLevel::Default => "default"@,
            BrokenLevel::Strict => "strict"@,
            BrokenLevel::Off => "off"@,
        }
    }

    /// The value named `s` on the wire, if any.
    pub open spec fn spec_from_wire_name(s: Seq<char>) -> Option<Self> {
        if s == "basic"@ {
            Some(BrokenLevel::Basic)
        } else if s == "default"@ {
            Some(BrokenLevel::Default)
        } else if s == "strict"@ {
            Some(BrokenLevel::Strict)
        } else if s == "off"@ {
            Some(BrokenLevel::Off)
        } else {
            None
        }
    }

    /// The name of this value on the wire.
    pub fn wire_name(&self) -> (r: &'static str)
        ensures
            r@ == self.spec_wire_name(),
    {
        match self {
            BrokenLevel::Basic => "basic",
            BrokenLevel::Default => "default",
            BrokenLevel::Strict => "strict",
            BrokenLevel::Off => "off",
        }
    }

    /// The value named `s` on the wire, if any.
    pub fn from_wire_name(s: &str) -> (r: Option<Self>)
        ensures
            r == Self::spec_from_wire_name(s@),
    {
        if text_is(s, "basic") {
            Some(BrokenLevel::Basic)
        } else if text_is(s, "default") {
            Some(BrokenLevel::Default)
        } else if text_is(s, "strict") {
            Some(BrokenLevel::Strict)
        } else if text_is(s, "off") {
            Some(BrokenLevel::Off)
        } else {
            None
        }
    }
}

impl Wire for BrokenLevel {
    open spec fn wire_ok(j: JsonModel) -> bool {
        j matches JsonModel::Str(s) && Self::spec_from_wire_name(s) is Some
    }

    open spec fn wire_is(j: JsonModel, x: BrokenLevel) -> bool {
        j matches JsonModel::Str(s) && Self::spec_from_wire_name(s) == Some(x)
    }

    open spec fn wire_of(x: BrokenLevel) -> JsonModel {
        JsonModel::Str(x.spec_wire_name())
    }

    fn decode(j: &Json) -> (r: Result<BrokenLevel, String>) {
        match j {
            Json::Str(s) => match Self::from_wire_name(s.as_str()) {
                Some(v) => Ok(v),
                None => Err(String::from_str("unknown variant of BrokenLevel")),
            },
            _ => Err(String::from_str("expected a string")),
        }
    }

    fn encode(&self) -> (r: Json) {
        Json::Str(String::from_str(self.wire_name()))
    }

    proof fn lemma_round_trip(x: Self) {
        reveal_strlit("basic");
        reveal_strlit("default");
        reveal_strlit("off");
        reveal_strlit("strict");
        assert("basic"@.len() == 5);
        assert("default"@.len() == 7);
        assert("off"@.len() == 3);
        assert("strict"@.len() == 6);
        match x {
            BrokenLevel::Basic => {},
            BrokenLevel::Default => {},
            BrokenLevel::Strict => {},
            BrokenLevel::Off => {},
        }
    }
}

/// An account of the service.
#[derive(Debug, Clone)]
pub struct User {
    pub id: i64,
    pub email: Option<String>,
    pub email_md5: Option<String>,
    pub full_name: Option<String>,
    pub pro: bool,
    pub pro_expire: Option<String>,
    pub registered: Option<String>,
    pub password: Option<bool>,
    pub groups: Option<Vec<Group>>,
    pub avatar: Option<String>,
    pub files: Option<FilesInfo>,
    pub facebook: Option<SocialConnection>,
    pub twitter: Option<SocialConnection>,
    pub vkontakte: Option<SocialConnection>,
    pub google: Option<SocialConnection>,
    pub dropbox: Option<BackupConnection>,
    pub gdrive: Option<BackupConnection>,
}

impl Wire for User {
    open spec fn wire_ok(j: JsonModel) -> bool {
        &&& j is Object
        &&& req_ok::<i64>(j.field("_id"@))
        &&& opt_ok::<String>(j.field("email"@))
        &&& opt_ok::<String>(j.field("email_MD5"@))
        &&& opt_ok::<String>(j.field("fullName"@))
        &&& req_ok::<bool>(j.field("pro"@))
        &&& opt_ok::<String>(j.field("proExpire"@))
        &&& opt_ok::<String>(j.field("registered"@))
        &&& opt_ok::<bool>(j.field("password"@))
        &&& opt_ok::<Vec<Group>>(j.field("groups"@))
        &&& opt_ok::<String>(j.field("avatar"@))
        &&& opt_ok::<FilesInfo>(j.field("files"@))
        &&& opt_ok::<SocialConnection>(j.field("facebook"@))
        &&& opt_ok::<SocialConnection>(j.field("twitter"@))
        &&& opt_ok::<SocialConnection>(j.field("vkontakte"@))
        &&& opt_ok::<SocialConnection>(j.field("google"@))
        &&& opt_ok::<BackupConnection>(j.field("dropbox"@))
        &&& opt_ok::<BackupConnection>(j.field("gdrive"@))
    }

    open spec fn wire_is(j: JsonModel, x: User) -> bool {
        &&& j is Object
        &&& req_is::<i64>(j.field("_id"@), x.id)
        &&& opt_is::<String>(j.field("email"@), x.email)
        &&& opt_is::<String>(j.field("email_MD5"@), x.email_md5)
        &&& opt_is::<String>(j.field("fullName"@), x.full_name)
        &&& req_is::<bool>(j.field("pro"@), x.pro)
        &&& opt_is::<String>(j.field("proExpire"@), x.pro_expire)
        &&& opt_is::<String>(j.field("registered"@), x.registered)
        &&& opt_is::<bool>(j.field("password"@), x.password)
        &&& opt_is::<Vec<Group>>(j.field("groups"@), x.groups)
        &&& opt_is::<String>(j.field("avatar"@), x.avatar)
        &&& opt_is::<FilesInfo>(j.field("files"@), x.files)
        &&& opt_is::<SocialConnection>(j.field("facebook"@), x.facebook)
        &&& opt_is::<SocialConnection>(j.field("twitter"@), x.twitter)
        &&& opt_is::<SocialConnection>(j.field("vkontakte"@), x.vkontakte)
        &&& opt_is::<SocialConnection>(j.field("google"@), x.google)
        &&& opt_is::<BackupConnection>(j.field("dropbox"@), x.dropbox)
        &&& opt_is::<BackupConnection>(j.field("gdrive"@), x.gdrive)
    }

    open spec fn wire_of(x: User) -> JsonModel {
        JsonModel::Object(
            Seq::empty()
                + entry::<i64>("_id"@, x.id)
                + opt_entry::<String>("email"@, x.email)
                + opt_entry::<String>("email_MD5"@, x.email_md5)
                + opt_entry::<String>("fullName"@, x.full_name)
                + entry::<bool>("pro"@, x.pro)
                + skip_entry::<String>("proExpire"@, x.pro_expire)
                + opt_entry::<String>("registered"@, x.registered)
                + skip_entry::<bool>("password"@, x.password)
                + skip_entry::<Vec<Group>>("groups"@, x.groups)
                + skip_entry::<String>("avatar"@, x.avatar)
                + skip_entry::<FilesInfo>("files"@, x.files)
                + skip_entry::<SocialConnection>("facebook"@, x.facebook)
                + skip_entry::<SocialConnection>("twitter"@, x.twitter)
                + skip_entry::<SocialConnection>("vkontakte"@, x.vkontakte)
                + skip_entry::<SocialConnection>("google"@, x.google)
                + skip_entry::<BackupConnection>("dropbox"@, x.dropbox)
                + skip_entry::<BackupConnection>("gdrive"@, x.gdrive)
        )
    }

    fn decode(j: &Json) -> (r: Result<User, String>) {
        match expect_object(j) {
            Ok(()) => {},
            Err(e) => return Err(e),
        }
        let id = match decode_field::<i64>(j, "_id") {
            Ok(v) => v,
            Err(e) => return Err(e),
        };
        let email = match decode_opt_field::<String>(j, "email") {
            Ok(v) => v,
            Err(e) => return Err(e),
        };
        let email_md5 = match decode_opt_field::<String>(j, "email_MD5") {
            Ok(v) => v,
            Err(e) => return Err(e),
        };
        let full_name = match decode_opt_field::<String>(j, "fullName") {
            Ok(v) => v,
            Err(e) => return Err(e),
        };
        let pro = match decode_field::<bool>(j, "pro") {
            Ok(v) => v,
            Err(e) => return Err(e),
        };
        let pro_expire = match decode_opt_field::<String>(j, "proExpire") {
            Ok(v) => v,
            Err(e) => return Err(e),
        };
        let registered = match decode_opt_field::<String>(j, "registered") {
            Ok(v) => v,
            Err(e) => return Err(e),
        };
        let password = match decode_opt_field::<bool>(j, "password") {
            Ok(v) => v,
            Err(e) => return Err(e),
        };
        let groups = match decode_opt_field::<Vec<Group>>(j, "groups") {
            Ok(v) => v,
            Err(e) => return Err(e),
        };
        let avatar = match decode_opt_field::<String>(j, "avatar") {
            Ok(v) => v,
            Err(e) => return Err(e),
        };
        let files = match decode_opt_field::<FilesInfo>(j, "files") {
            Ok(v) => v,
            Err(e) => return Err(e),
        };
        let facebook = match decode_opt_field::<SocialConnection>(j, "facebook") {
            Ok(v) => v,
            Err(e) => return Err(e),
        };
        let twitter = match decode_opt_field::<SocialConnection>(j, "twitter") {
            Ok(v) => v,
            Err(e) => return Err(e),
        };
        let vkontakte = match decode_opt_field::<SocialConnection>(j, "vkontakte") {
            Ok(v) => v,
            Err(e) => return Err(e),
        };
        let google = match decode_opt_field::<SocialConnection>(j, "google") {
            Ok(v) => v,
            Err(e) => return Err(e),
        };
        let dropbox = match decode_opt_field::<BackupConnection>(j, "dropbox") {
            Ok(v) => v,
            Err(e) => return Err(e),
        };
        let gdrive = match decode_opt_field::<BackupConnection>(j, "gdrive") {
            Ok(v) => v,
            Err(e) => return Err(e),
        };
        Ok(User { id, email, email_md5, full_name, pro, pro_expire, registered, password, groups, avatar, files, facebook, twitter, vkontakte, google, dropbox, gdrive })
    }

    fn encode(&self) -> (r: Json) {
        let mut fields = no_fields();
        push_field::<i64>(&mut fields, "_id", &self.id);
        push_opt::<String>(&mut fields, "email", &self.email);
        push_opt::<String>(&mut fields, "email_MD5", &self.email_md5);
        push_opt::<String>(&mut fields, "fullName", &self.full_name);
        push_field::<bool>(&mut fields, "pro", &self.pro);
        push_skip::<String>(&mut fields, "proExpire", &self.pro_expire);
        push_opt::<String>(&mut fields, "registered", &self.registered);
        push_skip::<bool>(&mut fields, "password", &self.password);
        push_skip::<Vec<Group>>(&mut fields, "groups", &self.groups);
        push_skip::<String>(&mut fields, "avatar", &self.avatar);
        push_skip::<FilesInfo>(&mut fields, "files", &self.files);
        push_skip::<SocialConnection>(&mut fields, "facebook", &self.facebook);
        push_skip::<SocialConnection>(&mut fields, "twitter", &self.twitter);
        push_skip::<SocialConnection>(&mut fields, "vkontakte", &self.vkontakte);
        push_skip::<SocialConnection>(&mut fields, "google", &self.google);
        push_skip::<BackupConnection>(&mut fields, "dropbox", &self.dropbox);
        push_skip::<BackupConnection>(&mut fields, "gdrive", &self.gdrive);
        object(fields)
    }

    proof fn lemma_round_trip(x: Self) {
        lemma_user_id(x);
        <i64 as Wire>::lemma_round_trip(x.id);
        lemma_user_email(x);
        lemma_opt_round_trip::<String>(x.email);
        lemma_user_email_md5(x);
        lemma_opt_round_trip::<String>(x.email_md5);
        lemma_user_full_name(x);
        lemma_opt_round_trip::<String>(x.full_name);
        lemma_user_pro(x);
        <bool as Wire>::lemma_round_trip(x.pro);
        lemma_user_pro_expire(x);
        lemma_opt_round_trip::<String>(x.pro_expire);
        lemma_user_registered(x);
        lemma_opt_round_trip::<String>(x.registered);
        lemma_user_password(x);
        lemma_opt_round_trip::<bool>(x.password);
        lemma_user_groups(x);
        lemma_opt_round_trip::<Vec<Group>>(x.groups);
        lemma_user_avatar(x);
        lemma_opt_round_trip::<String>(x.avatar);
        lemma_user_files(x);
        lemma_opt_round_trip::<FilesInfo>(x.files);
        lemma_user_facebook(x);
        lemma_opt_round_trip::<SocialConnection>(x.facebook);
        lemma_user_twitter(x);
        lemma_opt_round_trip::<SocialConnection>(x.twitter);
        lemma_user_vkontakte(x);
        lemma_opt_round_trip::<SocialConnection>(x.vkontakte);
        lemma_user_google(x);
        lemma_opt_round_trip::<SocialConnection>(x.google);
        lemma_user_dropbox(x);
        lemma_opt_round_trip::<BackupConnection>(x.dropbox);
        lemma_user_gdrive(x);
        lemma_opt_round_trip::<BackupConnection>(x.gdrive);
        let j = Self::wire_of(x);
        assert(req_ok::<i64>(j.field("_id"@)));
        assert(opt_ok::<String>(j.field("email"@)));
        assert(opt_ok::<String>(j.field("email_MD5"@)));
        assert(opt_ok::<String>(j.field("fullName"@)));
        assert(req_ok::<bool>(j.field("pro"@)));
        assert(opt_ok::<String>(j.field("proExpire"@)));
        assert(opt_ok::<String>(j.field("registered"@)));
        assert(opt_ok::<bool>(j.field("password"@)));
        assert(opt_ok::<Vec<Group>>(j.field("groups"@)));
        assert(opt_ok::<String>(j.field("avatar"@)));
        assert(opt_ok::<FilesInfo>(j.field("files"@)));
        assert(opt_ok::<SocialConnection>(j.field("facebook"@)));
        assert(opt_ok::<SocialConnection>(j.field("twitter"@)));
        assert(opt_ok::<SocialConnection>(j.field("vkontakte"@)));
        assert(opt_ok::<SocialConnection>(j.field("google"@)));
        assert(opt_ok::<BackupConnection>(j.field("dropbox"@)));
        assert(opt_ok::<BackupConnection>(j.field("gdrive"@)));
        assert(req_is::<i64>(j.field("_id"@), x.id));
        assert(opt_is::<String>(j.field("email"@), x.email));
        assert(opt_is::<String>(j.field("email_MD5"@), x.email_md5));
        assert(opt_is::<String>(j.field("fullName"@), x.full_name));
        assert(req_is::<bool>(j.field("pro"@), x.pro));
        assert(opt_is::<String>(j.field("proExpire"@), x.pro_expire));
        assert(opt_is::<String>(j.field("registered"@), x.registered));
        assert(opt_is::<bool>(j.field("password"@), x.password));
        assert(opt_is::<Vec<Group>>(j.field("groups"@), x.groups));
        assert(opt_is::<String>(j.field("avatar"@), x.avatar));
        assert(opt_is::<FilesInfo>(j.field("files"@), x.files));
        assert(opt_is::<SocialConnection>(j.field("facebook"@), x.facebook));
        assert(opt_is::<SocialConnection>(j.field("twitter"@), x.twitter));
        assert(opt_is::<SocialConnection>(j.field("vkontakte"@), x.vkontakte));
        assert(opt_is::<SocialConnection>(j.field("google"@), x.google));
        assert(opt_is::<BackupConnection>(j.field("dropbox"@), x.dropbox));
        assert(opt_is::<BackupConnection>(j.field("gdrive"@), x.gdrive));
        assert forall|y: Self| #[trigger] Self::wire_is(j, y) implies Self::wire_of(y) == j by {
            assert(entry::<i64>("_id"@, y.id) == entry::<i64>("_id"@, x.id));
            assert(opt_entry::<String>("email"@, y.email) == opt_entry::<String>("email"@, x.email));
            assert(opt_entry::<String>("email_MD5"@, y.email_md5) == opt_entry::<String>("email_MD5"@, x.email_md5));
            assert(opt_entry::<String>("fullName"@, y.full_name) == opt_entry::<String>("fullName"@, x.full_name));
            assert(entry::<bool>("pro"@, y.pro) == entry::<bool>("pro"@, x.pro));
            assert(skip_entry::<String>("proExpire"@, y.pro_expire) == skip_entry::<String>("proExpire"@, x.pro_expire));
            assert(opt_entry::<String>("registered"@, y.registered) == opt_entry::<String>("registered"@, x.registered));
            assert(skip_entry::<bool>("password"@, y.password) == skip_entry::<bool>("password"@, x.password));
            assert(skip_entry::<Vec<Group>>("groups"@, y.groups) == skip_entry::<Vec<Group>>("groups"@, x.groups));
            assert(skip_entry::<String>("avatar"@, y.avatar) == skip_entry::<String>("avatar"@, x.avatar));
            assert(skip_entry::<FilesInfo>("files"@, y.files) == skip_entry::<FilesInfo>("files"@, x.files));
            assert(skip_entry::<SocialConnection>("facebook"@, y.facebook) == skip_entry::<SocialConnection>("facebook"@, x.facebook));
            assert(skip_entry::<SocialConnection>("twitter"@, y.twitter) == skip_entry::<SocialConnection>("twitter"@, x.twitter));
            assert(skip_entry::<SocialConnection>("vkontakte"@, y.vkontakte) == skip_entry::<SocialConnection>("vkontakte"@, x.vkontakte));
            assert(skip_entry::<SocialConnection>("google"@, y.google) == skip_entry::<SocialConnection>("google"@, x.google));
            assert(skip_entry::<BackupConnection>("dropbox"@, y.dropbox) == skip_entry::<BackupConnection>("dropbox"@, x.dropbox));
            assert(skip_entry::<BackupConnection>("gdrive"@, y.gdrive) == skip_entry::<BackupConnection>("gdrive"@, x.gdrive));
        }
    }
}

/// The `_id` member of an encoded `User`.
pub(crate) proof fn lemma_user_id(x: User)
    ensures
        User::wire_of(x).field("_id"@) == Some(<i64 as Wire>::wire_of(x.id)),
{
    reveal_strlit("_id");
    assert("_id"@.len() == 3);
    reveal_strlit("email");
    assert("email"@.len() == 5);
    reveal_strlit("email_MD5");
    assert("email_MD5"@.len() == 9);
    reveal_strlit("fullName");
    assert("fullName"@.len() == 8);
    reveal_strlit("pro");
    assert("pro"@[0] != "_id"@[0]);
    reveal_strlit("proExpire");
    assert("proExpire"@.len() == 9);
    reveal_strlit("registered");
    assert("registered"@.len() == 10);
    reveal_strlit("password");
    assert("password"@.len() == 8);
    reveal_strlit("groups");
    assert("groups"@.len() == 6);
    reveal_strlit("avatar");
    assert("avatar"@.len() == 6);
    reveal_strlit("files");
    assert("files"@.len() == 5);
    reveal_strlit("facebook");
    assert("facebook"@.len() == 8);
    reveal_strlit("twitter");
    assert("twitter"@.len() == 7);
    reveal_strlit("vkontakte");
    assert("vkontakte"@.len() == 9);
    reveal_strlit("google");
    assert("google"@.len() == 6);
    reveal_strlit("dropbox");
    assert("dropbox"@.len() == 7);
    reveal_strlit("gdrive");
    assert("gdrive"@.len() == 6);
    let acc0 = Seq::<(Seq<char>, JsonModel)>::empty();
    lemma_lookup_empty("_id"@);
    let acc1 = acc0 + entry::<i64>("_id"@, x.id);
    let acc2 = acc1 + opt_entry::<String>("email"@, x.email);
    let acc3 = acc2 + opt_entry::<String>("email_MD5"@, x.email_md5);
    let acc4 = acc3 + opt_entry::<String>("fullName"@, x.full_name);
    let acc5 = acc4 + entry::<bool>("pro"@, x.pro);
    let acc6 = acc5 + skip_entry::<String>("proExpire"@, x.pro_expire);
    let acc7 = acc6 + opt_entry::<String>("registered"@, x.registered);
    let acc8 = acc7 + skip_entry::<bool>("password"@, x.password);
    let acc9 = acc8 + skip_entry::<Vec<Group>>("groups"@, x.groups);
    let acc10 = acc9 + skip_entry::<String>("avatar"@, x.avatar);
    let acc11 = acc10 + skip_entry::<FilesInfo>("files"@, x.files);
    let acc12 = acc11 + skip_entry::<SocialConnection>("facebook"@, x.facebook);
    let acc13 = acc12 + skip_entry::<SocialConnection>("twitter"@, x.twitter);
    let acc14 = acc13 + skip_entry::<SocialConnection>("vkontakte"@, x.vkontakte);
    let acc15 = acc14 + skip_entry::<SocialConnection>("google"@, x.google);
    let acc16 = acc15 + skip_entry::<BackupConnection>("dropbox"@, x.dropbox);
    let acc17 = acc16 + skip_entry::<BackupConnection>("gdrive"@, x.gdrive);
    lemma_lookup_then_entry::<i64>(acc0, "_id"@, x.id, "_id"@);
    lemma_lookup_then_opt_entry::<String>(acc1, "email"@, x.email, "_id"@);
    lemma_lookup_then_opt_entry::<String>(acc2, "email_MD5"@, x.email_md5, "_id"@);
    lemma_lookup_then_opt_entry::<String>(acc3, "fullName"@, x.full_name, "_id"@);
    lemma_lookup_then_entry::<bool>(acc4, "pro"@, x.pro, "_id"@);
    lemma_lookup_then_skip_entry::<String>(acc5, "proExpire"@, x.pro_expire, "_id"@);
    lemma_lookup_then_opt_entry::<String>(acc6, "registered"@, x.registered, "_id"@);
    lemma_lookup_then_skip_entry::<bool>(acc7, "password"@, x.password, "_id"@);
    lemma_lookup_then_skip_entry::<Vec<Group>>(acc8, "groups"@, x.groups, "_id"@);
    lemma_lookup_then_skip_entry::<String>(acc9, "avatar"@, x.avatar, "_id"@);
    lemma_lookup_then_skip_entry::<FilesInfo>(acc10, "files"@, x.files, "_id"@);
    lemma_lookup_then_skip_entry::<SocialConnection>(acc11, "facebook"@, x.facebook, "_id"@);
    lemma_lookup_then_skip_entry::<SocialConnection>(acc12, "twitter"@, x.twitter, "_id"@);
    lemma_lookup_then_skip_entry::<SocialConnection>(acc13, "vkontakte"@, x.vkontakte, "_id"@);
    lemma_lookup_then_skip_entry::<SocialConnection>(acc14, "google"@, x.google, "_id"@);
    lemma_lookup_then_skip_entry::<BackupConnection>(acc15, "dropbox"@, x.dropbox, "_id"@);
    lemma_lookup_then_skip_entry::<BackupConnection>(acc16, "gdrive"@, x.gdrive, "_id"@);
}

/// The `email` member of an encoded `User`.
pub(crate) proof fn lemma_user_email(x: User)
    ensures
        User::wire_of(x).field("email"@) == Some(match x.email { Some(y) => <String as Wire>::wire_of(y), None => JsonModel::Null }),
{
    reveal_strlit("email");
    assert("email"@.len() == 5);
    reveal_strlit("_id");
    assert("_id"@.len() == 3);
    reveal_strlit("email_MD5");
    assert("email_MD5"@.len() == 9);
    reveal_strlit("fullName");
    assert("fullName"@.len() == 8);
    reveal_strlit("pro");
    assert("pro"@.len() == 3);
    reveal_strlit("proExpire");
    assert("proExpire"@.len() == 9);
    reveal_strlit("registered");
    assert("registered"@.len() == 10);
    reveal_strlit("password");
    assert("password"@.len() == 8);
    reveal_strlit("groups");
    assert("groups"@.len() == 6);
    reveal_strlit("avatar");
    assert("avatar"@.len() == 6);
    reveal_strlit("files");
    assert("files"@[0] != "email"@[0]);
    reveal_strlit("facebook");
    assert("facebook"@.len() == 8);
    reveal_strlit("twitter");
    assert("twitter"@.len() == 7);
    reveal_strlit("vkontakte");
    assert("vkontakte"@.len() == 9);
    reveal_strlit("google");
    assert("google"@.len() == 6);
    reveal_strlit("dropbox");
    assert("dropbox"@.len() == 7);
    reveal_strlit("gdrive");
    assert("gdrive"@.len() == 6);
    let acc0 = Seq::<(Seq<char>, JsonModel)>::empty();
    lemma_lookup_empty("email"@);
    let acc1 = acc0 + entry::<i64>("_id"@, x.id);
    let acc2 = acc1 + opt_entry::<String>("email"@, x.email);
    let acc3 = acc2 + opt_entry::<String>("email_MD5"@, x.email_md5);
    let acc4 = acc3 + opt_entry::<String>("fullName"@, x.full_name);
    let acc5 = acc4 + entry::<bool>("pro"@, x.pro);
    let acc6 = acc5 + skip_entry::<String>("proExpire"@, x.pro_expire);
    let acc7 = acc6 + opt_entry::<String>("registered"@, x.registered);
    let acc8 = acc7 + skip_entry::<bool>("password"@, x.password);
    let acc9 = acc8 + skip_entry::<Vec<Group>>("groups"@, x.groups);
    let acc10 = acc9 + skip_entry::<String>("avatar"@, x.avatar);
    let acc11 = acc10 + skip_entry::<FilesInfo>("files"@, x.files);
    let acc12 = acc11 + skip_entry::<SocialConnection>("facebook"@, x.facebook);
    let acc13 = acc12 + skip_entry::<SocialConnection>("twitter"@, x.twitter);
    let acc14 = acc13 + skip_entry::<SocialConnection>("vkontakte"@, x.vkontakte);
    let acc15 = acc14 + skip_entry::<SocialConnection>("google"@, x.google);
    let acc16 = acc15 + skip_entry::<BackupConnection>("dropbox"@, x.dropbox);
    let acc17 = acc16 + skip_entry::<BackupConnection>("gdrive"@, x.gdrive);
    lemma_lookup_then_entry::<i64>(acc0, "_id"@, x.id, "email"@);
    lemma_lookup_then_opt_entry::<String>(acc1, "email"@, x.email, "email"@);
    lemma_lookup_then_opt_entry::<String>(acc2, "email_MD5"@, x.email_md5, "email"@);
    lemma_lookup_then_opt_entry::<String>(acc3, "fullName"@, x.full_name, "email"@);
    lemma_lookup_then_entry::<bool>(acc4, "pro"@, x.pro, "email"@);
    lemma_lookup_then_skip_entry::<String>(acc5, "proExpire"@, x.pro_expire, "email"@);
    lemma_lookup_then_opt_entry::<String>(acc6, "registered"@, x.registered, "email"@);
    lemma_lookup_then_skip_entry::<bool>(acc7, "password"@, x.password, "email"@);
    lemma_lookup_then_skip_entry::<Vec<Group>>(acc8, "groups"@, x.groups, "email"@);
    lemma_lookup_then_skip_entry::<String>(acc9, "avatar"@, x.avatar, "email"@);
    lemma_lookup_then_skip_entry::<FilesInfo>(acc10, "files"@, x.files, "email"@);
    lemma_lookup_then_skip_entry::<SocialConnection>(acc11, "facebook"@, x.facebook, "email"@);
    lemma_lookup_then_skip_entry::<SocialConnection>(acc12, "twitter"@, x.twitter, "email"@);
    lemma_lookup_then_skip_entry::<SocialConnection>(acc13, "vkontakte"@, x.vkontakte, "email"@);
    lemma_lookup_then_skip_entry::<SocialConnection>(acc14, "google"@, x.google, "email"@);
    lemma_lookup_then_skip_entry::<BackupConnection>(acc15, "dropbox"@, x.dropbox, "email"@);
    lemma_lookup_then_skip_entry::<BackupConnection>(acc16, "gdrive"@, x.gdrive, "email"@);
}

/// The `email_MD5` member of an encoded `User`.
pub(crate) proof fn lemma_user_email_md5(x: User)
    ensures
        User::wire_of(x).field("email_MD5"@) == Some(match x.email_md5 { Some(y) => <String as Wire>::wire_of(y), None => JsonModel::Null }),
{
    reveal_strlit("email_MD5");
    assert("email_MD5"@.len() == 9);
    reveal_strlit("_id");
    assert("_id"@.len() == 3);
    reveal_strlit("email");
    assert("email"@.len() == 5);
    reveal_strlit("fullName");
    assert("fullName"@.len() == 8);
    reveal_strlit("pro");
    assert("pro"@.len() == 3);
    reveal_strlit("proExpire");
    assert("proExpire"@[0] != "email_MD5"@[0]);
    reveal_strlit("registered");
    assert("registered"@.len() == 10);
    reveal_strlit("password");
    assert("password"@.len() == 8);
    reveal_strlit("groups");
    assert("groups"@.len() == 6);
    reveal_strlit("avatar");
    assert("avatar"@.len() == 6);
    reveal_strlit("files");
    assert("files"@.len() == 5);
    reveal_strlit("facebook");
    assert("facebook"@.len() == 8);
    reveal_strlit("twitter");
    assert("twitter"@.len() == 7);
    reveal_strlit("vkontakte");
    assert("vkontakte"@[0] != "email_MD5"@[0]);
    reveal_strlit("google");
    assert("google"@.len() == 6);
    reveal_strlit("dropbox");
    assert("dropbox"@.len() == 7);
    reveal_strlit("gdrive");
    assert("gdrive"@.len() == 6);
    let acc0 = Seq::<(Seq<char>, JsonModel)>::empty();
    lemma_lookup_empty("email_MD5"@);
    let acc1 = acc0 + entry::<i64>("_id"@, x.id);
    let acc2 = acc1 + opt_entry::<String>("email"@, x.email);
    let acc3 = acc2 + opt_entry::<String>("email_MD5"@, x.email_md5);
    let acc4 = acc3 + opt_entry::<String>("fullName"@, x.full_name);
    let acc5 = acc4 + entry::<bool>("pro"@, x.pro);
    let acc6 = acc5 + skip_entry::<String>("proExpire"@, x.pro_expire);
    let acc7 = acc6 + opt_entry::<String>("registered"@, x.registered);
    let acc8 = acc7 + skip_entry::<bool>("password"@, x.password);
    let acc9 = acc8 + skip_entry::<Vec<Group>>("groups"@, x.groups);
    let acc10 = acc9 + skip_entry::<String>("avatar"@, x.avatar);
    let acc11 = acc10 + skip_entry::<FilesInfo>("files"@, x.files);
    let acc12 = acc11 + skip_entry::<SocialConnection>("facebook"@, x.facebook);
    let acc13 = acc12 + skip_entry::<SocialConnection>("twitter"@, x.twitter);
    let acc14 = acc13 + skip_entry::<SocialConnection>("vkontakte"@, x.vkontakte);
    let acc15 = acc14 + skip_entry::<SocialConnection>("google"@, x.google);
    let acc16 = acc15 + skip_entry::<BackupConnection>("dropbox"@, x.dropbox);
    let acc17 = acc16 + skip_entry::<BackupConnection>("gdrive"@, x.gdrive);
    lemma_lookup_then_entry::<i64>(acc0, "_id"@, x.id, "email_MD5"@);
    lemma_lookup_then_opt_entry::<String>(acc1, "email"@, x.email, "email_MD5"@);
    lemma_lookup_then_opt_entry::<String>(acc2, "email_MD5"@, x.email_md5, "email_MD5"@);
    lemma_lookup_then_opt_entry::<String>(acc3, "fullName"@, x.full_name, "email_MD5"@);
    lemma_lookup_then_entry::<bool>(acc4, "pro"@, x.pro, "email_MD5"@);
    lemma_lookup_then_skip_entry::<String>(acc5, "proExpire"@, x.pro_expire, "email_MD5"@);
    lemma_lookup_then_opt_entry::<String>(acc6, "registered"@, x.registered, "email_MD5"@);
    lemma_lookup_then_skip_entry::<bool>(acc7, "password"@, x.password, "email_MD5"@);
    lemma_lookup_then_skip_entry::<Vec<Group>>(acc8, "groups"@, x.groups, "email_MD5"@);
    lemma_lookup_then_skip_entry::<String>(acc9, "avatar"@, x.avatar, "email_MD5"@);
    lemma_lookup_then_skip_entry::<FilesInfo>(acc10, "files"@, x.files, "email_MD5"@);
    lemma_lookup_then_skip_entry::<SocialConnection>(acc11, "facebook"@, x.facebook, "email_MD5"@);
    lemma_lookup_then_skip_entry::<SocialConnection>(acc12, "twitter"@, x.twitter, "email_MD5"@);
    lemma_lookup_then_skip_entry::<SocialConnection>(acc13, "vkontakte"@, x.vkontakte, "email_MD5"@);
    lemma_lookup_then_skip_entry::<SocialConnection>(acc14, "google"@, x.google, "email_MD5"@);
    lemma_lookup_then_skip_entry::<BackupConnection>(acc15, "dropbox"@, x.dropbox, "email_MD5"@);
    lemma_lookup_then_skip_entry::<BackupConnection>(acc16, "gdrive"@, x.gdrive, "email_MD5"@);
}

/// The `fullName` member of an encoded `User`.
pub(crate) proof fn lemma_user_full_name(x: User)
    ensures
        User::wire_of(x).field("fullName"@) == Some(match x.full_name { Some(y) => <String as Wire>::wire_of(y), None => JsonModel::Null }),
{
    reveal_strlit("fullName");
    assert("fullName"@.len() == 8);
    reveal_strlit("_id");
    assert("_id"@.len() == 3);
    reveal_strlit("email");
    assert("email"@.len() == 5);
    reveal_strlit("email_MD5");
    assert("email_MD5"@.len() == 9);
    reveal_strlit("pro");
    assert("pro"@.len() == 3);
    reveal_strlit("proExpire");
    assert("proExpire"@.len() == 9);
    reveal_strlit("registered");
    assert("registered"@.len() == 10);
    reveal_strlit("password");
    assert("password"@[0] != "fullName"@[0]);
    reveal_strlit("groups");
    assert("groups"@.len() == 6);
    reveal_strlit("avatar");
    assert("avatar"@.len() == 6);
    reveal_strlit("files");
    assert("files"@.len() == 5);
    reveal_strlit("facebook");
    assert("facebook"@[1] != "fullName"@[1]);
    reveal_strlit("twitter");
    assert("twitter"@.len() == 7);
    reveal_strlit("vkontakte");
    assert("vkontakte"@.len() == 9);
    reveal_strlit("google");
    assert("google"@.len() == 6);
    reveal_strlit("dropbox");
    assert("dropbox"@.len() == 7);
    reveal_strlit("gdrive");
    assert("gdrive"@.len() == 6);
    let acc0 = Seq::<(Seq<char>, JsonModel)>::empty();
    lemma_lookup_empty("fullName"@);
    let acc1 = acc0 + entry::<i64>("_id"@, x.id);
    let acc2 = acc1 + opt_entry::<String>("email"@, x.email);
    let acc3 = acc2 + opt_entry::<String>("email_MD5"@, x.email_md5);
    let acc4 = acc3 + opt_entry::<String>("fullName"@, x.full_name);
    let acc5 = acc4 + entry::<bool>("pro"@, x.pro);
    let acc6 = acc5 + skip_entry::<String>("proExpire"@, x.pro_expire);
    let acc7 = acc6 + opt_entry::<String>("registered"@, x.registered);
    let acc8 = acc7 + skip_entry::<bool>("password"@, x.password);
    let acc9 = acc8 + skip_entry::<Vec<Group>>("groups"@, x.groups);
    let acc10 = acc9 + skip_entry::<String>("avatar"@, x.avatar);
    let acc11 = acc10 + skip_entry::<FilesInfo>("files"@, x.files);
    let acc12 = acc11 + skip_entry::<SocialConnection>("facebook"@, x.facebook);
    let acc13 = acc12 + skip_entry::<SocialConnection>("twitter"@, x.twitter);
    let acc14 = acc13 + skip_entry::<SocialConnection>("vkontakte"@, x.vkontakte);
    let acc15 = acc14 + skip_entry::<SocialConnection>("google"@, x.google);
    let acc16 = acc15 + skip_entry::<BackupConnection>("dropbox"@, x.dropbox);
    let acc17 = acc16 + skip_entry::<BackupConnection>("gdrive"@, x.gdrive);
    lemma_lookup_then_entry::<i64>(acc0, "_id"@, x.id, "fullName"@);
    lemma_lookup_then_opt_entry::<String>(acc1, "email"@, x.email, "fullName"@);
    lemma_lookup_then_opt_entry::<String>(acc2, "email_MD5"@, x.email_md5, "fullName"@);
    lemma_lookup_then_opt_entry::<String>(acc3, "fullName"@, x.full_name, "fullName"@);
    lemma_lookup_then_entry::<bool>(acc4, "pro"@, x.pro, "fullName"@);
    lemma_lookup_then_skip_entry::<String>(acc5, "proExpire"@, x.pro_expire, "fullName"@);
    lemma_lookup_then_opt_entry::<String>(acc6, "registered"@, x.registered, "fullName"@);
    lemma_lookup_then_skip_entry::<bool>(acc7, "password"@, x.password, "fullName"@);
    lemma_lookup_then_skip_entry::<Vec<Group>>(acc8, "groups"@, x.groups, "fullName"@);
    lemma_lookup_then_skip_entry::<String>(acc9, "avatar"@, x.avatar, "fullName"@);
    lemma_lookup_then_skip_entry::<FilesInfo>(acc10, "files"@, x.files, "fullName"@);
    lemma_lookup_then_skip_entry::<SocialConnection>(acc11, "facebook"@, x.facebook, "fullName"@);
    lemma_lookup_then_skip_entry::<SocialConnection>(acc12, "twitter"@, x.twitter, "fullName"@);
    lemma_lookup_then_skip_entry::<SocialConnection>(acc13, "vkontakte"@, x.vkontakte, "fullName"@);
    lemma_lookup_then_skip_entry::<SocialConnection>(acc14, "google"@, x.google, "fullName"@);
    lemma_lookup_then_skip_entry::<BackupConnection>(acc15, "dropbox"@, x.dropbox, "fullName"@);
    lemma_lookup_then_skip_entry::<BackupConnection>(acc16, "gdrive"@, x.gdrive, "fullName"@);
}

/// The `pro` member of an encoded `User`.
pub(crate) proof fn lemma_user_pro(x: User)
    ensures
        User::wire_of(x).field("pro"@) == Some(<bool as Wire>::wire_of(x.pro)),
{
    reveal_strlit("pro");
    assert("pro"@.len() == 3);
    reveal_strlit("_id");
    assert("_id"@[0] != "pro"@[0]);
    reveal_strlit("email");
    assert("email"@.len() == 5);
    reveal_strlit("email_MD5");
    assert("email_MD5"@.len() == 9);
    reveal_strlit("fullName");
    assert("fullName"@.len() == 8);
    reveal_strlit("proExpire");
    assert("proExpire"@.len() == 9);
    reveal_strlit("registered");
    assert("registered"@.len() == 10);
    reveal_strlit("password");
    assert("password"@.len() == 8);
    reveal_strlit("groups");
    assert("groups"@.len() == 6);
    reveal_strlit("avatar");
    assert("avatar"@.len() == 6);
    reveal_strlit("files");
    assert("files"@.len() == 5);
    reveal_strlit("facebook");
    assert("facebook"@.len() == 8);
    reveal_strlit("twitter");
    assert("twitter"@.len() == 7);
    reveal_strlit("vkontakte");
    assert("vkontakte"@.len() == 9);
    reveal_strlit("google");
    assert("google"@.len() == 6);
    reveal_strlit("dropbox");
    assert("dropbox"@.len() == 7);
    reveal_strlit("gdrive");
    assert("gdrive"@.len() == 6);
    let acc0 = Seq::<(Seq<char>, JsonModel)>::empty();
    lemma_lookup_empty("pro"@);
    let acc1 = acc0 + entry::<i64>("_id"@, x.id);
    let acc2 = acc1 + opt_entry::<String>("email"@, x.email);
    let acc3 = acc2 + opt_entry::<String>("email_MD5"@, x.email_md5);
    let acc4 = acc3 + opt_entry::<String>("fullName"@, x.full_name);
    let acc5 = acc4 + entry::<bool>("pro"@, x.pro);
    let acc6 = acc5 + skip_entry::<String>("proExpire"@, x.pro_expire);
    let acc7 = acc6 + opt_entry::<String>("registered"@, x.registered);
    let acc8 = acc7 + skip_entry::<bool>("password"@, x.password);
    let acc9 = acc8 + skip_entry::<Vec<Group>>("groups"@, x.groups);
    let acc10 = acc9 + skip_entry::<String>("avatar"@, x.avatar);
    let acc11 = acc10 + skip_entry::<FilesInfo>("files"@, x.files);
    let acc12 = acc11 + skip_entry::<SocialConnection>("facebook"@, x.facebook);
    let acc13 = acc12 + skip_entry::<SocialConnection>("twitter"@, x.twitter);
    let acc14 = acc13 + skip_entry::<SocialConnection>("vkontakte"@, x.vkontakte);
    let acc15 = acc14 + skip_entry::<SocialConnection>("google"@, x.google);
    let acc16 = acc15 + skip_entry::<BackupConnection>("dropbox"@, x.dropbox);
    let acc17 = acc16 + skip_entry::<BackupConnection>("gdrive"@, x.gdrive);
    lemma_lookup_then_entry::<i64>(acc0, "_id"@, x.id, "pro"@);
    lemma_lookup_then_opt_entry::<String>(acc1, "email"@, x.email, "pro"@);
    lemma_lookup_then_opt_entry::<String>(acc2, "email_MD5"@, x.email_md5, "pro"@);
    lemma_lookup_then_opt_entry::<String>(acc3, "fullName"@, x.full_name, "pro"@);
    lemma_lookup_then_entry::<bool>(acc4, "pro"@, x.pro, "pro"@);
    lemma_lookup_then_skip_entry::<String>(acc5, "proExpire"@, x.pro_expire, "pro"@);
    lemma_lookup_then_opt_entry::<String>(acc6, "registered"@, x.registered, "pro"@);
    lemma_lookup_then_skip_entry::<bool>(acc7, "password"@, x.password, "pro"@);
    lemma_lookup_then_skip_entry::<Vec<Group>>(acc8, "groups"@, x.groups, "pro"@);
    lemma_lookup_then_skip_entry::<String>(acc9, "avatar"@, x.avatar, "pro"@);
    lemma_lookup_then_skip_entry::<FilesInfo>(acc10, "files"@, x.files, "pro"@);
    lemma_lookup_then_skip_entry::<SocialConnection>(acc11, "facebook"@, x.facebook, "pro"@);
    lemma_lookup_then_skip_entry::<SocialConnection>(acc12, "twitter"@, x.twitter, "pro"@);
    lemma_lookup_then_skip_entry::<SocialConnection>(acc13, "vkontakte"@, x.vkontakte, "pro"@);
    lemma_lookup_then_skip_entry::<SocialConnection>(acc14, "google"@, x.google, "pro"@);
    lemma_lookup_then_skip_entry::<BackupConnection>(acc15, "dropbox"@, x.dropbox, "pro"@);
    lemma_lookup_then_skip_entry::<BackupConnection>(acc16, "gdrive"@, x.gdrive, "pro"@);
}

/// The `proExpire` member of an encoded `User`.
pub(crate) proof fn lemma_user_pro_expire(x: User)
    ensures
        User::wire_of(x).field("proExpire"@) == match x.pro_expire { Some(y) => Some(<String as Wire>::wire_of(y)), None => None },
{
    reveal_strlit("proExpire");
    assert("proExpire"@.len() == 9);
    reveal_strlit("_id");
    assert("_id"@.len() == 3);
    reveal_strlit("email");
    assert("email"@.len() == 5);
    reveal_strlit("email_MD5");
    assert("email_MD5"@[0] != "proExpire"@[0]);
    reveal_strlit("fullName");
    assert("fullName"@.len() == 8);
    reveal_strlit("pro");
    assert("pro"@.len() == 3);
    reveal_strlit("registered");
    assert("registered"@.len() == 10);
    reveal_strlit("password");
    assert("password"@.len() == 8);
    reveal_strlit("groups");
    assert("groups"@.len() == 6);
    reveal_strlit("avatar");
    assert("avatar"@.len() == 6);
    reveal_strlit("files");
    assert("files"@.len() == 5);
    reveal_strlit("facebook");
    assert("facebook"@.len() == 8);
    reveal_strlit("twitter");
    assert("twitter"@.len() == 7);
    reveal_strlit("vkontakte");
    assert("vkontakte"@[0] != "proExpire"@[0]);
    reveal_strlit("google");
    assert("google"@.len() == 6);
    reveal_strlit("dropbox");
    assert("dropbox"@.len() == 7);
    reveal_strlit("gdrive");
    assert("gdrive"@.len() == 6);
    let acc0 = Seq::<(Seq<char>, JsonModel)>::empty();
    lemma_lookup_empty("proExpire"@);
    let acc1 = acc0 + entry::<i64>("_id"@, x.id);
    let acc2 = acc1 + opt_entry::<String>("email"@, x.email);
    let acc3 = acc2 + opt_entry::<String>("email_MD5"@, x.email_md5);
    let acc4 = acc3 + opt_entry::<String>("fullName"@, x.full_name);
    let acc5 = acc4 + entry::<bool>("pro"@, x.pro);
    let acc6 = acc5 + skip_entry::<String>("proExpire"@, x.pro_expire);
    let acc7 = acc6 + opt_entry::<String>("registered"@, x.registered);
    let acc8 = acc7 + skip_entry::<bool>("password"@, x.password);
    let acc9 = acc8 + skip_entry::<Vec<Group>>("groups"@, x.groups);
    let acc10 = acc9 + skip_entry::<String>("avatar"@, x.avatar);
    let acc11 = acc10 + skip_entry::<FilesInfo>("files"@, x.files);
    let acc12 = acc11 + skip_entry::<SocialConnection>("facebook"@, x.facebook);
    let acc13 = acc12 + skip_entry::<SocialConnection>("twitter"@, x.twitter);
    let acc14 = acc13 + skip_entry::<SocialConnection>("vkontakte"@, x.vkontakte);
    let acc15 = acc14 + skip_entry::<SocialConnection>("google"@, x.google);
    let acc16 = acc15 + skip_entry::<BackupConnection>("dropbox"@, x.dropbox);
    let acc17 = acc16 + skip_entry::<BackupConnection>("gdrive"@, x.gdrive);
    lemma_lookup_then_entry::<i64>(acc0, "_id"@, x.id, "proExpire"@);
    lemma_lookup_then_opt_entry::<String>(acc1, "email"@, x.email, "proExpire"@);
    lemma_lookup_then_opt_entry::<String>(acc2, "email_MD5"@, x.email_md5, "proExpire"@);
    lemma_lookup_then_opt_entry::<String>(acc3, "fullName"@, x.full_name, "proExpire"@);
    lemma_lookup_then_entry::<bool>(acc4, "pro"@, x.pro, "proExpire"@);
    lemma_lookup_then_skip_entry::<String>(acc5, "proExpire"@, x.pro_expire, "proExpire"@);
    lemma_lookup_then_opt_entry::<String>(acc6, "registered"@, x.registered, "proExpire"@);
    lemma_lookup_then_skip_entry::<bool>(acc7, "password"@, x.password, "proExpire"@);
    lemma_lookup_then_skip_entry::<Vec<Group>>(acc8, "groups"@, x.groups, "proExpire"@);
    lemma_lookup_then_skip_entry::<String>(acc9, "avatar"@, x.avatar, "proExpire"@);
    lemma_lookup_then_skip_entry::<FilesInfo>(acc10, "files"@, x.files, "proExpire"@);
    lemma_lookup_then_skip_entry::<SocialConnection>(acc11, "facebook"@, x.facebook, "proExpire"@);
    lemma_lookup_then_skip_entry::<SocialConnection>(acc12, "twitter"@, x.twitter, "proExpire"@);
    lemma_lookup_then_skip_entry::<SocialConnection>(acc13, "vkontakte"@, x.vkontakte, "proExpire"@);
    lemma_lookup_then_skip_entry::<SocialConnection>(acc14, "google"@, x.google, "proExpire"@);
    lemma_lookup_then_skip_entry::<BackupConnection>(acc15, "dropbox"@, x.dropbox, "proExpire"@);
    lemma_lookup_then_skip_entry::<BackupConnection>(acc16, "gdrive"@, x.gdrive, "proExpire"@);
}

/// The `registered` member of an encoded `User`.
pub(crate) proof fn lemma_user_registered(x: User)
    ensures
        User::wire_of(x).field("registered"@) == Some(match x.registered { Some(y) => <String as Wire>::wire_of(y), None => JsonModel::Null }),
{
    reveal_strlit("registered");
    assert("registered"@.len() == 10);
    reveal_strlit("_id");
    assert("_id"@.len() == 3);
    reveal_strlit("email");
    assert("email"@.len() == 5);
    reveal_strlit("email_MD5");
    assert("email_MD5"@.len() == 9);
    reveal_strlit("fullName");
    assert("fullName"@.len() == 8);
    reveal_strlit("pro");
    assert("pro"@.len() == 3);
    reveal_strlit("proExpire");
    assert("proExpire"@.len() == 9);
    reveal_strlit("password");
    assert("password"@.len() == 8);
    reveal_strlit("groups");
    assert("groups"@.len() == 6);
    reveal_strlit("avatar");
    assert("avatar"@.len() == 6);
    reveal_strlit("files");
    assert("files"@.len() == 5);
    reveal_strlit("facebook");
    assert("facebook"@.len() == 8);
    reveal_strlit("twitter");
    assert("twitter"@.len() == 7);
    reveal_strlit("vkontakte");
    assert("vkontakte"@.len() == 9);
    reveal_strlit("google");
    assert("google"@.len() == 6);
    reveal_strlit("dropbox");
    assert("dropbox"@.len() == 7);
    reveal_strlit("gdrive");
    assert("gdrive"@.len() == 6);
    let acc0 = Seq::<(Seq<char>, JsonModel)>::empty();
    lemma_lookup_empty("registered"@);
    let acc1 = acc0 + entry::<i64>("_id"@, x.id);
    let acc2 = acc1 + opt_entry::<String>("email"@, x.email);
    let acc3 = acc2 + opt_entry::<String>("email_MD5"@, x.email_md5);
    let acc4 = acc3 + opt_entry::<String>("fullName"@, x.full_name);
    let acc5 = acc4 + entry::<bool>("pro"@, x.pro);
    let acc6 = acc5 + skip_entry::<String>("proExpire"@, x.pro_expire);
    let acc7 = acc6 + opt_entry::<String>("registered"@, x.registered);
    let acc8 = acc7 + skip_entry::<bool>("password"@, x.password);
    let acc9 = acc8 + skip_entry::<Vec<Group>>("groups"@, x.groups);
    let acc10 = acc9 + skip_entry::<String>("avatar"@, x.avatar);
    let acc11 = acc10 + skip_entry::<FilesInfo>("files"@, x.files);
    let acc12 = acc11 + skip_entry::<SocialConnection>("facebook"@, x.facebook);
    let acc13 = acc12 + skip_entry::<SocialConnection>("twitter"@, x.twitter);
    let acc14 = acc13 + skip_entry::<SocialConnection>("vkontakte"@, x.vkontakte);
    let acc15 = acc14 + skip_entry::<SocialConnection>("google"@, x.google);
    let acc16 = acc15 + skip_entry::<BackupConnection>("dropbox"@, x.dropbox);
    let acc17 = acc16 + skip_entry::<BackupConnection>("gdrive"@, x.gdrive);
    lemma_lookup_then_entry::<i64>(acc0, "_id"@, x.id, "registered"@);
    lemma_lookup_then_opt_entry::<String>(acc1, "email"@, x.email, "registered"@);
    lemma_lookup_then_opt_entry::<String>(acc2, "email_MD5"@, x.email_md5, "registered"@);
    lemma_lookup_then_opt_entry::<String>(acc3, "fullName"@, x.full_name, "registered"@);
    lemma_lookup_then_entry::<bool>(acc4, "pro"@, x.pro, "registered"@);
    lemma_lookup_then_skip_entry::<String>(acc5, "proExpire"@, x.pro_expire, "registered"@);
    lemma_lookup_then_opt_entry::<String>(acc6, "registered"@, x.registered, "registered"@);
    lemma_lookup_then_skip_entry::<bool>(acc7, "password"@, x.password, "registered"@);
    lemma_lookup_then_skip_entry::<Vec<Group>>(acc8, "groups"@, x.groups, "registered"@);
    lemma_lookup_then_skip_entry::<String>(acc9, "avatar"@, x.avatar, "registered"@);
    lemma_lookup_then_skip_entry::<FilesInfo>(acc10, "files"@, x.files, "registered"@);
    lemma_lookup_then_skip_entry::<SocialConnection>(acc11, "facebook"@, x.facebook, "registered"@);
    lemma_lookup_then_skip_entry::<SocialConnection>(acc12, "twitter"@, x.twitter, "registered"@);
    lemma_lookup_then_skip_entry::<SocialConnection>(acc13, "vkontakte"@, x.vkontakte, "registered"@);
    lemma_lookup_then_skip_entry::<SocialConnection>(acc14, "google"@, x.google, "registered"@);
    lemma_lookup_then_skip_entry::<BackupConnection>(acc15, "dropbox"@, x.dropbox, "registered"@);
    lemma_lookup_then_skip_entry::<BackupConnection>(acc16, "gdrive"@, x.gdrive, "registered"@);
}

/// The `password` member of an encoded `User`.
pub(crate) proof fn lemma_user_password(x: User)
    ensures
        User::wire_of(x).field("password"@) == match x.password { Some(y) => Some(<bool as Wire>::wire_of(y)), None => None },
{
    reveal_strlit("password");
    assert("password"@.len() == 8);
    reveal_strlit("_id");
    assert("_id"@.len() == 3);
    reveal_strlit("email");
    assert("email"@.len() == 5);
    reveal_strlit("email_MD5");
    assert("email_MD5"@.len() == 9);
    reveal_strlit("fullName");
    assert("fullName"@[0] != "password"@[0]);
    reveal_strlit("pro");
    assert("pro"@.len() == 3);
    reveal_strlit("proExpire");
    assert("proExpire"@.len() == 9);
    reveal_strlit("registered");
    assert("registered"@.len() == 10);
    reveal_strlit("groups");
    assert("groups"@.len() == 6);
    reveal_strlit("avatar");
    assert("avatar"@.len() == 6);
    reveal_strlit("files");
    assert("files"@.len() == 5);
    reveal_strlit("facebook");
    assert("facebook"@[0] != "password"@[0]);
    reveal_strlit("twitter");
    assert("twitter"@.len() == 7);
    reveal_strlit("vkontakte");
    assert("vkontakte"@.len() == 9);
    reveal_strlit("google");
    assert("google"@.len() == 6);
    reveal_strlit("dropbox");
    assert("dropbox"@.len() == 7);
    reveal_strlit("gdrive");
    assert("gdrive"@.len() == 6);
    let acc0 = Seq::<(Seq<char>, JsonModel)>::empty();
    lemma_lookup_empty("password"@);
    let acc1 = acc0 + entry::<i64>("_id"@, x.id);
    let acc2 = acc1 + opt_entry::<String>("email"@, x.email);
    let acc3 = acc2 + opt_entry::<String>("email_MD5"@, x.email_md5);
    let acc4 = acc3 + opt_entry::<String>("fullName"@, x.full_name);
    let acc5 = acc4 + entry::<bool>("pro"@, x.pro);
    let acc6 = acc5 + skip_entry::<String>("proExpire"@, x.pro_expire);
    let acc7 = acc6 + opt_entry::<String>("registered"@, x.registered);
    let acc8 = acc7 + skip_entry::<bool>("password"@, x.password);
    let acc9 = acc8 + skip_entry::<Vec<Group>>("groups"@, x.groups);
    let acc10 = acc9 + skip_entry::<String>("avatar"@, x.avatar);
    let acc11 = acc10 + skip_entry::<FilesInfo>("files"@, x.files);
    let acc12 = acc11 + skip_entry::<SocialConnection>("facebook"@, x.facebook);
    let acc13 = acc12 + skip_entry::<SocialConnection>("twitter"@, x.twitter);
    let acc14 = acc13 + skip_entry::<SocialConnection>("vkontakte"@, x.vkontakte);
    let acc15 = acc14 + skip_entry::<SocialConnection>("google"@, x.google);
    let acc16 = acc15 + skip_entry::<BackupConnection>("dropbox"@, x.dropbox);
    let acc17 = acc16 + skip_entry::<BackupConnection>("gdrive"@, x.gdrive);
    lemma_lookup_then_entry::<i64>(acc0, "_id"@, x.id, "password"@);
    lemma_lookup_then_opt_entry::<String>(acc1, "email"@, x.email, "password"@);
    lemma_lookup_then_opt_entry::<String>(acc2, "email_MD5"@, x.email_md5, "password"@);
    lemma_lookup_then_opt_entry::<String>(acc3, "fullName"@, x.full_name, "password"@);
    lemma_lookup_then_entry::<bool>(acc4, "pro"@, x.pro, "password"@);
    lemma_lookup_then_skip_entry::<String>(acc5, "proExpire"@, x.pro_expire, "password"@);
    lemma_lookup_then_opt_entry::<String>(acc6, "registered"@, x.registered, "password"@);
    lemma_lookup_then_skip_entry::<bool>(acc7, "password"@, x.password, "password"@);
    lemma_lookup_then_skip_entry::<Vec<Group>>(acc8, "groups"@, x.groups, "password"@);
    lemma_lookup_then_skip_entry::<String>(acc9, "avatar"@, x.avatar, "password"@);
    lemma_lookup_then_skip_entry::<FilesInfo>(acc10, "files"@, x.files, "password"@);
    lemma_lookup_then_skip_entry::<SocialConnection>(acc11, "facebook"@, x.facebook, "password"@);
    lemma_lookup_then_skip_entry::<SocialConnection>(acc12, "twitter"@, x.twitter, "password"@);
    lemma_lookup_then_skip_entry::<SocialConnection>(acc13, "vkontakte"@, x.vkontakte, "password"@);
    lemma_lookup_then_skip_entry::<SocialConnection>(acc14, "google"@, x.google, "password"@);
    lemma_lookup_then_skip_entry::<BackupConnection>(acc15, "dropbox"@, x.dropbox, "password"@);
    lemma_lookup_then_skip_entry::<BackupConnection>(acc16, "gdrive"@, x.gdrive, "password"@);
}

/// The `groups` member of an encoded `User`.
pub(crate) proof fn lemma_user_groups(x: User)
    ensures
        User::wire_of(x).field("groups"@) == match x.groups { Some(y) => Some(<Vec<Group> as Wire>::wire_of(y)), None => None },
{
    reveal_strlit("groups");
    assert("groups"@.len() == 6);
    reveal_strlit("_id");
    assert("_id"@.len() == 3);
    reveal_strlit("email");
    assert("email"@.len() == 5);
    reveal_strlit("email_MD5");
    assert("email_MD5"@.len() == 9);
    reveal_strlit("fullName");
    assert("fullName"@.len() == 8);
    reveal_strlit("pro");
    assert("pro"@.len() == 3);
    reveal_strlit("proExpire");
    assert("proExpire"@.len() == 9);
    reveal_strlit("registered");
    assert("registered"@.len() == 10);
    reveal_strlit("password");
    assert("password"@.len() == 8);
    reveal_strlit("avatar");
    assert("avatar"@[0] != "groups"@[0]);
    reveal_strlit("files");
    assert("files"@.len() == 5);
    reveal_strlit("facebook");
    assert("facebook"@.len() == 8);
    reveal_strlit("twitter");
    assert("twitter"@.len() == 7);
    reveal_strlit("vkontakte");
    assert("vkontakte"@.len() == 9);
    reveal_strlit("google");
    assert("google"@[1] != "groups"@[1]);
    reveal_strlit("dropbox");
    assert("dropbox"@.len() == 7);
    reveal_strlit("gdrive");
    assert("gdrive"@[1] != "groups"@[1]);
    let acc0 = Seq::<(Seq<char>, JsonModel)>::empty();
    lemma_lookup_empty("groups"@);
    let acc1 = acc0 + entry::<i64>("_id"@, x.id);
    let acc2 = acc1 + opt_entry::<String>("email"@, x.email);
    let acc3 = acc2 + opt_entry::<String>("email_MD5"@, x.email_md5);
    let acc4 = acc3 + opt_entry::<String>("fullName"@, x.full_name);
    let acc5 = acc4 + entry::<bool>("pro"@, x.pro);
    let acc6 = acc5 + skip_entry::<String>("proExpire"@, x.pro_expire);
    let acc7 = acc6 + opt_entry::<String>("registered"@, x.registered);
    let acc8 = acc7 + skip_entry::<bool>("password"@, x.password);
    let acc9 = acc8 + skip_entry::<Vec<Group>>("groups"@, x.groups);
    let acc10 = acc9 + skip_entry::<String>("avatar"@, x.avatar);
    let acc11 = acc10 + skip_entry::<FilesInfo>("files"@, x.files);
    let acc12 = acc11 + skip_entry::<SocialConnection>("facebook"@, x.facebook);
    let acc13 = acc12 + skip_entry::<SocialConnection>("twitter"@, x.twitter);
    let acc14 = acc13 + skip_entry::<SocialConnection>("vkontakte"@, x.vkontakte);
    let acc15 = acc14 + skip_entry::<SocialConnection>("google"@, x.google);
    let acc16 = acc15 + skip_entry::<BackupConnection>("dropbox"@, x.dropbox);
    let acc17 = acc16 + skip_entry::<BackupConnection>("gdrive"@, x.gdrive);
    lemma_lookup_then_entry::<i64>(acc0, "_id"@, x.id, "groups"@);
    lemma_lookup_then_opt_entry::<String>(acc1, "email"@, x.email, "groups"@);
    lemma_lookup_then_opt_entry::<String>(acc2, "email_MD5"@, x.email_md5, "groups"@);
    lemma_lookup_then_opt_entry::<String>(acc3, "fullName"@, x.full_name, "groups"@);
    lemma_lookup_then_entry::<bool>(acc4, "pro"@, x.pro, "groups"@);
    lemma_lookup_then_skip_entry::<String>(acc5, "proExpire"@, x.pro_expire, "groups"@);
    lemma_lookup_then_opt_entry::<String>(acc6, "registered"@, x.registered, "groups"@);
    lemma_lookup_then_skip_entry::<bool>(acc7, "password"@, x.password, "groups"@);
    lemma_lookup_then_skip_entry::<Vec<Group>>(acc8, "groups"@, x.groups, "groups"@);
    lemma_lookup_then_skip_entry::<String>(acc9, "avatar"@, x.avatar, "groups"@);
    lemma_lookup_then_skip_entry::<FilesInfo>(acc10, "files"@, x.files, "groups"@);
    lemma_lookup_then_skip_entry::<SocialConnection>(acc11, "facebook"@, x.facebook, "groups"@);
    lemma_lookup_then_skip_entry::<SocialConnection>(acc12, "twitter"@, x.twitter, "groups"@);
    lemma_lookup_then_skip_entry::<SocialConnection>(acc13, "vkontakte"@, x.vkontakte, "groups"@);
    lemma_lookup_then_skip_entry::<SocialConnection>(acc14, "google"@, x.google, "groups"@);
    lemma_lookup_then_skip_entry::<BackupConnection>(acc15, "dropbox"@, x.dropbox, "groups"@);
    lemma_lookup_then_skip_entry::<BackupConnection>(acc16, "gdrive"@, x.gdrive, "groups"@);
}

/// The `avatar` member of an encoded `User`.
pub(crate) proof fn lemma_user_avatar(x: User)
    ensures
        User::wire_of(x).field("avatar"@) == match x.avatar { Some(y) => Some(<String as Wire>::wire_of(y)), None => None },
{
    reveal_strlit("avatar");
    assert("avatar"@.len() == 6);
    reveal_strlit("_id");
    assert("_id"@.len() == 3);
    reveal_strlit("email");
    assert("email"@.len() == 5);
    reveal_strlit("email_MD5");
    assert("email_MD5"@.len() == 9);
    reveal_strlit("fullName");
    assert("fullName"@.len() == 8);
    reveal_strlit("pro");
    assert("pro"@.len() == 3);
    reveal_strlit("proExpire");
    assert("proExpire"@.len() == 9);
    reveal_strlit("registered");
    assert("registered"@.len() == 10);
    reveal_strlit("password");
    assert("password"@.len() == 8);
    reveal_strlit("groups");
    assert("groups"@[0] != "avatar"@[0]);
    reveal_strlit("files");
    assert("files"@.len() == 5);
    reveal_strlit("facebook");
    assert("facebook"@.len() == 8);
    reveal_strlit("twitter");
    assert("twitter"@.len() == 7);
    reveal_strlit("vkontakte");
    assert("vkontakte"@.len() == 9);
    reveal_strlit("google");
    assert("google"@[0] != "avatar"@[0]);
    reveal_strlit("dropbox");
    assert("dropbox"@.len() == 7);
    reveal_strlit("gdrive");
    assert("gdrive"@[0] != "avatar"@[0]);
    let acc0 = Seq::<(Seq<char>, JsonModel)>::empty();
    lemma_lookup_empty("avatar"@);
    let acc1 = acc0 + entry::<i64>("_id"@, x.id);
    let acc2 = acc1 + opt_entry::<String>("email"@, x.email);
    let acc3 = acc2 + opt_entry::<String>("email_MD5"@, x.email_md5);
    let acc4 = acc3 + opt_entry::<String>("fullName"@, x.full_name);
    let acc5 = acc4 + entry::<bool>("pro"@, x.pro);
    let acc6 = acc5 + skip_entry::<String>("proExpire"@, x.pro_expire);
    let acc7 = acc6 + opt_entry::<String>("registered"@, x.registered);
    let acc8 = acc7 + skip_entry::<bool>("password"@, x.password);
    let acc9 = acc8 + skip_entry::<Vec<Group>>("groups"@, x.groups);
    let acc10 = acc9 + skip_entry::<String>("avatar"@, x.avatar);
    let acc11 = acc10 + skip_entry::<FilesInfo>("files"@, x.files);
    let acc12 = acc11 + skip_entry::<SocialConnection>("facebook"@, x.facebook);
    let acc13 = acc12 + skip_entry::<SocialConnection>("twitter"@, x.twitter);
    let acc14 = acc13 + skip_entry::<SocialConnection>("vkontakte"@, x.vkontakte);
    let acc15 = acc14 + skip_entry::<SocialConnection>("google"@, x.google);
    let acc16 = acc15 + skip_entry::<BackupConnection>("dropbox"@, x.dropbox);
    let acc17 = acc16 + skip_entry::<BackupConnection>("gdrive"@, x.gdrive);
    lemma_lookup_then_entry::<i64>(acc0, "_id"@, x.id, "avatar"@);
    lemma_lookup_then_opt_entry::<String>(acc1, "email"@, x.email, "avatar"@);
    lemma_lookup_then_opt_entry::<String>(acc2, "email_MD5"@, x.email_md5, "avatar"@);
    lemma_lookup_then_opt_entry::<String>(acc3, "fullName"@, x.full_name, "avatar"@);
    lemma_lookup_then_entry::<bool>(acc4, "pro"@, x.pro, "avatar"@);
    lemma_lookup_then_skip_entry::<String>(acc5, "proExpire"@, x.pro_expire, "avatar"@);
    lemma_lookup_then_opt_entry::<String>(acc6, "registered"@, x.registered, "avatar"@);
    lemma_lookup_then_skip_entry::<bool>(acc7, "password"@, x.password, "avatar"@);
    lemma_lookup_then_skip_entry::<Vec<Group>>(acc8, "groups"@, x.groups, "avatar"@);
    lemma_lookup_then_skip_entry::<String>(acc9, "avatar"@, x.avatar, "avatar"@);
    lemma_lookup_then_skip_entry::<FilesInfo>(acc10, "files"@, x.files, "avatar"@);
    lemma_lookup_then_skip_entry::<SocialConnection>(acc11, "facebook"@, x.facebook, "avatar"@);
    lemma_lookup_then_skip_entry::<SocialConnection>(acc12, "twitter"@, x.twitter, "avatar"@);
    lemma_lookup_then_skip_entry::<SocialConnection>(acc13, "vkontakte"@, x.vkontakte, "avatar"@);
    lemma_lookup_then_skip_entry::<SocialConnection>(acc14, "google"@, x.google, "avatar"@);
    lemma_lookup_then_skip_entry::<BackupConnection>(acc15, "dropbox"@, x.dropbox, "avatar"@);
    lemma_lookup_then_skip_entry::<BackupConnection>(acc16, "gdrive"@, x.gdrive, "avatar"@);
}

/// The `files` member of an encoded `User`.
pub(crate) proof fn lemma_user_files(x: User)
    ensures
        User::wire_of(x).field("files"@) == match x.files { Some(y) => Some(<FilesInfo as Wire>::wire_of(y)), None => None },
{
    reveal_strlit("files");
    assert("files"@.len() == 5);
    reveal_strlit("_id");
    assert("_id"@.len() == 3);
    reveal_strlit("email");
    assert("email"@[0] != "files"@[0]);
    reveal_strlit("email_MD5");
    assert("email_MD5"@.len() == 9);
    reveal_strlit("fullName");
    assert("fullName"@.len() == 8);
    reveal_strlit("pro");
    assert("pro"@.len() == 3);
    reveal_strlit("proExpire");
    assert("proExpire"@.len() == 9);
    reveal_strlit("registered");
    assert("registered"@.len() == 10);
    reveal_strlit("password");
    assert("password"@.len() == 8);
    reveal_strlit("groups");
    assert("groups"@.len() == 6);
    reveal_strlit("avatar");
    assert("avatar"@.len() == 6);
    reveal_strlit("facebook");
    assert("facebook"@.len() == 8);
    reveal_strlit("twitter");
    assert("twitter"@.len() == 7);
    reveal_strlit("vkontakte");
    assert("vkontakte"@.len() == 9);
    reveal_strlit("google");
    assert("google"@.len() == 6);
    reveal_strlit("dropbox");
    assert("dropbox"@.len() == 7);
    reveal_strlit("gdrive");
    assert("gdrive"@.len() == 6);
    let acc0 = Seq::<(Seq<char>, JsonModel)>::empty();
    lemma_lookup_empty("files"@);
    let acc1 = acc0 + entry::<i64>("_id"@, x.id);
    let acc2 = acc1 + opt_entry::<String>("email"@, x.email);
    let acc3 = acc2 + opt_entry::<String>("email_MD5"@, x.email_md5);
    let acc4 = acc3 + opt_entry::<String>("fullName"@, x.full_name);
    let acc5 = acc4 + entry::<bool>("pro"@, x.pro);
    let acc6 = acc5 + skip_entry::<String>("proExpire"@, x.pro_expire);
    let acc7 = acc6 + opt_entry::<String>("registered"@, x.registered);
    let acc8 = acc7 + skip_entry::<bool>("password"@, x.password);
    let acc9 = acc8 + skip_entry::<Vec<Group>>("groups"@, x.groups);
    let acc10 = acc9 + skip_entry::<String>("avatar"@, x.avatar);
    let acc11 = acc10 + skip_entry::<FilesInfo>("files"@, x.files);
    let acc12 = acc11 + skip_entry::<SocialConnection>("facebook"@, x.facebook);
    let acc13 = acc12 + skip_entry::<SocialConnection>("twitter"@, x.twitter);
    let acc14 = acc13 + skip_entry::<SocialConnection>("vkontakte"@, x.vkontakte);
    let acc15 = acc14 + skip_entry::<SocialConnection>("google"@, x.google);
    let acc16 = acc15 + skip_entry::<BackupConnection>("dropbox"@, x.dropbox);
    let acc17 = acc16 + skip_entry::<BackupConnection>("gdrive"@, x.gdrive);
    lemma_lookup_then_entry::<i64>(acc0, "_id"@, x.id, "files"@);
    lemma_lookup_then_opt_entry::<String>(acc1, "email"@, x.email, "files"@);
    lemma_lookup_then_opt_entry::<String>(acc2, "email_MD5"@, x.email_md5, "files"@);
    lemma_lookup_then_opt_entry::<String>(acc3, "fullName"@, x.full_name, "files"@);
    lemma_lookup_then_entry::<bool>(acc4, "pro"@, x.pro, "files"@);
    lemma_lookup_then_skip_entry::<String>(acc5, "proExpire"@, x.pro_expire, "files"@);
    lemma_lookup_then_opt_entry::<String>(acc6, "registered"@, x.registered, "files"@);
    lemma_lookup_then_skip_entry::<bool>(acc7, "password"@, x.password, "files"@);
    lemma_lookup_then_skip_entry::<Vec<Group>>(acc8, "groups"@, x.groups, "files"@);
    lemma_lookup_then_skip_entry::<String>(acc9, "avatar"@, x.avatar, "files"@);
    lemma_lookup_then_skip_entry::<FilesInfo>(acc10, "files"@, x.files, "files"@);
    lemma_lookup_then_skip_entry::<SocialConnection>(acc11, "facebook"@, x.facebook, "files"@);
    lemma_lookup_then_skip_entry::<SocialConnection>(acc12, "twitter"@, x.twitter, "files"@);
    lemma_lookup_then_skip_entry::<SocialConnection>(acc13, "vkontakte"@, x.vkontakte, "files"@);
    lemma_lookup_then_skip_entry::<SocialConnection>(acc14, "google"@, x.google, "files"@);
    lemma_lookup_then_skip_entry::<BackupConnection>(acc15, "dropbox"@, x.dropbox, "files"@);
    lemma_lookup_then_skip_entry::<BackupConnection>(acc16, "gdrive"@, x.gdrive, "files"@);
}

/// The `facebook` member of an encoded `User`.
pub(crate) proof fn lemma_user_facebook(x: User)
    ensures
        User::wire_of(x).field("facebook"@) == match x.facebook { Some(y) => Some(<SocialConnection as Wire>::wire_of(y)), None => None },
{
    reveal_strlit("facebook");
    assert("facebook"@.len() == 8);
    reveal_strlit("_id");
    assert("_id"@.len() == 3);
    reveal_strlit("email");
    assert("email"@.len() == 5);
    reveal_strlit("email_MD5");
    assert("email_MD5"@.len() == 9);
    reveal_strlit("fullName");
    assert("fullName"@[1] != "facebook"@[1]);
    reveal_strlit("pro");
    assert("pro"@.len() == 3);
    reveal_strlit("proExpire");
    assert("proExpire"@.len() == 9);
    reveal_strlit("registered");
    assert("registered"@.len() == 10);
    reveal_strlit("password");
    assert("password"@[0] != "facebook"@[0]);
    reveal_strlit("groups");
    assert("groups"@.len() == 6);
    reveal_strlit("avatar");
    assert("avatar"@.len() == 6);
    reveal_strlit("files");
    assert("files"@.len() == 5);
    reveal_strlit("twitter");
    assert("twitter"@.len() == 7);
    reveal_strlit("vkontakte");
    assert("vkontakte"@.len() == 9);
    reveal_strlit("google");
    assert("google"@.len() == 6);
    reveal_strlit("dropbox");
    assert("dropbox"@.len() == 7);
    reveal_strlit("gdrive");
    assert("gdrive"@.len() == 6);
    let acc0 = Seq::<(Seq<char>, JsonModel)>::empty();
    lemma_lookup_empty("facebook"@);
    let acc1 = acc0 + entry::<i64>("_id"@, x.id);
    let acc2 = acc1 + opt_entry::<String>("email"@, x.email);
    let acc3 = acc2 + opt_entry::<String>("email_MD5"@, x.email_md5);
    let acc4 = acc3 + opt_entry::<String>("fullName"@, x.full_name);
    let acc5 = acc4 + entry::<bool>("pro"@, x.pro);
    let acc6 = acc5 + skip_entry::<String>("proExpire"@, x.pro_expire);
    let acc7 = acc6 + opt_entry::<String>("registered"@, x.registered);
    let acc8 = acc7 + skip_entry::<bool>("password"@, x.password);
    let acc9 = acc8 + skip_entry::<Vec<Group>>("groups"@, x.groups);
    let acc10 = acc9 + skip_entry::<String>("avatar"@, x.avatar);
    let acc11 = acc10 + skip_entry::<FilesInfo>("files"@, x.files);
    let acc12 = acc11 + skip_entry::<SocialConnection>("facebook"@, x.facebook);
    let acc13 = acc12 + skip_entry::<SocialConnection>("twitter"@, x.twitter);
    let acc14 = acc13 + skip_entry::<SocialConnection>("vkontakte"@, x.vkontakte);
    let acc15 = acc14 + skip_entry::<SocialConnection>("google"@, x.google);
    let acc16 = acc15 + skip_entry::<BackupConnection>("dropbox"@, x.dropbox);
    let acc17 = acc16 + skip_entry::<BackupConnection>("gdrive"@, x.gdrive);
    lemma_lookup_then_entry::<i64>(acc0, "_id"@, x.id, "facebook"@);
    lemma_lookup_then_opt_entry::<String>(acc1, "email"@, x.email, "facebook"@);
    lemma_lookup_then_opt_entry::<String>(acc2, "email_MD5"@, x.email_md5, "facebook"@);
    lemma_lookup_then_opt_entry::<String>(acc3, "fullName"@, x.full_name, "facebook"@);
    lemma_lookup_then_entry::<bool>(acc4, "pro"@, x.pro, "facebook"@);
    lemma_lookup_then_skip_entry::<String>(acc5, "proExpire"@, x.pro_expire, "facebook"@);
    lemma_lookup_then_opt_entry::<String>(acc6, "registered"@, x.registered, "facebook"@);
    lemma_lookup_then_skip_entry::<bool>(acc7, "password"@, x.password, "facebook"@);
    lemma_lookup_then_skip_entry::<Vec<Group>>(acc8, "groups"@, x.groups, "facebook"@);
    lemma_lookup_then_skip_entry::<String>(acc9, "avatar"@, x.avatar, "facebook"@);
    lemma_lookup_then_skip_entry::<FilesInfo>(acc10, "files"@, x.files, "facebook"@);
    lemma_lookup_then_skip_entry::<SocialConnection>(acc11, "facebook"@, x.facebook, "facebook"@);
    lemma_lookup_then_skip_entry::<SocialConnection>(acc12, "twitter"@, x.twitter, "facebook"@);
    lemma_lookup_then_skip_entry::<SocialConnection>(acc13, "vkontakte"@, x.vkontakte, "facebook"@);
    lemma_lookup_then_skip_entry::<SocialConnection>(acc14, "google"@, x.google, "facebook"@);
    lemma_lookup_then_skip_entry::<BackupConnection>(acc15, "dropbox"@, x.dropbox, "facebook"@);
    lemma_lookup_then_skip_entry::<BackupConnection>(acc16, "gdrive"@, x.gdrive, "facebook"@);
}

/// The `twitter` member of an encoded `User`.
pub(crate) proof fn lemma_user_twitter(x: User)
    ensures
        User::wire_of(x).field("twitter"@) == match x.twitter { Some(y) => Some(<SocialConnection as Wire>::wire_of(y)), None => None },
{
    reveal_strlit("twitter");
    assert("twitter"@.len() == 7);
    reveal_strlit("_id");
    assert("_id"@.len() == 3);
    reveal_strlit("email");
    assert("email"@.len() == 5);
    reveal_strlit("email_MD5");
    assert("email_MD5"@.len() == 9);
    reveal_strlit("fullName");
    assert("fullName"@.len() == 8);
    reveal_strlit("pro");
    assert("pro"@.len() == 3);
    reveal_strlit("proExpire");
    assert("proExpire"@.len() == 9);
    reveal_strlit("registered");
    assert("registered"@.len() == 10);
    reveal_strlit("password");
    assert("password"@.len() == 8);
    reveal_strlit("groups");
    assert("groups"@.len() == 6);
    reveal_strlit("avatar");
    assert("avatar"@.len() == 6);
    reveal_strlit("files");
    assert("files"@.len() == 5);
    reveal_strlit("facebook");
    assert("facebook"@.len() == 8);
    reveal_strlit("vkontakte");
    assert("vkontakte"@.len() == 9);
    reveal_strlit("google");
    assert("google"@.len() == 6);
    reveal_strlit("dropbox");
    assert("dropbox"@[0] != "twitter"@[0]);
    reveal_strlit("gdrive");
    assert("gdrive"@.len() == 6);
    let acc0 = Seq::<(Seq<char>, JsonModel)>::empty();
    lemma_lookup_empty("twitter"@);
    let acc1 = acc0 + entry::<i64>("_id"@, x.id);
    let acc2 = acc1 + opt_entry::<String>("email"@, x.email);
    let acc3 = acc2 + opt_entry::<String>("email_MD5"@, x.email_md5);
    let acc4 = acc3 + opt_entry::<String>("fullName"@, x.full_name);
    let acc5 = acc4 + entry::<bool>("pro"@, x.pro);
    let acc6 = acc5 + skip_entry::<String>("proExpire"@, x.pro_expire);
    let acc7 = acc6 + opt_entry::<String>("registered"@, x.registered);
    let acc8 = acc7 + skip_entry::<bool>("password"@, x.password);
    let acc9 = acc8 + skip_entry::<Vec<Group>>("groups"@, x.groups);
    let acc10 = acc9 + skip_entry::<String>("avatar"@, x.avatar);
    let acc11 = acc10 + skip_entry::<FilesInfo>("files"@, x.files);
    let acc12 = acc11 + skip_entry::<SocialConnection>("facebook"@, x.facebook);
    let acc13 = acc12 + skip_entry::<SocialConnection>("twitter"@, x.twitter);
    let acc14 = acc13 + skip_entry::<SocialConnection>("vkontakte"@, x.vkontakte);
    let acc15 = acc14 + skip_entry::<SocialConnection>("google"@, x.google);
    let acc16 = acc15 + skip_entry::<BackupConnection>("dropbox"@, x.dropbox);
    let acc17 = acc16 + skip_entry::<BackupConnection>("gdrive"@, x.gdrive);
    lemma_lookup_then_entry::<i64>(acc0, "_id"@, x.id, "twitter"@);
    lemma_lookup_then_opt_entry::<String>(acc1, "email"@, x.email, "twitter"@);
    lemma_lookup_then_opt_entry::<String>(acc2, "email_MD5"@, x.email_md5, "twitter"@);
    lemma_lookup_then_opt_entry::<String>(acc3, "fullName"@, x.full_name, "twitter"@);
    lemma_lookup_then_entry::<bool>(acc4, "pro"@, x.pro, "twitter"@);
    lemma_lookup_then_skip_entry::<String>(acc5, "proExpire"@, x.pro_expire, "twitter"@);
    lemma_lookup_then_opt_entry::<String>(acc6, "registered"@, x.registered, "twitter"@);
    lemma_lookup_then_skip_entry::<bool>(acc7, "password"@, x.password, "twitter"@);
    lemma_lookup_then_skip_entry::<Vec<Group>>(acc8, "groups"@, x.groups, "twitter"@);
    lemma_lookup_then_skip_entry::<String>(acc9, "avatar"@, x.avatar, "twitter"@);
    lemma_lookup_then_skip_entry::<FilesInfo>(acc10, "files"@, x.files, "twitter"@);
    lemma_lookup_then_skip_entry::<SocialConnection>(acc11, "facebook"@, x.facebook, "twitter"@);
    lemma_lookup_then_skip_entry::<SocialConnection>(acc12, "twitter"@, x.twitter, "twitter"@);
    lemma_lookup_then_skip_entry::<SocialConnection>(acc13, "vkontakte"@, x.vkontakte, "twitter"@);
    lemma_lookup_then_skip_entry::<SocialConnection>(acc14, "google"@, x.google, "twitter"@);
    lemma_lookup_then_skip_entry::<BackupConnection>(acc15, "dropbox"@, x.dropbox, "twitter"@);
    lemma_lookup_then_skip_entry::<BackupConnection>(acc16, "gdrive"@, x.gdrive, "twitter"@);
}

/// The `vkontakte` member of an encoded `User`.
pub(crate) proof fn lemma_user_vkontakte(x: User)
    ensures
        User::wire_of(x).field("vkontakte"@) == match x.vkontakte { Some(y) => Some(<SocialConnection as Wire>::wire_of(y)), None => None },
{
    reveal_strlit("vkontakte");
    assert("vkontakte"@.len() == 9);
    reveal_strlit("_id");
    assert("_id"@.len() == 3);
    reveal_strlit("email");
    assert("email"@.len() == 5);
    reveal_strlit("email_MD5");
    assert("email_MD5"@[0] != "vkontakte"@[0]);
    reveal_strlit("fullName");
    assert("fullName"@.len() == 8);
    reveal_strlit("pro");
    assert("pro"@.len() == 3);
    reveal_strlit("proExpire");
    assert("proExpire"@[0] != "vkontakte"@[0]);
    reveal_strlit("registered");
    assert("registered"@.len() == 10);
    reveal_strlit("password");
    assert("password"@.len() == 8);
    reveal_strlit("groups");
    assert("groups"@.len() == 6);
    reveal_strlit("avatar");
    assert("avatar"@.len() == 6);
    reveal_strlit("files");
    assert("files"@.len() == 5);
    reveal_strlit("facebook");
    assert("facebook"@.len() == 8);
    reveal_strlit("twitter");
    assert("twitter"@.len() == 7);
    reveal_strlit("google");
    assert("google"@.len() == 6);
    reveal_strlit("dropbox");
    assert("dropbox"@.len() == 7);
    reveal_strlit("gdrive");
    assert("gdrive"@.len() == 6);
    let acc0 = Seq::<(Seq<char>, JsonModel)>::empty();
    lemma_lookup_empty("vkontakte"@);
    let acc1 = acc0 + entry::<i64>("_id"@, x.id);
    let acc2 = acc1 + opt_entry::<String>("email"@, x.email);
    let acc3 = acc2 + opt_entry::<String>("email_MD5"@, x.email_md5);
    let acc4 = acc3 + opt_entry::<String>("fullName"@, x.full_name);
    let acc5 = acc4 + entry::<bool>("pro"@, x.pro);
    let acc6 = acc5 + skip_entry::<String>("proExpire"@, x.pro_expire);
    let acc7 = acc6 + opt_entry::<String>("registered"@, x.registered);
    let acc8 = acc7 + skip_entry::<bool>("password"@, x.password);
    let acc9 = acc8 + skip_entry::<Vec<Group>>("groups"@, x.groups);
    let acc10 = acc9 + skip_entry::<String>("avatar"@, x.avatar);
    let acc11 = acc10 + skip_entry::<FilesInfo>("files"@, x.files);
    let acc12 = acc11 + skip_entry::<SocialConnection>("facebook"@, x.facebook);
    let acc13 = acc12 + skip_entry::<SocialConnection>("twitter"@, x.twitter);
    let acc14 = acc13 + skip_entry::<SocialConnection>("vkontakte"@, x.vkontakte);
    let acc15 = acc14 + skip_entry::<SocialConnection>("google"@, x.google);
    let acc16 = acc15 + skip_entry::<BackupConnection>("dropbox"@, x.dropbox);
    let acc17 = acc16 + skip_entry::<BackupConnection>("gdrive"@, x.gdrive);
    lemma_lookup_then_entry::<i64>(acc0, "_id"@, x.id, "vkontakte"@);
    lemma_lookup_then_opt_entry::<String>(acc1, "email"@, x.email, "vkontakte"@);
    lemma_lookup_then_opt_entry::<String>(acc2, "email_MD5"@, x.email_md5, "vkontakte"@);
    lemma_lookup_then_opt_entry::<String>(acc3, "fullName"@, x.full_name, "vkontakte"@);
    lemma_lookup_then_entry::<bool>(acc4, "pro"@, x.pro, "vkontakte"@);
    lemma_lookup_then_skip_entry::<String>(acc5, "proExpire"@, x.pro_expire, "vkontakte"@);
    lemma_lookup_then_opt_entry::<String>(acc6, "registered"@, x.registered, "vkontakte"@);
    lemma_lookup_then_skip_entry::<bool>(acc7, "password"@, x.password, "vkontakte"@);
    lemma_lookup_then_skip_entry::<Vec<Group>>(acc8, "groups"@, x.groups, "vkontakte"@);
    lemma_lookup_then_skip_entry::<String>(acc9, "avatar"@, x.avatar, "vkontakte"@);
    lemma_lookup_then_skip_entry::<FilesInfo>(acc10, "files"@, x.files, "vkontakte"@);
    lemma_lookup_then_skip_entry::<SocialConnection>(acc11, "facebook"@, x.facebook, "vkontakte"@);
    lemma_lookup_then_skip_entry::<SocialConnection>(acc12, "twitter"@, x.twitter, "vkontakte"@);
    lemma_lookup_then_skip_entry::<SocialConnection>(acc13, "vkontakte"@, x.vkontakte, "vkontakte"@);
    lemma_lookup_then_skip_entry::<SocialConnection>(acc14, "google"@, x.google, "vkontakte"@);
    lemma_lookup_then_skip_entry::<BackupConnection>(acc15, "dropbox"@, x.dropbox, "vkontakte"@);
    lemma_lookup_then_skip_entry::<BackupConnection>(acc16, "gdrive"@, x.gdrive, "vkontakte"@);
}

/// The `google` member of an encoded `User`.
pub(crate) proof fn lemma_user_google(x: User)
    ensures
        User::wire_of(x).field("google"@) == match x.google { Some(y) => Some(<SocialConnection as Wire>::wire_of(y)), None => None },
{
    reveal_strlit("google");
    assert("google"@.len() == 6);
    reveal_strlit("_id");
    assert("_id"@.len() == 3);
    reveal_strlit("email");
    assert("email"@.len() == 5);
    reveal_strlit("email_MD5");
    assert("email_MD5"@.len() == 9);
    reveal_strlit("fullName");
    assert("fullName"@.len() == 8);
    reveal_strlit("pro");
    assert("pro"@.len() == 3);
    reveal_strlit("proExpire");
    assert("proExpire"@.len() == 9);
    reveal_strlit("registered");
    assert("registered"@.len() == 10);
    reveal_strlit("password");
    assert("password"@.len() == 8);
    reveal_strlit("groups");
    assert("groups"@[1] != "google"@[1]);
    reveal_strlit("avatar");
    assert("avatar"@[0] != "google"@[0]);
    reveal_strlit("files");
    assert("files"@.len() == 5);
    reveal_strlit("facebook");
    assert("facebook"@.len() == 8);
    reveal_strlit("twitter");
    assert("twitter"@.len() == 7);
    reveal_strlit("vkontakte");
    assert("vkontakte"@.len() == 9);
    reveal_strlit("dropbox");
    assert("dropbox"@.len() == 7);
    reveal_strlit("gdrive");
    assert("gdrive"@[1] != "google"@[1]);
    let acc0 = Seq::<(Seq<char>, JsonModel)>::empty();
    lemma_lookup_empty("google"@);
    let acc1 = acc0 + entry::<i64>("_id"@, x.id);
    let acc2 = acc1 + opt_entry::<String>("email"@, x.email);
    let acc3 = acc2 + opt_entry::<String>("email_MD5"@, x.email_md5);
    let acc4 = acc3 + opt_entry::<String>("fullName"@, x.full_name);
    let acc5 = acc4 + entry::<bool>("pro"@, x.pro);
    let acc6 = acc5 + skip_entry::<String>("proExpire"@, x.pro_expire);
    let acc7 = acc6 + opt_entry::<String>("registered"@, x.registered);
    let acc8 = acc7 + skip_entry::<bool>("password"@, x.password);
    let acc9 = acc8 + skip_entry::<Vec<Group>>("groups"@, x.groups);
    let acc10 = acc9 + skip_entry::<String>("avatar"@, x.avatar);
    let acc11 = acc10 + skip_entry::<FilesInfo>("files"@, x.files);
    let acc12 = acc11 + skip_entry::<SocialConnection>("facebook"@, x.facebook);
    let acc13 = acc12 + skip_entry::<SocialConnection>("twitter"@, x.twitter);
    let acc14 = acc13 + skip_entry::<SocialConnection>("vkontakte"@, x.vkontakte);
    let acc15 = acc14 + skip_entry::<SocialConnection>("google"@, x.google);
    let acc16 = acc15 + skip_entry::<BackupConnection>("dropbox"@, x.dropbox);
    let acc17 = acc16 + skip_entry::<BackupConnection>("gdrive"@, x.gdrive);
    lemma_lookup_then_entry::<i64>(acc0, "_id"@, x.id, "google"@);
    lemma_lookup_then_opt_entry::<String>(acc1, "email"@, x.email, "google"@);
    lemma_lookup_then_opt_entry::<String>(acc2, "email_MD5"@, x.email_md5, "google"@);
    lemma_lookup_then_opt_entry::<String>(acc3, "fullName"@, x.full_name, "google"@);
    lemma_lookup_then_entry::<bool>(acc4, "pro"@, x.pro, "google"@);
    lemma_lookup_then_skip_entry::<String>(acc5, "proExpire"@, x.pro_expire, "google"@);
    lemma_lookup_then_opt_entry::<String>(acc6, "registered"@, x.registered, "google"@);
    lemma_lookup_then_skip_entry::<bool>(acc7, "password"@, x.password, "google"@);
    lemma_lookup_then_skip_entry::<Vec<Group>>(acc8, "groups"@, x.groups, "google"@);
    lemma_lookup_then_skip_entry::<String>(acc9, "avatar"@, x.avatar, "google"@);
    lemma_lookup_then_skip_entry::<FilesInfo>(acc10, "files"@, x.files, "google"@);
    lemma_lookup_then_skip_entry::<SocialConnection>(acc11, "facebook"@, x.facebook, "google"@);
    lemma_lookup_then_skip_entry::<SocialConnection>(acc12, "twitter"@, x.twitter, "google"@);
    lemma_lookup_then_skip_entry::<SocialConnection>(acc13, "vkontakte"@, x.vkontakte, "google"@);
    lemma_lookup_then_skip_entry::<SocialConnection>(acc14, "google"@, x.google, "google"@);
    lemma_lookup_then_skip_entry::<BackupConnection>(acc15, "dropbox"@, x.dropbox, "google"@);
    lemma_lookup_then_skip_entry::<BackupConnection>(acc16, "gdrive"@, x.gdrive, "google"@);
}

/// The `dropbox` member of an encoded `User`.
pub(crate) proof fn lemma_user_dropbox(x: User)
    ensures
        User::wire_of(x).field("dropbox"@) == match x.dropbox { Some(y) => Some(<BackupConnection as Wire>::wire_of(y)), None => None },
{
    reveal_strlit("dropbox");
    assert("dropbox"@.len() == 7);
    reveal_strlit("_id");
    assert("_id"@.len() == 3);
    reveal_strlit("email");
    assert("email"@.len() == 5);
    reveal_strlit("email_MD5");
    assert("email_MD5"@.len() == 9);
    reveal_strlit("fullName");
    assert("fullName"@.len() == 8);
    reveal_strlit("pro");
    assert("pro"@.len() == 3);
    reveal_strlit("proExpire");
    assert("proExpire"@.len() == 9);
    reveal_strlit("registered");
    assert("registered"@.len() == 10);
    reveal_strlit("password");
    assert("password"@.len() == 8);
    reveal_strlit("groups");
    assert("groups"@.len() == 6);
    reveal_strlit("avatar");
    assert("avatar"@.len() == 6);
    reveal_strlit("files");
    assert("files"@.len() == 5);
    reveal_strlit("facebook");
    assert("facebook"@.len() == 8);
    reveal_strlit("twitter");
    assert("twitter"@[0] != "dropbox"@[0]);
    reveal_strlit("vkontakte");
    assert("vkontakte"@.len() == 9);
    reveal_strlit("google");
    assert("google"@.len() == 6);
    reveal_strlit("gdrive");
    assert("gdrive"@.len() == 6);
    let acc0 = Seq::<(Seq<char>, JsonModel)>::empty();
    lemma_lookup_empty("dropbox"@);
    let acc1 = acc0 + entry::<i64>("_id"@, x.id);
    let acc2 = acc1 + opt_entry::<String>("email"@, x.email);
    let acc3 = acc2 + opt_entry::<String>("email_MD5"@, x.email_md5);
    let acc4 = acc3 + opt_entry::<String>("fullName"@, x.full_name);
    let acc5 = acc4 + entry::<bool>("pro"@, x.pro);
    let acc6 = acc5 + skip_entry::<String>("proExpire"@, x.pro_expire);
    let acc7 = acc6 + opt_entry::<String>("registered"@, x.registered);
    let acc8 = acc7 + skip_entry::<bool>("password"@, x.password);
    let acc9 = acc8 + skip_entry::<Vec<Group>>("groups"@, x.groups);
    let acc10 = acc9 + skip_entry::<String>("avatar"@, x.avatar);
    let acc11 = acc10 + skip_entry::<FilesInfo>("files"@, x.files);
    let acc12 = acc11 + skip_entry::<SocialConnection>("facebook"@, x.facebook);
    let acc13 = acc12 + skip_entry::<SocialConnection>("twitter"@, x.twitter);
    let acc14 = acc13 + skip_entry::<SocialConnection>("vkontakte"@, x.vkontakte);
    let acc15 = acc14 + skip_entry::<SocialConnection>("google"@, x.google);
    let acc16 = acc15 + skip_entry::<BackupConnection>("dropbox"@, x.dropbox);
    let acc17 = acc16 + skip_entry::<BackupConnection>("gdrive"@, x.gdrive);
    lemma_lookup_then_entry::<i64>(acc0, "_id"@, x.id, "dropbox"@);
    lemma_lookup_then_opt_entry::<String>(acc1, "email"@, x.email, "dropbox"@);
    lemma_lookup_then_opt_entry::<String>(acc2, "email_MD5"@, x.email_md5, "dropbox"@);
    lemma_lookup_then_opt_entry::<String>(acc3, "fullName"@, x.full_name, "dropbox"@);
    lemma_lookup_then_entry::<bool>(acc4, "pro"@, x.pro, "dropbox"@);
    lemma_lookup_then_skip_entry::<String>(acc5, "proExpire"@, x.pro_expire, "dropbox"@);
    lemma_lookup_then_opt_entry::<String>(acc6, "registered"@, x.registered, "dropbox"@);
    lemma_lookup_then_skip_entry::<bool>(acc7, "password"@, x.password, "dropbox"@);
    lemma_lookup_then_skip_entry::<Vec<Group>>(acc8, "groups"@, x.groups, "dropbox"@);
    lemma_lookup_then_skip_entry::<String>(acc9, "avatar"@, x.avatar, "dropbox"@);
    lemma_lookup_then_skip_entry::<FilesInfo>(acc10, "files"@, x.files, "dropbox"@);
    lemma_lookup_then_skip_entry::<SocialConnection>(acc11, "facebook"@, x.facebook, "dropbox"@);
    lemma_lookup_then_skip_entry::<SocialConnection>(acc12, "twitter"@, x.twitter, "dropbox"@);
    lemma_lookup_then_skip_entry::<SocialConnection>(acc13, "vkontakte"@, x.vkontakte, "dropbox"@);
    lemma_lookup_then_skip_entry::<SocialConnection>(acc14, "google"@, x.google, "dropbox"@);
    lemma_lookup_then_skip_entry::<BackupConnection>(acc15, "dropbox"@, x.dropbox, "dropbox"@);
    lemma_lookup_then_skip_entry::<BackupConnection>(acc16, "gdrive"@, x.gdrive, "dropbox"@);
}

/// The `gdrive` member of an encoded `User`.
pub(crate) proof fn lemma_user_gdrive(x: User)
    ensures
        User::wire_of(x).field("gdrive"@) == match x.gdrive { Some(y) => Some(<BackupConnection as Wire>::wire_of(y)), None => None },
{
    reveal_strlit("gdrive");
    assert("gdrive"@.len() == 6);
    reveal_strlit("_id");
    assert("_id"@.len() == 3);
    reveal_strlit("email");
    assert("email"@.len() == 5);
    reveal_strlit("email_MD5");
    assert("email_MD5"@.len() == 9);
    reveal_strlit("fullName");
    assert("fullName"@.len() == 8);
    reveal_strlit("pro");
    assert("pro"@.len() == 3);
    reveal_strlit("proExpire");
    assert("proExpire"@.len() == 9);
    reveal_strlit("registered");
    assert("registered"@.len() == 10);
    reveal_strlit("password");
    assert("password"@.len() == 8);
    reveal_strlit("groups");
    assert("groups"@[1] != "gdrive"@[1]);
    reveal_strlit("avatar");
    assert("avatar"@[0] != "gdrive"@[0]);
    reveal_strlit("files");
    assert("files"@.len() == 5);
    reveal_strlit("facebook");
    assert("facebook"@.len() == 8);
    reveal_strlit("twitter");
    assert("twitter"@.len() == 7);
    reveal_strlit("vkontakte");
    assert("vkontakte"@.len() == 9);
    reveal_strlit("google");
    assert("google"@[1] != "gdrive"@[1]);
    reveal_strlit("dropbox");
    assert("dropbox"@.len() == 7);
    let acc0 = Seq::<(Seq<char>, JsonModel)>::empty();
    lemma_lookup_empty("gdrive"@);
    let acc1 = acc0 + entry::<i64>("_id"@, x.id);
    let acc2 = acc1 + opt_entry::<String>("email"@, x.email);
    let acc3 = acc2 + opt_entry::<String>("email_MD5"@, x.email_md5);
    let acc4 = acc3 + opt_entry::<String>("fullName"@, x.full_name);
    let acc5 = acc4 + entry::<bool>("pro"@, x.pro);
    let acc6 = acc5 + skip_entry::<String>("proExpire"@, x.pro_expire);
    let acc7 = acc6 + opt_entry::<String>("registered"@, x.registered);
    let acc8 = acc7 + skip_entry::<bool>("password"@, x.password);
    let acc9 = acc8 + skip_entry::<Vec<Group>>("groups"@, x.groups);
    let acc10 = acc9 + skip_entry::<String>("avatar"@, x.avatar);
    let acc11 = acc10 + skip_entry::<FilesInfo>("files"@, x.files);
    let acc12 = acc11 + skip_entry::<SocialConnection>("facebook"@, x.facebook);
    let acc13 = acc12 + skip_entry::<SocialConnection>("twitter"@, x.twitter);
    let acc14 = acc13 + skip_entry::<SocialConnection>("vkontakte"@, x.vkontakte);
    let acc15 = acc14 + skip_entry::<SocialConnection>("google"@, x.google);
    let acc16 = acc15 + skip_entry::<BackupConnection>("dropbox"@, x.dropbox);
    let acc17 = acc16 + skip_entry::<BackupConnection>("gdrive"@, x.gdrive);
    lemma_lookup_then_entry::<i64>(acc0, "_id"@, x.id, "gdrive"@);
    lemma_lookup_then_opt_entry::<String>(acc1, "email"@, x.email, "gdrive"@);
    lemma_lookup_then_opt_entry::<String>(acc2, "email_MD5"@, x.email_md5, "gdrive"@);
    lemma_lookup_then_opt_entry::<String>(acc3, "fullName"@, x.full_name, "gdrive"@);
    lemma_lookup_then_entry::<bool>(acc4, "pro"@, x.pro, "gdrive"@);
    lemma_lookup_then_skip_entry::<String>(acc5, "proExpire"@, x.pro_expire, "gdrive"@);
    lemma_lookup_then_opt_entry::<String>(acc6, "registered"@, x.registered, "gdrive"@);
    lemma_lookup_then_skip_entry::<bool>(acc7, "password"@, x.password, "gdrive"@);
    lemma_lookup_then_skip_entry::<Vec<Group>>(acc8, "groups"@, x.groups, "gdrive"@);
    lemma_lookup_then_skip_entry::<String>(acc9, "avatar"@, x.avatar, "gdrive"@);
    lemma_lookup_then_skip_entry::<FilesInfo>(acc10, "files"@, x.files, "gdrive"@);
    lemma_lookup_then_skip_entry::<SocialConnection>(acc11, "facebook"@, x.facebook, "gdrive"@);
    lemma_lookup_then_skip_entry::<SocialConnection>(acc12, "twitter"@, x.twitter, "gdrive"@);
    lemma_lookup_then_skip_entry::<SocialConnection>(acc13, "vkontakte"@, x.vkontakte, "gdrive"@);
    lemma_lookup_then_skip_entry::<SocialConnection>(acc14, "google"@, x.google, "gdrive"@);
    lemma_lookup_then_skip_entry::<BackupConnection>(acc15, "dropbox"@, x.dropbox, "gdrive"@);
    lemma_lookup_then_skip_entry::<BackupConnection>(acc16, "gdrive"@, x.gdrive, "gdrive"@);
}

/// A reference to an account.
#[derive(Debug, Clone)]
pub struct UserRef {
    pub id: i64,
}

impl Wire for UserRef {
    open spec fn wire_ok(j: JsonModel) -> bool {
        &&& j is Object
        &&& req_ok::<i64>(j.field("$id"@))
    }

    open spec fn wire_is(j: JsonModel, x: UserRef) -> bool {
        &&& j is Object
        &&& req_is::<i64>(j.field("$id"@), x.id)
    }

    open spec fn wire_of(x: UserRef) -> JsonModel {
        JsonModel::Object(
            Seq::empty()
                + entry::<i64>("$id"@, x.id)
        )
    }

    fn decode(j: &Json) -> (r: Result<UserRef, String>) {
        match expect_object(j) {
            Ok(()) => {},
            Err(e) => return Err(e),
        }
        let id = match decode_field::<i64>(j, "$id") {
            Ok(v) => v,
            Err(e) => return Err(e),
        };
        Ok(UserRef { id })
    }

    fn encode(&self) -> (r: Json) {
        let mut fields = no_fields();
        push_field::<i64>(&mut fields, "$id", &self.id);
        object(fields)
    }

    proof fn lemma_round_trip(x: Self) {
        lemma_user_ref_id(x);
        <i64 as Wire>::lemma_round_trip(x.id);
        let j = Self::wire_of(x);
        assert(req_ok::<i64>(j.field("$id"@)));
        assert(req_is::<i64>(j.field("$id"@), x.id));
        assert forall|y: Self| #[trigger] Self::wire_is(j, y) implies Self::wire_of(y) == j by {
            assert(entry::<i64>("$id"@, y.id) == entry::<i64>("$id"@, x.id));
        }
    }
}

/// The `$id` member of an encoded `UserRef`.
pub(crate) proof fn lemma_user_ref_id(x: UserRef)
    ensures
        UserRef::wire_of(x).field("$id"@) == Some(<i64 as Wire>::wire_of(x.id)),
{
    reveal_strlit("$id");
    assert("$id"@.len() == 3);
    let acc0 = Seq::<(Seq<char>, JsonModel)>::empty();
    lemma_lookup_empty("$id"@);
    let acc1 = acc0 + entry::<i64>("$id"@, x.id);
    lemma_lookup_then_entry::<i64>(acc0, "$id"@, x.id, "$id"@);
}

/// A titled group of collections in the sidebar.
#[derive(Debug, Clone)]
pub struct Group {
    pub title: String,
    pub hidden: bool,
    pub sort: i32,
    pub collections: Vec<i64>,
}

impl Wire for Group {
    open spec fn wire_ok(j: JsonModel) -> bool {
        &&& j is Object
        &&& req_ok::<String>(j.field("title"@))
        &&& req_ok::<bool>(j.field("hidden"@))
        &&& req_ok::<i32>(j.field("sort"@))
        &&& req_ok::<Vec<i64>>(j.field("collections"@))
    }

    open spec fn wire_is(j: JsonModel, x: Group) -> bool {
        &&& j is Object
        &&& req_is::<String>(j.field("title"@), x.title)
        &&& req_is::<bool>(j.field("hidden"@), x.hidden)
        &&& req_is::<i32>(j.field("sort"@), x.sort)
        &&& req_is::<Vec<i64>>(j.field("collections"@), x.collections)
    }

    open spec fn wire_of(x: Group) -> JsonModel {
        JsonModel::Object(
            Seq::empty()
                + entry::<String>("title"@, x.title)
                + entry::<bool>("hidden"@, x.hidden)
                + entry::<i32>("sort"@, x.sort)
                + entry::<Vec<i64>>("collections"@, x.collections)
        )
    }

    fn decode(j: &Json) -> (r: Result<Group, String>) {
        match expect_object(j) {
            Ok(()) => {},
            Err(e) => return Err(e),
        }
        let title = match decode_field::<String>(j, "title") {
            Ok(v) => v,
            Err(e) => return Err(e),
        };
        let hidden = match decode_field::<bool>(j, "hidden") {
            Ok(v) => v,
            Err(e) => return Err(e),
        };
        let sort = match decode_field::<i32>(j, "sort") {
            Ok(v) => v,
            Err(e) => return Err(e),
        };
        let collections = match decode_field::<Vec<i64>>(j, "collections") {
            Ok(v) => v,
            Err(e) => return Err(e),
        };
        Ok(Group { title, hidden, sort, collections })
    }

    fn encode(&self) -> (r: Json) {
        let mut fields = no_fields();
        push_field::<String>(&mut fields, "title", &self.title);
        push_field::<bool>(&mut fields, "hidden", &self.hidden);
        push_field::<i32>(&mut fields, "sort", &self.sort);
        push_field::<Vec<i64>>(&mut fields, "collections", &self.collections);
        object(fields)
    }

    proof fn lemma_round_trip(x: Self) {
        lemma_group_title(x);
        <String as Wire>::lemma_round_trip(x.title);
        lemma_group_hidden(x);
        <bool as Wire>::lemma_round_trip(x.hidden);
        lemma_group_sort(x);
        <i32 as Wire>::lemma_round_trip(x.sort);
        lemma_group_collections(x);
        <Vec<i64> as Wire>::lemma_round_trip(x.collections);
        let j = Self::wire_of(x);
        assert(req_ok::<String>(j.field("title"@)));
        assert(req_ok::<bool>(j.field("hidden"@)));
        assert(req_ok::<i32>(j.field("sort"@)));
        assert(req_ok::<Vec<i64>>(j.field("collections"@)));
        assert(req_is::<String>(j.field("title"@), x.title));
        assert(req_is::<bool>(j.field("hidden"@), x.hidden));
        assert(req_is::<i32>(j.field("sort"@), x.sort));
        assert(req_is::<Vec<i64>>(j.field("collections"@), x.collections));
        assert forall|y: Self| #[trigger] Self::wire_is(j, y) implies Self::wire_of(y) == j by {
            assert(entry::<String>("title"@, y.title) == entry::<String>("title"@, x.title));
            assert(entry::<bool>("hidden"@, y.hidden) == entry::<bool>("hidden"@, x.hidden));
            assert(entry::<i32>("sort"@, y.sort) == entry::<i32>("sort"@, x.sort));
            assert(entry::<Vec<i64>>("collections"@, y.collections) == entry::<Vec<i64>>("collections"@, x.collections));
        }
    }
}

/// The `title` member of an encoded `Group`.
pub(crate) proof fn lemma_group_title(x: Group)
    ensures
        Group::wire_of(x).field("title"@) == Some(<String as Wire>::wire_of(x.title)),
{
    reveal_strlit("title");
    assert("title"@.len() == 5);
    reveal_strlit("hidden");
    assert("hidden"@.len() == 6);
    reveal_strlit("sort");
    assert("sort"@.len() == 4);
    reveal_strlit("collections");
    assert("collections"@.len() == 11);
    let acc0 = Seq::<(Seq<char>, JsonModel)>::empty();
    lemma_lookup_empty("title"@);
    let acc1 = acc0 + entry::<String>("title"@, x.title);
    let acc2 = acc1 + entry::<bool>("hidden"@, x.hidden);
    let acc3 = acc2 + entry::<i32>("sort"@, x.sort);
    let acc4 = acc3 + entry::<Vec<i64>>("collections"@, x.collections);
    lemma_lookup_then_entry::<String>(acc0, "title"@, x.title, "title"@);
    lemma_lookup_then_entry::<bool>(acc1, "hidden"@, x.hidden, "title"@);
    lemma_lookup_then_entry::<i32>(acc2, "sort"@, x.sort, "title"@);
    lemma_lookup_then_entry::<Vec<i64>>(acc3, "collections"@, x.collections, "title"@);
}

/// The `hidden` member of an encoded `Group`.
pub(crate) proof fn lemma_group_hidden(x: Group)
    ensures
        Group::wire_of(x).field("hidden"@) == Some(<bool as Wire>::wire_of(x.hidden)),
{
    reveal_strlit("hidden");
    assert("hidden"@.len() == 6);
    reveal_strlit("title");
    assert("title"@.len() == 5);
    reveal_strlit("sort");
    assert("sort"@.len() == 4);
    reveal_strlit("collections");
    assert("collections"@.len() == 11);
    let acc0 = Seq::<(Seq<char>, JsonModel)>::empty();
    lemma_lookup_empty("hidden"@);
    let acc1 = acc0 + entry::<String>("title"@, x.title);
    let acc2 = acc1 + entry::<bool>("hidden"@, x.hidden);
    let acc3 = acc2 + entry::<i32>("sort"@, x.sort);
    let acc4 = acc3 + entry::<Vec<i64>>("collections"@, x.collections);
    lemma_lookup_then_entry::<String>(acc0, "title"@, x.title, "hidden"@);
    lemma_lookup_then_entry::<bool>(acc1, "hidden"@, x.hidden, "hidden"@);
    lemma_lookup_then_entry::<i32>(acc2, "sort"@, x.sort, "hidden"@);
    lemma_lookup_then_entry::<Vec<i64>>(acc3, "collections"@, x.collections, "hidden"@);
}

/// The `sort` member of an encoded `Group`.
pub(crate) proof fn lemma_group_sort(x: Group)
    ensures
        Group::wire_of(x).field("sort"@) == Some(<i32 as Wire>::wire_of(x.sort)),
{
    reveal_strlit("sort");
    assert("sort"@.len() == 4);
    reveal_strlit("title");
    assert("title"@.len() == 5);
    reveal_strlit("hidden");
    assert("hidden"@.len() == 6);
    reveal_strlit("collections");
    assert("collections"@.len() == 11);
    let acc0 = Seq::<(Seq<char>, JsonModel)>::empty();
    lemma_lookup_empty("sort"@);
    let acc1 = acc0 + entry::<String>("title"@, x.title);
    let acc2 = acc1 + entry::<bool>("hidden"@, x.hidden);
    let acc3 = acc2 + entry::<i32>("sort"@, x.sort);
    let acc4 = acc3 + entry::<Vec<i64>>("collections"@, x.collections);
    lemma_lookup_then_entry::<String>(acc0, "title"@, x.title, "sort"@);
    lemma_lookup_then_entry::<bool>(acc1, "hidden"@, x.hidden, "sort"@);
    lemma_lookup_then_entry::<i32>(acc2, "sort"@, x.sort, "sort"@);
    lemma_lookup_then_entry::<Vec<i64>>(acc3, "collections"@, x.collections, "sort"@);
}

/// The `collections` member of an encoded `Group`.
pub(crate) proof fn lemma_group_collections(x: Group)
    ensures
        Group::wire_of(x).field("collections"@) == Some(<Vec<i64> as Wire>::wire_of(x.collections)),
{
    reveal_strlit("collections");
    assert("collections"@.len() == 11);
    reveal_strlit("title");
    assert("title"@.len() == 5);
    reveal_strlit("hidden");
    assert("hidden"@.len() == 6);
    reveal_strlit("sort");
    assert("sort"@.len() == 4);
    let acc0 = Seq::<(Seq<char>, JsonModel)>::empty();
    lemma_lookup_empty("collections"@);
    let acc1 = acc0 + entry::<String>("title"@, x.title);
    let acc2 = acc1 + entry::<bool>("hidden"@, x.hidden);
    let acc3 = acc2 + entry::<i32>("sort"@, x.sort);
    let acc4 = acc3 + entry::<Vec<i64>>("collections"@, x.collections);
    lemma_lookup_then_entry::<String>(acc0, "title"@, x.title, "collections"@);
    lemma_lookup_then_entry::<bool>(acc1, "hidden"@, x.hidden, "collections"@);
    lemma_lookup_then_entry::<i32>(acc2, "sort"@, x.sort, "collections"@);
    lemma_lookup_then_entry::<Vec<i64>>(acc3, "collections"@, x.collections, "collections"@);
}

/// Display preferences of an account.
#[derive(Debug, Clone)]
pub struct UserConfig {
    pub broken_level: Option<BrokenLevel>,
    pub font_color: Option<String>,
    pub font_size: Option<i32>,
    pub lang: Option<String>,
    pub last_collection: Option<i64>,
    pub raindrops_sort: Option<String>,
    pub raindrops_view: Option<String>,
}

impl Wire for UserConfig {
    open spec fn wire_ok(j: JsonModel) -> bool {
        &&& j is Object
        &&& opt_ok::<BrokenLevel>(j.field("broken_level"@))
        &&& opt_ok::<String>(j.field("font_color"@))
        &&& opt_ok::<i32>(j.field("font_size"@))
        &&& opt_ok::<String>(j.field("lang"@))
        &&& opt_ok::<i64>(j.field("last_collection"@))
        &&& opt_ok::<String>(j.field("raindrops_sort"@))
        &&& opt_ok::<String>(j.field("raindrops_view"@))
    }

    open spec fn wire_is(j: JsonModel, x: UserConfig) -> bool {
        &&& j is Object
        &&& opt_is::<BrokenLevel>(j.field("broken_level"@), x.broken_level)
        &&& opt_is::<String>(j.field("font_color"@), x.font_color)
        &&& opt_is::<i32>(j.field("font_size"@), x.font_size)
        &&& opt_is::<String>(j.field("lang"@), x.lang)
        &&& opt_is::<i64>(j.field("last_collection"@), x.last_collection)
        &&& opt_is::<String>(j.field("raindrops_sort"@), x.raindrops_sort)
        &&& opt_is::<String>(j.field("raindrops_view"@), x.raindrops_view)
    }

    open spec fn wire_of(x: UserConfig) -> JsonModel {
        JsonModel::Object(
            Seq::empty()
                + opt_entry::<BrokenLevel>("broken_level"@, x.broken_level)
                + opt_entry::<String>("font_color"@, x.font_color)
                + opt_entry::<i32>("font_size"@, x.font_size)
                + opt_entry::<String>("lang"@, x.lang)
                + opt_entry::<i64>("last_collection"@, x.last_collection)
                + opt_entry::<String>("raindrops_sort"@, x.raindrops_sort)
                + opt_entry::<String>("raindrops_view"@, x.raindrops_view)
        )
    }

    fn decode(j: &Json) -> (r: Result<UserConfig, String>) {
        match expect_object(j) {
            Ok(()) => {},
            Err(e) => return Err(e),
        }
        let broken_level = match decode_opt_field::<BrokenLevel>(j, "broken_level") {
            Ok(v) => v,
            Err(e) => return Err(e),
        };
        let font_color = match decode_opt_field::<String>(j, "font_color") {
            Ok(v) => v,
            Err(e) => return Err(e),
        };
        let font_size = match decode_opt_field::<i32>(j, "font_size") {
            Ok(v) => v,
            Err(e) => return Err(e),
        };
        let lang = match decode_opt_field::<String>(j, "lang") {
            Ok(v) => v,
            Err(e) => return Err(e),
        };
        let last_collection = match decode_opt_field::<i64>(j, "last_collection") {
            Ok(v) => v,
            Err(e) => return Err(e),
        };
        let raindrops_sort = match decode_opt_field::<String>(j, "raindrops_sort") {
            Ok(v) => v,
            Err(e) => return Err(e),
        };
        let raindrops_view = match decode_opt_field::<String>(j, "raindrops_view") {
            Ok(v) => v,
            Err(e) => return Err(e),
        };
        Ok(UserConfig { broken_level, font_color, font_size, lang, last_collection, raindrops_sort, raindrops_view })
    }

    fn encode(&self) -> (r: Json) {
        let mut fields = no_fields();
        push_opt::<BrokenLevel>(&mut fields, "broken_level", &self.broken_level);
        push_opt::<String>(&mut fields, "font_color", &self.font_color);
        push_opt::<i32>(&mut fields, "font_size", &self.font_size);
        push_opt::<String>(&mut fields, "lang", &self.lang);
        push_opt::<i64>(&mut fields, "last_collection", &self.last_collection);
        push_opt::<String>(&mut fields, "raindrops_sort", &self.raindrops_sort);
        push_opt::<String>(&mut fields, "raindrops_view", &self.raindrops_view);
        object(fields)
    }

    proof fn lemma_round_trip(x: Self) {
        lemma_user_config_broken_level(x);
        lemma_opt_round_trip::<BrokenLevel>(x.broken_level);
        lemma_user_config_font_color(x);
        lemma_opt_round_trip::<String>(x.font_color);
        lemma_user_config_font_size(x);
        lemma_opt_round_trip::<i32>(x.font_size);
        lemma_user_config_lang(x);
        lemma_opt_round_trip::<String>(x.lang);
        lemma_user_config_last_collection(x);
        lemma_opt_round_trip::<i64>(x.last_collection);
        lemma_user_config_raindrops_sort(x);
        lemma_opt_round_trip::<String>(x.raindrops_sort);
        lemma_user_config_raindrops_view(x);
        lemma_opt_round_trip::<String>(x.raindrops_view);
        let j = Self::wire_of(x);
        assert(opt_ok::<BrokenLevel>(j.field("broken_level"@)));
        assert(opt_ok::<String>(j.field("font_color"@)));
        assert(opt_ok::<i32>(j.field("font_size"@)));
        assert(opt_ok::<String>(j.field("lang"@)));
        assert(opt_ok::<i64>(j.field("last_collection"@)));
        assert(opt_ok::<String>(j.field("raindrops_sort"@)));
        assert(opt_ok::<String>(j.field("raindrops_view"@)));
        assert(opt_is::<BrokenLevel>(j.field("broken_level"@), x.broken_level));
        assert(opt_is::<String>(j.field("font_color"@), x.font_color));
        assert(opt_is::<i32>(j.field("font_size"@), x.font_size));
        assert(opt_is::<String>(j.field("lang"@), x.lang));
        assert(opt_is::<i64>(j.field("last_collection"@), x.last_collection));
        assert(opt_is::<String>(j.field("raindrops_sort"@), x.raindrops_sort));
        assert(opt_is::<String>(j.field("raindrops_view"@), x.raindrops_view));
        assert forall|y: Self| #[trigger] Self::wire_is(j, y) implies Self::wire_of(y) == j by {
            assert(opt_entry::<BrokenLevel>("broken_level"@, y.broken_level) == opt_entry::<BrokenLevel>("broken_level"@, x.broken_level));
            assert(opt_entry::<String>("font_color"@, y.font_color) == opt_entry::<String>("font_color"@, x.font_color));
            assert(opt_entry::<i32>("font_size"@, y.font_size) == opt_entry::<i32>("font_size"@, x.font_size));
            assert(opt_entry::<String>("lang"@, y.lang) == opt_entry::<String>("lang"@, x.lang));
            assert(opt_entry::<i64>("last_collection"@, y.last_collection) == opt_entry::<i64>("last_collection"@, x.last_collection));
            assert(opt_entry::<String>("raindrops_sort"@, y.raindrops_sort) == opt_entry::<String>("raindrops_sort"@, x.raindrops_sort));
            assert(opt_entry::<String>("raindrops_view"@, y.raindrops_view) == opt_entry::<String>("raindrops_view"@, x.raindrops_view));
        }
    }
}

/// The `broken_level` member of an encoded `UserConfig`.
pub(crate) proof fn lemma_user_config_broken_level(x: UserConfig)
    ensures
        UserConfig::wire_of(x).field("broken_level"@) == Some(match x.broken_level { Some(y) => <BrokenLevel as Wire>::wire_of(y), None => JsonModel::Null }),
{
    reveal_strlit("broken_level");
    assert("broken_level"@.len() == 12);
    reveal_strlit("font_color");
    assert("font_color"@.len() == 10);
    reveal_strlit("font_size");
    assert("font_size"@.len() == 9);
    reveal_strlit("lang");
    assert("lang"@.len() == 4);
    reveal_strlit("last_collection");
    assert("last_collection"@.len() == 15);
    reveal_strlit("raindrops_sort");
    assert("raindrops_sort"@.len() == 14);
    reveal_strlit("raindrops_view");
    assert("raindrops_view"@.len() == 14);
    let acc0 = Seq::<(Seq<char>, JsonModel)>::empty();
    lemma_lookup_empty("broken_level"@);
    let acc1 = acc0 + opt_entry::<BrokenLevel>("broken_level"@, x.broken_level);
    let acc2 = acc1 + opt_entry::<String>("font_color"@, x.font_color);
    let acc3 = acc2 + opt_entry::<i32>("font_size"@, x.font_size);
    let acc4 = acc3 + opt_entry::<String>("lang"@, x.lang);
    let acc5 = acc4 + opt_entry::<i64>("last_collection"@, x.last_collection);
    let acc6 = acc5 + opt_entry::<String>("raindrops_sort"@, x.raindrops_sort);
    let acc7 = acc6 + opt_entry::<String>("raindrops_view"@, x.raindrops_view);
    lemma_lookup_then_opt_entry::<BrokenLevel>(acc0, "broken_level"@, x.broken_level, "broken_level"@);
    lemma_lookup_then_opt_entry::<String>(acc1, "font_color"@, x.font_color, "broken_level"@);
    lemma_lookup_then_opt_entry::<i32>(acc2, "font_size"@, x.font_size, "broken_level"@);
    lemma_lookup_then_opt_entry::<String>(acc3, "lang"@, x.lang, "broken_level"@);
    lemma_lookup_then_opt_entry::<i64>(acc4, "last_collection"@, x.last_collection, "broken_level"@);
    lemma_lookup_then_opt_entry::<String>(acc5, "raindrops_sort"@, x.raindrops_sort, "broken_level"@);
    lemma_lookup_then_opt_entry::<String>(acc6, "raindrops_view"@, x.raindrops_view, "broken_level"@);
}

/// The `font_color` member of an encoded `UserConfig`.
pub(crate) proof fn lemma_user_config_font_color(x: UserConfig)
    ensures
        UserConfig::wire_of(x).field("font_color"@) == Some(match x.font_color { Some(y) => <String as Wire>::wire_of(y), None => JsonModel::Null }),
{
    reveal_strlit("font_color");
    assert("font_color"@.len() == 10);
    reveal_strlit("broken_level");
    assert("broken_level"@.len() == 12);
    reveal_strlit("font_size");
    assert("font_size"@.len() == 9);
    reveal_strlit("lang");
    assert("lang"@.len() == 4);
    reveal_strlit("last_collection");
    assert("last_collection"@.len() == 15);
    reveal_strlit("raindrops_sort");
    assert("raindrops_sort"@.len() == 14);
    reveal_strlit("raindrops_view");
    assert("raindrops_view"@.len() == 14);
    let acc0 = Seq::<(Seq<char>, JsonModel)>::empty();
    lemma_lookup_empty("font_color"@);
    let acc1 = acc0 + opt_entry::<BrokenLevel>("broken_level"@, x.broken_level);
    let acc2 = acc1 + opt_entry::<String>("font_color"@, x.font_color);
    let acc3 = acc2 + opt_entry::<i32>("font_size"@, x.font_size);
    let acc4 = acc3 + opt_entry::<String>("lang"@, x.lang);
    let acc5 = acc4 + opt_entry::<i64>("last_collection"@, x.last_collection);
    let acc6 = acc5 + opt_entry::<String>("raindrops_sort"@, x.raindrops_sort);
    let acc7 = acc6 + opt_entry::<String>("raindrops_view"@, x.raindrops_view);
    lemma_lookup_then_opt_entry::<BrokenLevel>(acc0, "broken_level"@, x.broken_level, "font_color"@);
    lemma_lookup_then_opt_entry::<String>(acc1, "font_color"@, x.font_color, "font_color"@);
    lemma_lookup_then_opt_entry::<i32>(acc2, "font_size"@, x.font_size, "font_color"@);
    lemma_lookup_then_opt_entry::<String>(acc3, "lang"@, x.lang, "font_color"@);
    lemma_lookup_then_opt_entry::<i64>(acc4, "last_collection"@, x.last_collection, "font_color"@);
    lemma_lookup_then_opt_entry::<String>(acc5, "raindrops_sort"@, x.raindrops_sort, "font_color"@);
    lemma_lookup_then_opt_entry::<String>(acc6, "raindrops_view"@, x.raindrops_view, "font_color"@);
}

/// The `font_size` member of an encoded `UserConfig`.
pub(crate) proof fn lemma_user_config_font_size(x: UserConfig)
    ensures
        UserConfig::wire_of(x).field("font_size"@) == Some(match x.font_size { Some(y) => <i32 as Wire>::wire_of(y), None => JsonModel::Null }),
{
    reveal_strlit("font_size");
    assert("font_size"@.len() == 9);
    reveal_strlit("broken_level");
    assert("broken_level"@.len() == 12);
    reveal_strlit("font_color");
    assert("font_color"@.len() == 10);
    reveal_strlit("lang");
    assert("lang"@.len() == 4);
    reveal_strlit("last_collection");
    assert("last_collection"@.len() == 15);
    reveal_strlit("raindrops_sort");
    assert("raindrops_sort"@.len() == 14);
    reveal_strlit("raindrops_view");
    assert("raindrops_view"@.len() == 14);
    let acc0 = Seq::<(Seq<char>, JsonModel)>::empty();
    lemma_lookup_empty("font_size"@);
    let acc1 = acc0 + opt_entry::<BrokenLevel>("broken_level"@, x.broken_level);
    let acc2 = acc1 + opt_entry::<String>("font_color"@, x.font_color);
    let acc3 = acc2 + opt_entry::<i32>("font_size"@, x.font_size);
    let acc4 = acc3 + opt_entry::<String>("lang"@, x.lang);
    let acc5 = acc4 + opt_entry::<i64>("last_collection"@, x.last_collection);
    let acc6 = acc5 + opt_entry::<String>("raindrops_sort"@, x.raindrops_sort);
    let acc7 = acc6 + opt_entry::<String>("raindrops_view"@, x.raindrops_view);
    lemma_lookup_then_opt_entry::<BrokenLevel>(acc0, "broken_level"@, x.broken_level, "font_size"@);
    lemma_lookup_then_opt_entry::<String>(acc1, "font_color"@, x.font_color, "font_size"@);
    lemma_lookup_then_opt_entry::<i32>(acc2, "font_size"@, x.font_size, "font_size"@);
    lemma_lookup_then_opt_entry::<String>(acc3, "lang"@, x.lang, "font_size"@);
    lemma_lookup_then_opt_entry::<i64>(acc4, "last_collection"@, x.last_collection, "font_size"@);
    lemma_lookup_then_opt_entry::<String>(acc5, "raindrops_sort"@, x.raindrops_sort, "font_size"@);
    lemma_lookup_then_opt_entry::<String>(acc6, "raindrops_view"@, x.raindrops_view, "font_size"@);
}

/// The `lang` member of an encoded `UserConfig`.
pub(crate) proof fn lemma_user_config_lang(x: UserConfig)
    ensures
        UserConfig::wire_of(x).field("lang"@) == Some(match x.lang { Some(y) => <String as Wire>::wire_of(y), None => JsonModel::Null }),
{
    reveal_strlit("lang");
    assert("lang"@.len() == 4);
    reveal_strlit("broken_level");
    assert("broken_level"@.len() == 12);
    reveal_strlit("font_color");
    assert("font_color"@.len() == 10);
    reveal_strlit("font_size");
    assert("font_size"@.len() == 9);
    reveal_strlit("last_collection");
    assert("last_collection"@.len() == 15);
    reveal_strlit("raindrops_sort");
    assert("raindrops_sort"@.len() == 14);
    reveal_strlit("raindrops_view");
    assert("raindrops_view"@.len() == 14);
    let acc0 = Seq::<(Seq<char>, JsonModel)>::empty();
    lemma_lookup_empty("lang"@);
    let acc1 = acc0 + opt_entry::<BrokenLevel>("broken_level"@, x.broken_level);
    let acc2 = acc1 + opt_entry::<String>("font_color"@, x.font_color);
    let acc3 = acc2 + opt_entry::<i32>("font_size"@, x.font_size);
    let acc4 = acc3 + opt_entry::<String>("lang"@, x.lang);
    let acc5 = acc4 + opt_entry::<i64>("last_collection"@, x.last_collection);
    let acc6 = acc5 + opt_entry::<String>("raindrops_sort"@, x.raindrops_sort);
    let acc7 = acc6 + opt_entry::<String>("raindrops_view"@, x.raindrops_view);
    lemma_lookup_then_opt_entry::<BrokenLevel>(acc0, "broken_level"@, x.broken_level, "lang"@);
    lemma_lookup_then_opt_entry::<String>(acc1, "font_color"@, x.font_color, "lang"@);
    lemma_lookup_then_opt_entry::<i32>(acc2, "font_size"@, x.font_size, "lang"@);
    lemma_lookup_then_opt_entry::<String>(acc3, "lang"@, x.lang, "lang"@);
    lemma_lookup_then_opt_entry::<i64>(acc4, "last_collection"@, x.last_collection, "lang"@);
    lemma_lookup_then_opt_entry::<String>(acc5, "raindrops_sort"@, x.raindrops_sort, "lang"@);
    lemma_lookup_then_opt_entry::<String>(acc6, "raindrops_view"@, x.raindrops_view, "lang"@);
}

/// The `last_collection` member of an encoded `UserConfig`.
pub(crate) proof fn lemma_user_config_last_collection(x: UserConfig)
    ensures
        UserConfig::wire_of(x).field("last_collection"@) == Some(match x.last_collection { Some(y) => <i64 as Wire>::wire_of(y), None => JsonModel::Null }),
{
    reveal_strlit("last_collection");
    assert("last_collection"@.len() == 15);
    reveal_strlit("broken_level");
    assert("broken_level"@.len() == 12);
    reveal_strlit("font_color");
    assert("font_color"@.len() == 10);
    reveal_strlit("font_size");
    assert("font_size"@.len() == 9);
    reveal_strlit("lang");
    assert("lang"@.len() == 4);
    reveal_strlit("raindrops_sort");
    assert("raindrops_sort"@.len() == 14);
    reveal_strlit("raindrops_view");
    assert("raindrops_view"@.len() == 14);
    let acc0 = Seq::<(Seq<char>, JsonModel)>::empty();
    lemma_lookup_empty("last_collection"@);
    let acc1 = acc0 + opt_entry::<BrokenLevel>("broken_level"@, x.broken_level);
    let acc2 = acc1 + opt_entry::<String>("font_color"@, x.font_color);
    let acc3 = acc2 + opt_entry::<i32>("font_size"@, x.font_size);
    let acc4 = acc3 + opt_entry::<String>("lang"@, x.lang);
    let acc5 = acc4 + opt_entry::<i64>("last_collection"@, x.last_collection);
    let acc6 = acc5 + opt_entry::<String>("raindrops_sort"@, x.raindrops_sort);
    let acc7 = acc6 + opt_entry::<String>("raindrops_view"@, x.raindrops_view);
    lemma_lookup_then_opt_entry::<BrokenLevel>(acc0, "broken_level"@, x.broken_level, "last_collection"@);
    lemma_lookup_then_opt_entry::<String>(acc1, "font_color"@, x.font_color, "last_collection"@);
    lemma_lookup_then_opt_entry::<i32>(acc2, "font_size"@, x.font_size, "last_collection"@);
    lemma_lookup_then_opt_entry::<String>(acc3, "lang"@, x.lang, "last_collection"@);
    lemma_lookup_then_opt_entry::<i64>(acc4, "last_collection"@, x.last_collection, "last_collection"@);
    lemma_lookup_then_opt_entry::<String>(acc5, "raindrops_sort"@, x.raindrops_sort, "last_collection"@);
    lemma_lookup_then_opt_entry::<String>(acc6, "raindrops_view"@, x.raindrops_view, "last_collection"@);
}

/// The `raindrops_sort` member of an encoded `UserConfig`.
pub(crate) proof fn lemma_user_config_raindrops_sort(x: UserConfig)
    ensures
        UserConfig::wire_of(x).field("raindrops_sort"@) == Some(match x.raindrops_sort { Some(y) => <String as Wire>::wire_of(y), None => JsonModel::Null }),
{
    reveal_strlit("raindrops_sort");
    assert("raindrops_sort"@.len() == 14);
    reveal_strlit("broken_level");
    assert("broken_level"@.len() == 12);
    reveal_strlit("font_color");
    assert("font_color"@.len() == 10);
    reveal_strlit("font_size");
    assert("font_size"@.len() == 9);
    reveal_strlit("lang");
    assert("lang"@.len() == 4);
    reveal_strlit("last_collection");
    assert("last_collection"@.len() == 15);
    reveal_strlit("raindrops_view");
    assert("raindrops_view"@[10] != "raindrops_sort"@[10]);
    let acc0 = Seq::<(Seq<char>, JsonModel)>::empty();
    lemma_lookup_empty("raindrops_sort"@);
    let acc1 = acc0 + opt_entry::<BrokenLevel>("broken_level"@, x.broken_level);
    let acc2 = acc1 + opt_entry::<String>("font_color"@, x.font_color);
    let acc3 = acc2 + opt_entry::<i32>("font_size"@, x.font_size);
    let acc4 = acc3 + opt_entry::<String>("lang"@, x.lang);
    let acc5 = acc4 + opt_entry::<i64>("last_collection"@, x.last_collection);
    let acc6 = acc5 + opt_entry::<String>("raindrops_sort"@, x.raindrops_sort);
    let acc7 = acc6 + opt_entry::<String>("raindrops_view"@, x.raindrops_view);
    lemma_lookup_then_opt_entry::<BrokenLevel>(acc0, "broken_level"@, x.broken_level, "raindrops_sort"@);
    lemma_lookup_then_opt_entry::<String>(acc1, "font_color"@, x.font_color, "raindrops_sort"@);
    lemma_lookup_then_opt_entry::<i32>(acc2, "font_size"@, x.font_size, "raindrops_sort"@);
    lemma_lookup_then_opt_entry::<String>(acc3, "lang"@, x.lang, "raindrops_sort"@);
    lemma_lookup_then_opt_entry::<i64>(acc4, "last_collection"@, x.last_collection, "raindrops_sort"@);
    lemma_lookup_then_opt_entry::<String>(acc5, "raindrops_sort"@, x.raindrops_sort, "raindrops_sort"@);
    lemma_lookup_then_opt_entry::<String>(acc6, "raindrops_view"@, x.raindrops_view, "raindrops_sort"@);
}

/// The `raindrops_view` member of an encoded `UserConfig`.
pub(crate) proof fn lemma_user_config_raindrops_view(x: UserConfig)
    ensures
        UserConfig::wire_of(x).field("raindrops_view"@) == Some(match x.raindrops_view { Some(y) => <String as Wire>::wire_of(y), None => JsonModel::Null }),
{
    reveal_strlit("raindrops_view");
    assert("raindrops_view"@.len() == 14);
    reveal_strlit("broken_level");
    assert("broken_level"@.len() == 12);
    reveal_strlit("font_color");
    assert("font_color"@.len() == 10);
    reveal_strlit("font_size");
    assert("font_size"@.len() == 9);
    reveal_strlit("lang");
    assert("lang"@.len() == 4);
    reveal_strlit("last_collection");
    assert("last_collection"@.len() == 15);
    reveal_strlit("raindrops_sort");
    assert("raindrops_sort"@[10] != "raindrops_view"@[10]);
    let acc0 = Seq::<(Seq<char>, JsonModel)>::empty();
    lemma_lookup_empty("raindrops_view"@);
    let acc1 = acc0 + opt_entry::<BrokenLevel>("broken_level"@, x.broken_level);
    let acc2 = acc1 + opt_entry::<String>("font_color"@, x.font_color);
    let acc3 = acc2 + opt_entry::<i32>("font_size"@, x.font_size);
    let acc4 = acc3 + opt_entry::<String>("lang"@, x.lang);
    let acc5 = acc4 + opt_entry::<i64>("last_collection"@, x.last_collection);
    let acc6 = acc5 + opt_entry::<String>("raindrops_sort"@, x.raindrops_sort);
    let acc7 = acc6 + opt_entry::<String>("raindrops_view"@, x.raindrops_view);
    lemma_lookup_then_opt_entry::<BrokenLevel>(acc0, "broken_level"@, x.broken_level, "raindrops_view"@);
    lemma_lookup_then_opt_entry::<String>(acc1, "font_color"@, x.font_color, "raindrops_view"@);
    lemma_lookup_then_opt_entry::<i32>(acc2, "font_size"@, x.font_size, "raindrops_view"@);
    lemma_lookup_then_opt_entry::<String>(acc3, "lang"@, x.lang, "raindrops_view"@);
    lemma_lookup_then_opt_entry::<i64>(acc4, "last_collection"@, x.last_collection, "raindrops_view"@);
    lemma_lookup_then_opt_entry::<String>(acc5, "raindrops_sort"@, x.raindrops_sort, "raindrops_view"@);
    lemma_lookup_then_opt_entry::<String>(acc6, "raindrops_view"@, x.raindrops_view, "raindrops_view"@);
}

/// File storage used by an account.
#[derive(Debug, Clone)]
pub struct FilesInfo {
    pub used: i64,
    pub size: i64,
    pub last_check_point: String,
}

impl Wire for FilesInfo {
    open spec fn wire_ok(j: JsonModel) -> bool {
        &&& j is Object
        &&& req_ok::<i64>(j.field("used"@))
        &&& req_ok::<i64>(j.field("size"@))
        &&& req_ok::<String>(j.field("lastCheckPoint"@))
    }

    open spec fn wire_is(j: JsonModel, x: FilesInfo) -> bool {
        &&& j is Object
        &&& req_is::<i64>(j.field("used"@), x.used)
        &&& req_is::<i64>(j.field("size"@), x.size)
        &&& req_is::<String>(j.field("lastCheckPoint"@), x.last_check_point)
    }

    open spec fn wire_of(x: FilesInfo) -> JsonModel {
        JsonModel::Object(
            Seq::empty()
                + entry::<i64>("used"@, x.used)
                + entry::<i64>("size"@, x.size)
                + entry::<String>("lastCheckPoint"@, x.last_check_point)
        )
    }

    fn decode(j: &Json) -> (r: Result<FilesInfo, String>) {
        match expect_object(j) {
            Ok(()) => {},
            Err(e) => return Err(e),
        }
        let used = match decode_field::<i64>(j, "used") {
            Ok(v) => v,
            Err(e) => return Err(e),
        };
        let size = match decode_field::<i64>(j, "size") {
            Ok(v) => v,
            Err(e) => return Err(e),
        };
        let last_check_point = match decode_field::<String>(j, "lastCheckPoint") {
            Ok(v) => v,
            Err(e) => return Err(e),
        };
        Ok(FilesInfo { used, size, last_check_point })
    }

    fn encode(&self) -> (r: Json) {
        let mut fields = no_fields();
        push_field::<i64>(&mut fields, "used", &self.used);
        push_field::<i64>(&mut fields, "size", &self.size);
        push_field::<String>(&mut fields, "lastCheckPoint", &self.last_check_point);
        object(fields)
    }

    proof fn lemma_round_trip(x: Self) {
        lemma_files_info_used(x);
        <i64 as Wire>::lemma_round_trip(x.used);
        lemma_files_info_size(x);
        <i64 as Wire>::lemma_round_trip(x.size);
        lemma_files_info_last_check_point(x);
        <String as Wire>::lemma_round_trip(x.last_check_point);
        let j = Self::wire_of(x);
        assert(req_ok::<i64>(j.field("used"@)));
        assert(req_ok::<i64>(j.field("size"@)));
        assert(req_ok::<String>(j.field("lastCheckPoint"@)));
        assert(req_is::<i64>(j.field("used"@), x.used));
        assert(req_is::<i64>(j.field("size"@), x.size));
        assert(req_is::<String>(j.field("lastCheckPoint"@), x.last_check_point));
        assert forall|y: Self| #[trigger] Self::wire_is(j, y) implies Self::wire_of(y) == j by {
            assert(entry::<i64>("used"@, y.used) == entry::<i64>("used"@, x.used));
            assert(entry::<i64>("size"@, y.size) == entry::<i64>("size"@, x.size));
            assert(entry::<String>("lastCheckPoint"@, y.last_check_point) == entry::<String>("lastCheckPoint"@, x.last_check_point));
        }
    }
}

/// The `used` member of an encoded `FilesInfo`.
pub(crate) proof fn lemma_files_info_used(x: FilesInfo)
    ensures
        FilesInfo::wire_of(x).field("used"@) == Some(<i64 as Wire>::wire_of(x.used)),
{
    reveal_strlit("used");
    assert("used"@.len() == 4);
    reveal_strlit("size");
    assert("size"@[0] != "used"@[0]);
    reveal_strlit("lastCheckPoint");
    assert("lastCheckPoint"@.len() == 14);
    let acc0 = Seq::<(Seq<char>, JsonModel)>::empty();
    lemma_lookup_empty("used"@);
    let acc1 = acc0 + entry::<i64>("used"@, x.used);
    let acc2 = acc1 + entry::<i64>("size"@, x.size);
    let acc3 = acc2 + entry::<String>("lastCheckPoint"@, x.last_check_point);
    lemma_lookup_then_entry::<i64>(acc0, "used"@, x.used, "used"@);
    lemma_lookup_then_entry::<i64>(acc1, "size"@, x.size, "used"@);
    lemma_lookup_then_entry::<String>(acc2, "lastCheckPoint"@, x.last_check_point, "used"@);
}

/// The `size` member of an encoded `FilesInfo`.
pub(crate) proof fn lemma_files_info_size(x: FilesInfo)
    ensures
        FilesInfo::wire_of(x).field("size"@) == Some(<i64 as Wire>::wire_of(x.size)),
{
    reveal_strlit("size");
    assert("size"@.len() == 4);
    reveal_strlit("used");
    assert("used"@[0] != "size"@[0]);
    reveal_strlit("lastCheckPoint");
    assert("lastCheckPoint"@.len() == 14);
    let acc0 = Seq::<(Seq<char>, JsonModel)>::empty();
    lemma_lookup_empty("size"@);
    let acc1 = acc0 + entry::<i64>("used"@, x.used);
    let acc2 = acc1 + entry::<i64>("size"@, x.size);
    let acc3 = acc2 + entry::<String>("lastCheckPoint"@, x.last_check_point);
    lemma_lookup_then_entry::<i64>(acc0, "used"@, x.used, "size"@);
    lemma_lookup_then_entry::<i64>(acc1, "size"@, x.size, "size"@);
    lemma_lookup_then_entry::<String>(acc2, "lastCheckPoint"@, x.last_check_point, "size"@);
}

/// The `lastCheckPoint` member of an encoded `FilesInfo`.
pub(crate) proof fn lemma_files_info_last_check_point(x: FilesInfo)
    ensures
        FilesInfo::wire_of(x).field("lastCheckPoint"@) == Some(<String as Wire>::wire_of(x.last_check_point)),
{
    reveal_strlit("lastCheckPoint");
    assert("lastCheckPoint"@.len() == 14);
    reveal_strlit("used");
    assert("used"@.len() == 4);
    reveal_strlit("size");
    assert("size"@.len() == 4);
    let acc0 = Seq::<(Seq<char>, JsonModel)>::empty();
    lemma_lookup_empty("lastCheckPoint"@);
    let acc1 = acc0 + entry::<i64>("used"@, x.used);
    let acc2 = acc1 + entry::<i64>("size"@, x.size);
    let acc3 = acc2 + entry::<String>("lastCheckPoint"@, x.last_check_point);
    lemma_lookup_then_entry::<i64>(acc0, "used"@, x.used, "lastCheckPoint"@);
    lemma_lookup_then_entry::<i64>(acc1, "size"@, x.size, "lastCheckPoint"@);
    lemma_lookup_then_entry::<String>(acc2, "lastCheckPoint"@, x.last_check_point, "lastCheckPoint"@);
}

/// Whether a social sign-in is connected.
#[derive(Debug, Clone)]
pub struct SocialConnection {
    pub enabled: bool,
}

impl Wire for SocialConnection {
    open spec fn wire_ok(j: JsonModel) -> bool {
        &&& j is Object
        &&& req_ok::<bool>(j.field("enabled"@))
    }

    open spec fn wire_is(j: JsonModel, x: SocialConnection) -> bool {
        &&& j is Object
        &&& req_is::<bool>(j.field("enabled"@), x.enabled)
    }

    open spec fn wire_of(x: SocialConnection) -> JsonModel {
        JsonModel::Object(
            Seq::empty()
                + entry::<bool>("enabled"@, x.enabled)
        )
    }

    fn decode(j: &Json) -> (r: Result<SocialConnection, String>) {
        match expect_object(j) {
            Ok(()) => {},
            Err(e) => return Err(e),
        }
        let enabled = match decode_field::<bool>(j, "enabled") {
            Ok(v) => v,
            Err(e) => return Err(e),
        };
        Ok(SocialConnection { enabled })
    }

    fn encode(&self) -> (r: Json) {
        let mut fields = no_fields();
        push_field::<bool>(&mut fields, "enabled", &self.enabled);
        object(fields)
    }

    proof fn lemma_round_trip(x: Self) {
        lemma_social_connection_enabled(x);
        <bool as Wire>::lemma_round_trip(x.enabled);
        let j = Self::wire_of(x);
        assert(req_ok::<bool>(j.field("enabled"@)));
        assert(req_is::<bool>(j.field("enabled"@), x.enabled));
        assert forall|y: Self| #[trigger] Self::wire_is(j, y) implies Self::wire_of(y) == j by {
            assert(entry::<bool>("enabled"@, y.enabled) == entry::<bool>("enabled"@, x.enabled));
        }
    }
}

/// The `enabled` member of an encoded `SocialConnection`.
pub(crate) proof fn lemma_social_connection_enabled(x: SocialConnection)
    ensures
        SocialConnection::wire_of(x).field("enabled"@) == Some(<bool as Wire>::wire_of(x.enabled)),
{
    reveal_strlit("enabled");
    assert("enabled"@.len() == 7);
    let acc0 = Seq::<(Seq<char>, JsonModel)>::empty();
    lemma_lookup_empty("enabled"@);
    let acc1 = acc0 + entry::<bool>("enabled"@, x.enabled);
    lemma_lookup_then_entry::<bool>(acc0, "enabled"@, x.enabled, "enabled"@);
}

/// Whether a backup service is connected.
#[derive(Debug, Clone)]
pub struct BackupConnection {
    pub enabled: bool,
}

impl Wire for BackupConnection {
    open spec fn wire_ok(j: JsonModel) -> bool {
        &&& j is Object
        &&& req_ok::<bool>(j.field("enabled"@))
    }

    open spec fn wire_is(j: JsonModel, x: BackupConnection) -> bool {
        &&& j is Object
        &&& req_is::<bool>(j.field("enabled"@), x.enabled)
    }

    open spec fn wire_of(x: BackupConnection) -> JsonModel {
        JsonModel::Object(
            Seq::empty()
                + entry::<bool>("enabled"@, x.enabled)
        )
    }

    fn decode(j: &Json) -> (r: Result<BackupConnection, String>) {
        match expect_object(j) {
            Ok(()) => {},
            Err(e) => return Err(e),
        }
        let enabled = match decode_field::<bool>(j, "enabled") {
            Ok(v) => v,
            Err(e) => return Err(e),
        };
        Ok(BackupConnection { enabled })
    }

    fn encode(&self) -> (r: Json) {
        let mut fields = no_fields();
        push_field::<bool>(&mut fields, "enabled", &self.enabled);
        object(fields)
    }

    proof fn lemma_round_trip(x: Self) {
        lemma_backup_connection_enabled(x);
        <bool as Wire>::lemma_round_trip(x.enabled);
        let j = Self::wire_of(x);
        assert(req_ok::<bool>(j.field("enabled"@)));
        assert(req_is::<bool>(j.field("enabled"@), x.enabled));
        assert forall|y: Self| #[trigger] Self::wire_is(j, y) implies Self::wire_of(y) == j by {
            assert(entry::<bool>("enabled"@, y.enabled) == entry::<bool>("enabled"@, x.enabled));
        }
    }
}

/// The `enabled` member of an encoded `BackupConnection`.
pub(crate) proof fn lemma_backup_connection_enabled(x: BackupConnection)
    ensures
        BackupConnection::wire_of(x).field("enabled"@) == Some(<bool as Wire>::wire_of(x.enabled)),
{
    reveal_strlit("enabled");
    assert("enabled"@.len() == 7);
    let acc0 = Seq::<(Seq<char>, JsonModel)>::empty();
    lemma_lookup_empty("enabled"@);
    let acc1 = acc0 + entry::<bool>("enabled"@, x.enabled);
    lemma_lookup_then_entry::<bool>(acc0, "enabled"@, x.enabled, "enabled"@);
}

/// The envelope around an account.
#[derive(Debug, Clone)]
pub struct UserResponse {
    pub user: User,
}

impl Wire for UserResponse {
    open spec fn wire_ok(j: JsonModel) -> bool {
        &&& j is Object
        &&& req_ok::<User>(j.field("user"@))
    }

    open spec fn wire_is(j: JsonModel, x: UserResponse) -> bool {
        &&& j is Object
        &&& req_is::<User>(j.field("user"@), x.user)
    }

    open spec fn wire_of(x: UserResponse) -> JsonModel {
        JsonModel::Object(
            Seq::empty()
                + entry::<User>("user"@, x.user)
        )
    }

    fn decode(j: &Json) -> (r: Result<UserResponse, String>) {
        match expect_object(j) {
            Ok(()) => {},
            Err(e) => return Err(e),
        }
        let user = match decode_field::<User>(j, "user") {
            Ok(v) => v,
            Err(e) => return Err(e),
        };
        Ok(UserResponse { user })
    }

    fn encode(&self) -> (r: Json) {
        let mut fields = no_fields();
        push_field::<User>(&mut fields, "user", &self.user);
        object(fields)
    }

    proof fn lemma_round_trip(x: Self) {
        lemma_user_response_user(x);
        <User as Wire>::lemma_round_trip(x.user);
        let j = Self::wire_of(x);
        assert(req_ok::<User>(j.field("user"@)));
        assert(req_is::<User>(j.field("user"@), x.user));
        assert forall|y: Self| #[trigger] Self::wire_is(j, y) implies Self::wire_of(y) == j by {
            assert(entry::<User>("user"@, y.user) == entry::<User>("user"@, x.user));
        }
    }
}

/// The `user` member of an encoded `UserResponse`.
pub(crate) proof fn lemma_user_response_user(x: UserResponse)
    ensures
        UserResponse::wire_of(x).field("user"@) == Some(<User as Wire>::wire_of(x.user)),
{
    reveal_strlit("user");
    assert("user"@.len() == 4);
    let acc0 = Seq::<(Seq<char>, JsonModel)>::empty();
    lemma_lookup_empty("user"@);
    let acc1 = acc0 + entry::<User>("user"@, x.user);
    lemma_lookup_then_entry::<User>(acc0, "user"@, x.user, "user"@);
}

} // verus!
