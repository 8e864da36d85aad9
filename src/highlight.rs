//! Highlights.
use crate::json::{Json, JsonModel};
use crate::wire::{lemma_lookup_then_entry, lemma_lookup_then_opt_entry, lemma_opt_round_trip, lemma_lookup_empty, Wire, req_ok, req_is, opt_ok, opt_is, entry, opt_entry, decode_field, decode_opt_field, push_field, push_opt, expect_object, object, no_fields, text_is};
use crate::collection::CollectionRef;
use vstd::prelude::*;
use vstd::string::StringExecFns;

verus! {

/// The color of a highlight.
#[derive(Debug, Clone, Copy, PartialEq, Eq, Structural)]
pub enum HighlightColor {
    Blue,
    Brown,
    Cyan,
    Gray,
    Green,
    Indigo,
    Orange,
    Pink,
    Purple,
    Red,
    Teal,
    Yellow,
}

impl HighlightColor {
    /// The name of this value on the wire.
    pub open spec fn spec_wire_name(self) -> Seq<char> {
        match self {
            HighlightColor::Blue => "blue"@,
            HighlightColor::Brown => "brown"@,
            HighlightColor::Cyan => "cyan"@,
            HighlightColor::Gray => "gray"@,
            HighlightColor::Green => "green"@,
            HighlightColor::Indigo => "indigo"@,
            HighlightColor::Orange => "orange"@,
            HighlightColor::Pink => "pink"@,
            HighlightColor::Purple => "purple"@,
            HighlightColor::Red => "red"@,
            HighlightColor::Teal => "teal"@,
            HighlightColor::Yellow => "yellow"@,
        }
    }

    /// The value named `s` on the wire, if any.
    pub open spec fn spec_from_wire_name(s: Seq<char>) -> Option<Self> {
        if s == "blue"@ {
            Some(HighlightColor::Blue)
        } else if s == "brown"@ {
            Some(HighlightColor::Brown)
        } else if s == "cyan"@ {
            Some(HighlightColor::Cyan)
        } else if s == "gray"@ {
            Some(HighlightColor::Gray)
        } else if s == "green"@ {
            Some(HighlightColor::Green)
        } else if s == "indigo"@ {
            Some(HighlightColor::Indigo)
        } else if s == "orange"@ {
            Some(HighlightColor::Orange)
        } else if s == "pink"@ {
            Some(HighlightColor::Pink)
        } else if s == "purple"@ {
            Some(HighlightColor::Purple)
        } else if s == "red"@ {
            Some(HighlightColor::Red)
        } else if s == "teal"@ {
            Some(HighlightColor::Teal)
        } else if s == "yellow"@ {
            Some(HighlightColor::Yellow)
        } else {
            None
        }
    }

    /// The name of this value on the wire.
    pub fn wire_name(&self) -> (r: &'static str)
        ensures
            r@ == self.spec_wire_name(),
    {
        match self {
            HighlightColor::Blue => "blue",
            HighlightColor::Brown => "brown",
            HighlightColor::Cyan => "cyan",
            HighlightColor::Gray => "gray",
            HighlightColor::Green => "green",
            HighlightColor::Indigo => "indigo",
            HighlightColor::Orange => "orange",
            HighlightColor::Pink => "pink",
            HighlightColor::Purple => "purple",
            HighlightColor::Red => "red",
            HighlightColor::Teal => "teal",
            HighlightColor::Yellow => "yellow",
        }
    }

    /// The value named `s` on the wire, if any.
    pub fn from_wire_name(s: &str) -> (r: Option<Self>)
        ensures
            r == Self::spec_from_wire_name(s@),
    {
        if text_is(s, "blue") {
            Some(HighlightColor::Blue)
        } else if text_is(s, "brown") {
            Some(HighlightColor::Brown)
        } else if text_is(s, "cyan") {
            Some(HighlightColor::Cyan)
        } else if text_is(s, "gray") {
            Some(HighlightColor::Gray)
        } else if text_is(s, "green") {
            Some(HighlightColor::Green)
        } else if text_is(s, "indigo") {
            Some(HighlightColor::Indigo)
        } else if text_is(s, "orange") {
            Some(HighlightColor::Orange)
        } else if text_is(s, "pink") {
            Some(HighlightColor::Pink)
        } else if text_is(s, "purple") {
            Some(HighlightColor::Purple)
        } else if text_is(s, "red") {
            Some(HighlightColor::Red)
        } else if text_is(s, "teal") {
            Some(HighlightColor::Teal)
        } else if text_is(s, "yellow") {
            Some(HighlightColor::Yellow)
        } else {
            None
        }
    }
}

impl Wire for HighlightColor {
    open spec fn wire_ok(j: JsonModel) -> bool {
        j matches JsonModel::Str(s) && Self::spec_from_wire_name(s) is Some
    }

    open spec fn wire_is(j: JsonModel, x: HighlightColor) -> bool {
        j matches JsonModel::Str(s) && Self::spec_from_wire_name(s) == Some(x)
    }

    open spec fn wire_of(x: HighlightColor) -> JsonModel {
        JsonModel::Str(x.spec_wire_name())
    }

    fn decode(j: &Json) -> (r: Result<HighlightColor, String>) {
        match j {
            Json::Str(s) => match Self::from_wire_name(s.as_str()) {
                Some(v) => Ok(v),
                None => Err(String::from_str("unknown variant of HighlightColor")),
            },
            _ => Err(String::from_str("expected a string")),
        }
    }

    fn encode(&self) -> (r: Json) {
        Json::Str(String::from_str(self.wire_name()))
    }

    proof fn lemma_round_trip(x: Self) {
        reveal_strlit("blue");
        reveal_strlit("brown");
        reveal_strlit("cyan");
        reveal_strlit("gray");
        reveal_strlit("green");
        reveal_strlit("indigo");
        reveal_strlit("orange");
        reveal_strlit("pink");
        reveal_strlit("purple");
        reveal_strlit("red");
        reveal_strlit("teal");
        reveal_strlit("yellow");
        assert("blue"@.len() == 4);
        assert("brown"@.len() == 5);
        assert("cyan"@.len() == 4);
        assert("gray"@.len() == 4);
        assert("green"@.len() == 5);
        assert("indigo"@.len() == 6);
        assert("orange"@.len() == 6);
        assert("pink"@.len() == 4);
        assert("purple"@.len() == 6);
        assert("red"@.len() == 3);
        assert("teal"@.len() == 4);
        assert("yellow"@.len() == 6);
        assert("blue"@[0] != "cyan"@[0]);
        assert("blue"@[0] != "gray"@[0]);
        assert("blue"@[0] != "pink"@[0]);
        assert("blue"@[0] != "teal"@[0]);
        assert("brown"@[0] != "green"@[0]);
        assert("cyan"@[0] != "gray"@[0]);
        assert("cyan"@[0] != "pink"@[0]);
        assert("cyan"@[0] != "teal"@[0]);
        assert("gray"@[0] != "pink"@[0]);
        assert("gray"@[0] != "teal"@[0]);
        assert("indigo"@[0] != "orange"@[0]);
        assert("indigo"@[0] != "purple"@[0]);
        assert("indigo"@[0] != "yellow"@[0]);
        assert("orange"@[0] != "purple"@[0]);
        assert("orange"@[0] != "yellow"@[0]);
        assert("pink"@[0] != "teal"@[0]);
        assert("purple"@[0] != "yellow"@[0]);
        match x {
            HighlightColor::Blue => {},
            HighlightColor::Brown => {},
            HighlightColor::Cyan => {},
            HighlightColor::Gray => {},
            HighlightColor::Green => {},
            HighlightColor::Indigo => {},
            HighlightColor::Orange => {},
            HighlightColor::Pink => {},
            HighlightColor::Purple => {},
            HighlightColor::Red => {},
            HighlightColor::Teal => {},
            HighlightColor::Yellow => {},
        }
    }
}

/// A highlighted passage of a bookmarked page.
#[derive(Debug, Clone)]
pub struct Highlight {
    pub id: String,
    pub text: String,
    pub note: Option<String>,
    pub color: Option<HighlightColor>,
    pub created: String,
    pub last_update: Option<String>,
    pub title: Option<String>,
    pub tags: Option<Vec<String>>,
    pub link: Option<String>,
    pub domain: Option<String>,
    pub excerpt: Option<String>,
    pub raindrop: RaindropRef,
}

impl Wire for Highlight {
    open spec fn wire_ok(j: JsonModel) -> bool {
        &&& j is Object
        &&& req_ok::<String>(j.field("_id"@))
        &&& req_ok::<String>(j.field("text"@))
        &&& opt_ok::<String>(j.field("note"@))
        &&& opt_ok::<HighlightColor>(j.field("color"@))
        &&& req_ok::<String>(j.field("created"@))
        &&& opt_ok::<String>(j.field("lastUpdate"@))
        &&& opt_ok::<String>(j.field("title"@))
        &&& opt_ok::<Vec<String>>(j.field("tags"@))
        &&& opt_ok::<String>(j.field("link"@))
        &&& opt_ok::<String>(j.field("domain"@))
        &&& opt_ok::<String>(j.field("excerpt"@))
        &&& req_ok::<RaindropRef>(j.field("raindrop"@))
    }

    open spec fn wire_is(j: JsonModel, x: Highlight) -> bool {
        &&& j is Object
        &&& req_is::<String>(j.field("_id"@), x.id)
        &&& req_is::<String>(j.field("text"@), x.text)
        &&& opt_is::<String>(j.field("note"@), x.note)
        &&& opt_is::<HighlightColor>(j.field("color"@), x.color)
        &&& req_is::<String>(j.field("created"@), x.created)
        &&& opt_is::<String>(j.field("lastUpdate"@), x.last_update)
        &&& opt_is::<String>(j.field("title"@), x.title)
        &&& opt_is::<Vec<String>>(j.field("tags"@), x.tags)
        &&& opt_is::<String>(j.field("link"@), x.link)
        &&& opt_is::<String>(j.field("domain"@), x.domain)
        &&& opt_is::<String>(j.field("excerpt"@), x.excerpt)
        &&& req_is::<RaindropRef>(j.field("raindrop"@), x.raindrop)
    }

    open spec fn wire_of(x: Highlight) -> JsonModel {
        JsonModel::Object(
            Seq::empty()
                + entry::<String>("_id"@, x.id)
                + entry::<String>("text"@, x.text)
                + opt_entry::<String>("note"@, x.note)
                + opt_entry::<HighlightColor>("color"@, x.color)
                + entry::<String>("created"@, x.created)
                + opt_entry::<String>("lastUpdate"@, x.last_update)
                + opt_entry::<String>("title"@, x.title)
                + opt_entry::<Vec<String>>("tags"@, x.tags)
                + opt_entry::<String>("link"@, x.link)
                + opt_entry::<String>("domain"@, x.domain)
                + opt_entry::<String>("excerpt"@, x.excerpt)
                + entry::<RaindropRef>("raindrop"@, x.raindrop)
        )
    }

    fn decode(j: &Json) -> (r: Result<Highlight, String>) {
        match expect_object(j) {
            Ok(()) => {},
            Err(e) => return Err(e),
        }
        let id = match decode_field::<String>(j, "_id") {
            Ok(v) => v,
            Err(e) => return Err(e),
        };
        let text = match decode_field::<String>(j, "text") {
            Ok(v) => v,
            Err(e) => return Err(e),
        };
        let note = match decode_opt_field::<String>(j, "note") {
            Ok(v) => v,
            Err(e) => return Err(e),
        };
        let color = match decode_opt_field::<HighlightColor>(j, "color") {
            Ok(v) => v,
            Err(e) => return Err(e),
        };
        let created = match decode_field::<String>(j, "created") {
            Ok(v) => v,
            Err(e) => return Err(e),
        };
        let last_update = match decode_opt_field::<String>(j, "lastUpdate") {
            Ok(v) => v,
            Err(e) => return Err(e),
        };
        let title = match decode_opt_field::<String>(j, "title") {
            Ok(v) => v,
            Err(e) => return Err(e),
        };
        let tags = match decode_opt_field::<Vec<String>>(j, "tags") {
            Ok(v) => v,
            Err(e) => return Err(e),
        };
        let link = match decode_opt_field::<String>(j, "link") {
            Ok(v) => v,
            Err(e) => return Err(e),
        };
        let domain = match decode_opt_field::<String>(j, "domain") {
            Ok(v) => v,
            Err(e) => return Err(e),
        };
        let excerpt = match decode_opt_field::<String>(j, "excerpt") {
            Ok(v) => v,
            Err(e) => return Err(e),
        };
        let raindrop = match decode_field::<RaindropRef>(j, "raindrop") {
            Ok(v) => v,
            Err(e) => return Err(e),
        };
        Ok(Highlight { id, text, note, color, created, last_update, title, tags, link, domain, excerpt, raindrop })
    }

    fn encode(&self) -> (r: Json) {
        let mut fields = no_fields();
        push_field::<String>(&mut fields, "_id", &self.id);
        push_field::<String>(&mut fields, "text", &self.text);
        push_opt::<String>(&mut fields, "note", &self.note);
        push_opt::<HighlightColor>(&mut fields, "color", &self.color);
        push_field::<String>(&mut fields, "created", &self.created);
        push_opt::<String>(&mut fields, "lastUpdate", &self.last_update);
        push_opt::<String>(&mut fields, "title", &self.title);
        push_opt::<Vec<String>>(&mut fields, "tags", &self.tags);
        push_opt::<String>(&mut fields, "link", &self.link);
        push_opt::<String>(&mut fields, "domain", &self.domain);
        push_opt::<String>(&mut fields, "excerpt", &self.excerpt);
        push_field::<RaindropRef>(&mut fields, "raindrop", &self.raindrop);
        object(fields)
    }

    proof fn lemma_round_trip(x: Self) {
        lemma_highlight_id(x);
        <String as Wire>::lemma_round_trip(x.id);
        lemma_highlight_text(x);
        <String as Wire>::lemma_round_trip(x.text);
        lemma_highlight_note(x);
        lemma_opt_round_trip::<String>(x.note);
        lemma_highlight_color(x);
        lemma_opt_round_trip::<HighlightColor>(x.color);
        lemma_highlight_created(x);
        <String as Wire>::lemma_round_trip(x.created);
        lemma_highlight_last_update(x);
        lemma_opt_round_trip::<String>(x.last_update);
        lemma_highlight_title(x);
        lemma_opt_round_trip::<String>(x.title);
        lemma_highlight_tags(x);
        lemma_opt_round_trip::<Vec<String>>(x.tags);
        lemma_highlight_link(x);
        lemma_opt_round_trip::<String>(x.link);
        lemma_highlight_domain(x);
        lemma_opt_round_trip::<String>(x.domain);
        lemma_highlight_excerpt(x);
        lemma_opt_round_trip::<String>(x.excerpt);
        lemma_highlight_raindrop(x);
        <RaindropRef as Wire>::lemma_round_trip(x.raindrop);
        let j = Self::wire_of(x);
        assert(req_ok::<String>(j.field("_id"@)));
        assert(req_ok::<String>(j.field("text"@)));
        assert(opt_ok::<String>(j.field("note"@)));
        assert(opt_ok::<HighlightColor>(j.field("color"@)));
        assert(req_ok::<String>(j.field("created"@)));
        assert(opt_ok::<String>(j.field("lastUpdate"@)));
        assert(opt_ok::<String>(j.field("title"@)));
        assert(opt_ok::<Vec<String>>(j.field("tags"@)));
        assert(opt_ok::<String>(j.field("link"@)));
        assert(opt_ok::<String>(j.field("domain"@)));
        assert(opt_ok::<String>(j.field("excerpt"@)));
        assert(req_ok::<RaindropRef>(j.field("raindrop"@)));
        assert(req_is::<String>(j.field("_id"@), x.id));
        assert(req_is::<String>(j.field("text"@), x.text));
        assert(opt_is::<String>(j.field("note"@), x.note));
        assert(opt_is::<HighlightColor>(j.field("color"@), x.color));
        assert(req_is::<String>(j.field("created"@), x.created));
        assert(opt_is::<String>(j.field("lastUpdate"@), x.last_update));
        assert(opt_is::<String>(j.field("title"@), x.title));
        assert(opt_is::<Vec<String>>(j.field("tags"@), x.tags));
        assert(opt_is::<String>(j.field("link"@), x.link));
        assert(opt_is::<String>(j.field("domain"@), x.domain));
        assert(opt_is::<String>(j.field("excerpt"@), x.excerpt));
        assert(req_is::<RaindropRef>(j.field("raindrop"@), x.raindrop));
        assert forall|y: Self| #[trigger] Self::wire_is(j, y) implies Self::wire_of(y) == j by {
            assert(entry::<String>("_id"@, y.id) == entry::<String>("_id"@, x.id));
            assert(entry::<String>("text"@, y.text) == entry::<String>("text"@, x.text));
            assert(opt_entry::<String>("note"@, y.note) == opt_entry::<String>("note"@, x.note));
            assert(opt_entry::<HighlightColor>("color"@, y.color) == opt_entry::<HighlightColor>("color"@, x.color));
            assert(entry::<String>("created"@, y.created) == entry::<String>("created"@, x.created));
            assert(opt_entry::<String>("lastUpdate"@, y.last_update) == opt_entry::<String>("lastUpdate"@, x.last_update));
            assert(opt_entry::<String>("title"@, y.title) == opt_entry::<String>("title"@, x.title));
            assert(opt_entry::<Vec<String>>("tags"@, y.tags) == opt_entry::<Vec<String>>("tags"@, x.tags));
            assert(opt_entry::<String>("link"@, y.link) == opt_entry::<String>("link"@, x.link));
            assert(opt_entry::<String>("domain"@, y.domain) == opt_entry::<String>("domain"@, x.domain));
            assert(opt_entry::<String>("excerpt"@, y.excerpt) == opt_entry::<String>("excerpt"@, x.excerpt));
            assert(entry::<RaindropRef>("raindrop"@, y.raindrop) == entry::<RaindropRef>("raindrop"@, x.raindrop));
        }
    }
}

/// The `_id` member of an encoded `Highlight`.
pub(crate) proof fn lemma_highlight_id(x: Highlight)
    ensures
        Highlight::wire_of(x).field("_id"@) == Some(<String as Wire>::wire_of(x.id)),
{
    reveal_strlit("_id");
    assert("_id"@.len() == 3);
    reveal_strlit("text");
    assert("text"@.len() == 4);
    reveal_strlit("note");
    assert("note"@.len() == 4);
    reveal_strlit("color");
    assert("color"@.len() == 5);
    reveal_strlit("created");
    assert("created"@.len() == 7);
    reveal_strlit("lastUpdate");
    assert("lastUpdate"@.len() == 10);
    reveal_strlit("title");
    assert("title"@.len() == 5);
    reveal_strlit("tags");
    assert("tags"@.len() == 4);
    reveal_strlit("link");
    assert("link"@.len() == 4);
    reveal_strlit("domain");
    assert("domain"@.len() == 6);
    reveal_strlit("excerpt");
    assert("excerpt"@.len() == 7);
    reveal_strlit("raindrop");
    assert("raindrop"@.len() == 8);
    let acc0 = Seq::<(Seq<char>, JsonModel)>::empty();
    lemma_lookup_empty("_id"@);
    let acc1 = acc0 + entry::<String>("_id"@, x.id);
    let acc2 = acc1 + entry::<String>("text"@, x.text);
    let acc3 = acc2 + opt_entry::<String>("note"@, x.note);
    let acc4 = acc3 + opt_entry::<HighlightColor>("color"@, x.color);
    let acc5 = acc4 + entry::<String>("created"@, x.created);
    let acc6 = acc5 + opt_entry::<String>("lastUpdate"@, x.last_update);
    let acc7 = acc6 + opt_entry::<String>("title"@, x.title);
    let acc8 = acc7 + opt_entry::<Vec<String>>("tags"@, x.tags);
    let acc9 = acc8 + opt_entry::<String>("link"@, x.link);
    let acc10 = acc9 + opt_entry::<String>("domain"@, x.domain);
    let acc11 = acc10 + opt_entry::<String>("excerpt"@, x.excerpt);
    let acc12 = acc11 + entry::<RaindropRef>("raindrop"@, x.raindrop);
    lemma_lookup_then_entry::<String>(acc0, "_id"@, x.id, "_id"@);
    lemma_lookup_then_entry::<String>(acc1, "text"@, x.text, "_id"@);
    lemma_lookup_then_opt_entry::<String>(acc2, "note"@, x.note, "_id"@);
    lemma_lookup_then_opt_entry::<HighlightColor>(acc3, "color"@, x.color, "_id"@);
    lemma_lookup_then_entry::<String>(acc4, "created"@, x.created, "_id"@);
    lemma_lookup_then_opt_entry::<String>(acc5, "lastUpdate"@, x.last_update, "_id"@);
    lemma_lookup_then_opt_entry::<String>(acc6, "title"@, x.title, "_id"@);
    lemma_lookup_then_opt_entry::<Vec<String>>(acc7, "tags"@, x.tags, "_id"@);
    lemma_lookup_then_opt_entry::<String>(acc8, "link"@, x.link, "_id"@);
    lemma_lookup_then_opt_entry::<String>(acc9, "domain"@, x.domain, "_id"@);
    lemma_lookup_then_opt_entry::<String>(acc10, "excerpt"@, x.excerpt, "_id"@);
    lemma_lookup_then_entry::<RaindropRef>(acc11, "raindrop"@, x.raindrop, "_id"@);
}

/// The `text` member of an encoded `Highlight`.
pub(crate) proof fn lemma_highlight_text(x: Highlight)
    ensures
        Highlight::wire_of(x).field("text"@) == Some(<String as Wire>::wire_of(x.text)),
{
    reveal_strlit("text");
    assert("text"@.len() == 4);
    reveal_strlit("_id");
    assert("_id"@.len() == 3);
    reveal_strlit("note");
    assert("note"@[0] != "text"@[0]);
    reveal_strlit("color");
    assert("color"@.len() == 5);
    reveal_strlit("created");
    assert("created"@.len() == 7);
    reveal_strlit("lastUpdate");
    assert("lastUpdate"@.len() == 10);
    reveal_strlit("title");
    assert("title"@.len() == 5);
    reveal_strlit("tags");
    assert("tags"@[1] != "text"@[1]);
    reveal_strlit("link");
    assert("link"@[0] != "text"@[0]);
    reveal_strlit("domain");
    assert("domain"@.len() == 6);
    reveal_strlit("excerpt");
    assert("excerpt"@.len() == 7);
    reveal_strlit("raindrop");
    assert("raindrop"@.len() == 8);
    let acc0 = Seq::<(Seq<char>, JsonModel)>::empty();
    lemma_lookup_empty("text"@);
    let acc1 = acc0 + entry::<String>("_id"@, x.id);
    let acc2 = acc1 + entry::<String>("text"@, x.text);
    let acc3 = acc2 + opt_entry::<String>("note"@, x.note);
    let acc4 = acc3 + opt_entry::<HighlightColor>("color"@, x.color);
    let acc5 = acc4 + entry::<String>("created"@, x.created);
    let acc6 = acc5 + opt_entry::<String>("lastUpdate"@, x.last_update);
    let acc7 = acc6 + opt_entry::<String>("title"@, x.title);
    let acc8 = acc7 + opt_entry::<Vec<String>>("tags"@, x.tags);
    let acc9 = acc8 + opt_entry::<String>("link"@, x.link);
    let acc10 = acc9 + opt_entry::<String>("domain"@, x.domain);
    let acc11 = acc10 + opt_entry::<String>("excerpt"@, x.excerpt);
    let acc12 = acc11 + entry::<RaindropRef>("raindrop"@, x.raindrop);
    lemma_lookup_then_entry::<String>(acc0, "_id"@, x.id, "text"@);
    lemma_lookup_then_entry::<String>(acc1, "text"@, x.text, "text"@);
    lemma_lookup_then_opt_entry::<String>(acc2, "note"@, x.note, "text"@);
    lemma_lookup_then_opt_entry::<HighlightColor>(acc3, "color"@, x.color, "text"@);
    lemma_lookup_then_entry::<String>(acc4, "created"@, x.created, "text"@);
    lemma_lookup_then_opt_entry::<String>(acc5, "lastUpdate"@, x.last_update, "text"@);
    lemma_lookup_then_opt_entry::<String>(acc6, "title"@, x.title, "text"@);
    lemma_lookup_then_opt_entry::<Vec<String>>(acc7, "tags"@, x.tags, "text"@);
    lemma_lookup_then_opt_entry::<String>(acc8, "link"@, x.link, "text"@);
    lemma_lookup_then_opt_entry::<String>(acc9, "domain"@, x.domain, "text"@);
    lemma_lookup_then_opt_entry::<String>(acc10, "excerpt"@, x.excerpt, "text"@);
    lemma_lookup_then_entry::<RaindropRef>(acc11, "raindrop"@, x.raindrop, "text"@);
}

/// The `note` member of an encoded `Highlight`.
pub(crate) proof fn lemma_highlight_note(x: Highlight)
    ensures
        Highlight::wire_of(x).field("note"@) == Some(match x.note { Some(y) => <String as Wire>::wire_of(y), None => JsonModel::Null }),
{
    reveal_strlit("note");
    assert("note"@.len() == 4);
    reveal_strlit("_id");
    assert("_id"@.len() == 3);
    reveal_strlit("text");
    assert("text"@[0] != "note"@[0]);
    reveal_strlit("color");
    assert("color"@.len() == 5);
    reveal_strlit("created");
    assert("created"@.len() == 7);
    reveal_strlit("lastUpdate");
    assert("lastUpdate"@.len() == 10);
    reveal_strlit("title");
    assert("title"@.len() == 5);
    reveal_strlit("tags");
    assert("tags"@[0] != "note"@[0]);
    reveal_strlit("link");
    assert("link"@[0] != "note"@[0]);
    reveal_strlit("domain");
    assert("domain"@.len() == 6);
    reveal_strlit("excerpt");
    assert("excerpt"@.len() == 7);
    reveal_strlit("raindrop");
    assert("raindrop"@.len() == 8);
    let acc0 = Seq::<(Seq<char>, JsonModel)>::empty();
    lemma_lookup_empty("note"@);
    let acc1 = acc0 + entry::<String>("_id"@, x.id);
    let acc2 = acc1 + entry::<String>("text"@, x.text);
    let acc3 = acc2 + opt_entry::<String>("note"@, x.note);
    let acc4 = acc3 + opt_entry::<HighlightColor>("color"@, x.color);
    let acc5 = acc4 + entry::<String>("created"@, x.created);
    let acc6 = acc5 + opt_entry::<String>("lastUpdate"@, x.last_update);
    let acc7 = acc6 + opt_entry::<String>("title"@, x.title);
    let acc8 = acc7 + opt_entry::<Vec<String>>("tags"@, x.tags);
    let acc9 = acc8 + opt_entry::<String>("link"@, x.link);
    let acc10 = acc9 + opt_entry::<String>("domain"@, x.domain);
    let acc11 = acc10 + opt_entry::<String>("excerpt"@, x.excerpt);
    let acc12 = acc11 + entry::<RaindropRef>("raindrop"@, x.raindrop);
    lemma_lookup_then_entry::<String>(acc0, "_id"@, x.id, "note"@);
    lemma_lookup_then_entry::<String>(acc1, "text"@, x.text, "note"@);
    lemma_lookup_then_opt_entry::<String>(acc2, "note"@, x.note, "note"@);
    lemma_lookup_then_opt_entry::<HighlightColor>(acc3, "color"@, x.color, "note"@);
    lemma_lookup_then_entry::<String>(acc4, "created"@, x.created, "note"@);
    lemma_lookup_then_opt_entry::<String>(acc5, "lastUpdate"@, x.last_update, "note"@);
    lemma_lookup_then_opt_entry::<String>(acc6, "title"@, x.title, "note"@);
    lemma_lookup_then_opt_entry::<Vec<String>>(acc7, "tags"@, x.tags, "note"@);
    lemma_lookup_then_opt_entry::<String>(acc8, "link"@, x.link, "note"@);
    lemma_lookup_then_opt_entry::<String>(acc9, "domain"@, x.domain, "note"@);
    lemma_lookup_then_opt_entry::<String>(acc10, "excerpt"@, x.excerpt, "note"@);
    lemma_lookup_then_entry::<RaindropRef>(acc11, "raindrop"@, x.raindrop, "note"@);
}

/// The `color` member of an encoded `Highlight`.
pub(crate) proof fn lemma_highlight_color(x: Highlight)
    ensures
        Highlight::wire_of(x).field("color"@) == Some(match x.color { Some(y) => <HighlightColor as Wire>::wire_of(y), None => JsonModel::Null }),
{
    reveal_strlit("color");
    assert("color"@.len() == 5);
    reveal_strlit("_id");
    assert("_id"@.len() == 3);
    reveal_strlit("text");
    assert("text"@.len() == 4);
    reveal_strlit("note");
    assert("note"@.len() == 4);
    reveal_strlit("created");
    assert("created"@.len() == 7);
    reveal_strlit("lastUpdate");
    assert("lastUpdate"@.len() == 10);
    reveal_strlit("title");
    assert("title"@[0] != "color"@[0]);
    reveal_strlit("tags");
    assert("tags"@.len() == 4);
    reveal_strlit("link");
    assert("link"@.len() == 4);
    reveal_strlit("domain");
    assert("domain"@.len() == 6);
    reveal_strlit("excerpt");
    assert("excerpt"@.len() == 7);
    reveal_strlit("raindrop");
    assert("raindrop"@.len() == 8);
    let acc0 = Seq::<(Seq<char>, JsonModel)>::empty();
    lemma_lookup_empty("color"@);
    let acc1 = acc0 + entry::<String>("_id"@, x.id);
    let acc2 = acc1 + entry::<String>("text"@, x.text);
    let acc3 = acc2 + opt_entry::<String>("note"@, x.note);
    let acc4 = acc3 + opt_entry::<HighlightColor>("color"@, x.color);
    let acc5 = acc4 + entry::<String>("created"@, x.created);
    let acc6 = acc5 + opt_entry::<String>("lastUpdate"@, x.last_update);
    let acc7 = acc6 + opt_entry::<String>("title"@, x.title);
    let acc8 = acc7 + opt_entry::<Vec<String>>("tags"@, x.tags);
    let acc9 = acc8 + opt_entry::<String>("link"@, x.link);
    let acc10 = acc9 + opt_entry::<String>("domain"@, x.domain);
    let acc11 = acc10 + opt_entry::<String>("excerpt"@, x.excerpt);
    let acc12 = acc11 + entry::<RaindropRef>("raindrop"@, x.raindrop);
    lemma_lookup_then_entry::<String>(acc0, "_id"@, x.id, "color"@);
    lemma_lookup_then_entry::<String>(acc1, "text"@, x.text, "color"@);
    lemma_lookup_then_opt_entry::<String>(acc2, "note"@, x.note, "color"@);
    lemma_lookup_then_opt_entry::<HighlightColor>(acc3, "color"@, x.color, "color"@);
    lemma_lookup_then_entry::<String>(acc4, "created"@, x.created, "color"@);
    lemma_lookup_then_opt_entry::<String>(acc5, "lastUpdate"@, x.last_update, "color"@);
    lemma_lookup_then_opt_entry::<String>(acc6, "title"@, x.title, "color"@);
    lemma_lookup_then_opt_entry::<Vec<String>>(acc7, "tags"@, x.tags, "color"@);
    lemma_lookup_then_opt_entry::<String>(acc8, "link"@, x.link, "color"@);
    lemma_lookup_then_opt_entry::<String>(acc9, "domain"@, x.domain, "color"@);
    lemma_lookup_then_opt_entry::<String>(acc10, "excerpt"@, x.excerpt, "color"@);
    lemma_lookup_then_entry::<RaindropRef>(acc11, "raindrop"@, x.raindrop, "color"@);
}

/// The `created` member of an encoded `Highlight`.
pub(crate) proof fn lemma_highlight_created(x: Highlight)
    ensures
        Highlight::wire_of(x).field("created"@) == Some(<String as Wire>::wire_of(x.created)),
{
    reveal_strlit("created");
    assert("created"@.len() == 7);
    reveal_strlit("_id");
    assert("_id"@.len() == 3);
    reveal_strlit("text");
    assert("text"@.len() == 4);
    reveal_strlit("note");
    assert("note"@.len() == 4);
    reveal_strlit("color");
    assert("color"@.len() == 5);
    reveal_strlit("lastUpdate");
    assert("lastUpdate"@.len() == 10);
    reveal_strlit("title");
    assert("title"@.len() == 5);
    reveal_strlit("tags");
    assert("tags"@.len() == 4);
    reveal_strlit("link");
    assert("link"@.len() == 4);
    reveal_strlit("domain");
    assert("domain"@.len() == 6);
    reveal_strlit("excerpt");
    assert("excerpt"@[0] != "created"@[0]);
    reveal_strlit("raindrop");
    assert("raindrop"@.len() == 8);
    let acc0 = Seq::<(Seq<char>, JsonModel)>::empty();
    lemma_lookup_empty("created"@);
    let acc1 = acc0 + entry::<String>("_id"@, x.id);
    let acc2 = acc1 + entry::<String>("text"@, x.text);
    let acc3 = acc2 + opt_entry::<String>("note"@, x.note);
    let acc4 = acc3 + opt_entry::<HighlightColor>("color"@, x.color);
    let acc5 = acc4 + entry::<String>("created"@, x.created);
    let acc6 = acc5 + opt_entry::<String>("lastUpdate"@, x.last_update);
    let acc7 = acc6 + opt_entry::<String>("title"@, x.title);
    let acc8 = acc7 + opt_entry::<Vec<String>>("tags"@, x.tags);
    let acc9 = acc8 + opt_entry::<String>("link"@, x.link);
    let acc10 = acc9 + opt_entry::<String>("domain"@, x.domain);
    let acc11 = acc10 + opt_entry::<String>("excerpt"@, x.excerpt);
    let acc12 = acc11 + entry::<RaindropRef>("raindrop"@, x.raindrop);
    lemma_lookup_then_entry::<String>(acc0, "_id"@, x.id, "created"@);
    lemma_lookup_then_entry::<String>(acc1, "text"@, x.text, "created"@);
    lemma_lookup_then_opt_entry::<String>(acc2, "note"@, x.note, "created"@);
    lemma_lookup_then_opt_entry::<HighlightColor>(acc3, "color"@, x.color, "created"@);
    lemma_lookup_then_entry::<String>(acc4, "created"@, x.created, "created"@);
    lemma_lookup_then_opt_entry::<String>(acc5, "lastUpdate"@, x.last_update, "created"@);
    lemma_lookup_then_opt_entry::<String>(acc6, "title"@, x.title, "created"@);
    lemma_lookup_then_opt_entry::<Vec<String>>(acc7, "tags"@, x.tags, "created"@);
    lemma_lookup_then_opt_entry::<String>(acc8, "link"@, x.link, "created"@);
    lemma_lookup_then_opt_entry::<String>(acc9, "domain"@, x.domain, "created"@);
    lemma_lookup_then_opt_entry::<String>(acc10, "excerpt"@, x.excerpt, "created"@);
    lemma_lookup_then_entry::<RaindropRef>(acc11, "raindrop"@, x.raindrop, "created"@);
}

/// The `lastUpdate` member of an encoded `Highlight`.
pub(crate) proof fn lemma_highlight_last_update(x: Highlight)
    ensures
        Highlight::wire_of(x).field("lastUpdate"@) == Some(match x.last_update { Some(y) => <String as Wire>::wire_of(y), None => JsonModel::Null }),
{
    reveal_strlit("lastUpdate");
    assert("lastUpdate"@.len() == 10);
    reveal_strlit("_id");
    assert("_id"@.len() == 3);
    reveal_strlit("text");
    assert("text"@.len() == 4);
    reveal_strlit("note");
    assert("note"@.len() == 4);
    reveal_strlit("color");
    assert("color"@.len() == 5);
    reveal_strlit("created");
    assert("created"@.len() == 7);
    reveal_strlit("title");
    assert("title"@.len() == 5);
    reveal_strlit("tags");
    assert("tags"@.len() == 4);
    reveal_strlit("link");
    assert("link"@.len() == 4);
    reveal_strlit("domain");
    assert("domain"@.len() == 6);
    reveal_strlit("excerpt");
    assert("excerpt"@.len() == 7);
    reveal_strlit("raindrop");
    assert("raindrop"@.len() == 8);
    let acc0 = Seq::<(Seq<char>, JsonModel)>::empty();
    lemma_lookup_empty("lastUpdate"@);
    let acc1 = acc0 + entry::<String>("_id"@, x.id);
    let acc2 = acc1 + entry::<String>("text"@, x.text);
    let acc3 = acc2 + opt_entry::<String>("note"@, x.note);
    let acc4 = acc3 + opt_entry::<HighlightColor>("color"@, x.color);
    let acc5 = acc4 + entry::<String>("created"@, x.created);
    let acc6 = acc5 + opt_entry::<String>("lastUpdate"@, x.last_update);
    let acc7 = acc6 + opt_entry::<String>("title"@, x.title);
    let acc8 = acc7 + opt_entry::<Vec<String>>("tags"@, x.tags);
    let acc9 = acc8 + opt_entry::<String>("link"@, x.link);
    let acc10 = acc9 + opt_entry::<String>("domain"@, x.domain);
    let acc11 = acc10 + opt_entry::<String>("excerpt"@, x.excerpt);
    let acc12 = acc11 + entry::<RaindropRef>("raindrop"@, x.raindrop);
    lemma_lookup_then_entry::<String>(acc0, "_id"@, x.id, "lastUpdate"@);
    lemma_lookup_then_entry::<String>(acc1, "text"@, x.text, "lastUpdate"@);
    lemma_lookup_then_opt_entry::<String>(acc2, "note"@, x.note, "lastUpdate"@);
    lemma_lookup_then_opt_entry::<HighlightColor>(acc3, "color"@, x.color, "lastUpdate"@);
    lemma_lookup_then_entry::<String>(acc4, "created"@, x.created, "lastUpdate"@);
    lemma_lookup_then_opt_entry::<String>(acc5, "lastUpdate"@, x.last_update, "lastUpdate"@);
    lemma_lookup_then_opt_entry::<String>(acc6, "title"@, x.title, "lastUpdate"@);
    lemma_lookup_then_opt_entry::<Vec<String>>(acc7, "tags"@, x.tags, "lastUpdate"@);
    lemma_lookup_then_opt_entry::<String>(acc8, "link"@, x.link, "lastUpdate"@);
    lemma_lookup_then_opt_entry::<String>(acc9, "domain"@, x.domain, "lastUpdate"@);
    lemma_lookup_then_opt_entry::<String>(acc10, "excerpt"@, x.excerpt, "lastUpdate"@);
    lemma_lookup_then_entry::<RaindropRef>(acc11, "raindrop"@, x.raindrop, "lastUpdate"@);
}

/// The `title` member of an encoded `Highlight`.
pub(crate) proof fn lemma_highlight_title(x: Highlight)
    ensures
        Highlight::wire_of(x).field("title"@) == Some(match x.title { Some(y) => <String as Wire>::wire_of(y), None => JsonModel::Null }),
{
    reveal_strlit("title");
    assert("title"@.len() == 5);
    reveal_strlit("_id");
    assert("_id"@.len() == 3);
    reveal_strlit("text");
    assert("text"@.len() == 4);
    reveal_strlit("note");
    assert("note"@.len() == 4);
    reveal_strlit("color");
    assert("color"@[0] != "title"@[0]);
    reveal_strlit("created");
    assert("created"@.len() == 7);
    reveal_strlit("lastUpdate");
    assert("lastUpdate"@.len() == 10);
    reveal_strlit("tags");
    assert("tags"@.len() == 4);
    reveal_strlit("link");
    assert("link"@.len() == 4);
    reveal_strlit("domain");
    assert("domain"@.len() == 6);
    reveal_strlit("excerpt");
    assert("excerpt"@.len() == 7);
    reveal_strlit("raindrop");
    assert("raindrop"@.len() == 8);
    let acc0 = Seq::<(Seq<char>, JsonModel)>::empty();
    lemma_lookup_empty("title"@);
    let acc1 = acc0 + entry::<String>("_id"@, x.id);
    let acc2 = acc1 + entry::<String>("text"@, x.text);
    let acc3 = acc2 + opt_entry::<String>("note"@, x.note);
    let acc4 = acc3 + opt_entry::<HighlightColor>("color"@, x.color);
    let acc5 = acc4 + entry::<String>("created"@, x.created);
    let acc6 = acc5 + opt_entry::<String>("lastUpdate"@, x.last_update);
    let acc7 = acc6 + opt_entry::<String>("title"@, x.title);
    let acc8 = acc7 + opt_entry::<Vec<String>>("tags"@, x.tags);
    let acc9 = acc8 + opt_entry::<String>("link"@, x.link);
    let acc10 = acc9 + opt_entry::<String>("domain"@, x.domain);
    let acc11 = acc10 + opt_entry::<String>("excerpt"@, x.excerpt);
    let acc12 = acc11 + entry::<RaindropRef>("raindrop"@, x.raindrop);
    lemma_lookup_then_entry::<String>(acc0, "_id"@, x.id, "title"@);
    lemma_lookup_then_entry::<String>(acc1, "text"@, x.text, "title"@);
    lemma_lookup_then_opt_entry::<String>(acc2, "note"@, x.note, "title"@);
    lemma_lookup_then_opt_entry::<HighlightColor>(acc3, "color"@, x.color, "title"@);
    lemma_lookup_then_entry::<String>(acc4, "created"@, x.created, "title"@);
    lemma_lookup_then_opt_entry::<String>(acc5, "lastUpdate"@, x.last_update, "title"@);
    lemma_lookup_then_opt_entry::<String>(acc6, "title"@, x.title, "title"@);
    lemma_lookup_then_opt_entry::<Vec<String>>(acc7, "tags"@, x.tags, "title"@);
    lemma_lookup_then_opt_entry::<String>(acc8, "link"@, x.link, "title"@);
    lemma_lookup_then_opt_entry::<String>(acc9, "domain"@, x.domain, "title"@);
    lemma_lookup_then_opt_entry::<String>(acc10, "excerpt"@, x.excerpt, "title"@);
    lemma_lookup_then_entry::<RaindropRef>(acc11, "raindrop"@, x.raindrop, "title"@);
}

/// The `tags` member of an encoded `Highlight`.
pub(crate) proof fn lemma_highlight_tags(x: Highlight)
    ensures
        Highlight::wire_of(x).field("tags"@) == Some(match x.tags { Some(y) => <Vec<String> as Wire>::wire_of(y), None => JsonModel::Null }),
{
    reveal_strlit("tags");
    assert("tags"@.len() == 4);
    reveal_strlit("_id");
    assert("_id"@.len() == 3);
    reveal_strlit("text");
    assert("text"@[1] != "tags"@[1]);
    reveal_strlit("note");
    assert("note"@[0] != "tags"@[0]);
    reveal_strlit("color");
    assert("color"@.len() == 5);
    reveal_strlit("created");
    assert("created"@.len() == 7);
    reveal_strlit("lastUpdate");
    assert("lastUpdate"@.len() == 10);
    reveal_strlit("title");
    assert("title"@.len() == 5);
    reveal_strlit("link");
    assert("link"@[0] != "tags"@[0]);
    reveal_strlit("domain");
    assert("domain"@.len() == 6);
    reveal_strlit("excerpt");
    assert("excerpt"@.len() == 7);
    reveal_strlit("raindrop");
    assert("raindrop"@.len() == 8);
    let acc0 = Seq::<(Seq<char>, JsonModel)>::empty();
    lemma_lookup_empty("tags"@);
    let acc1 = acc0 + entry::<String>("_id"@, x.id);
    let acc2 = acc1 + entry::<String>("text"@, x.text);
    let acc3 = acc2 + opt_entry::<String>("note"@, x.note);
    let acc4 = acc3 + opt_entry::<HighlightColor>("color"@, x.color);
    let acc5 = acc4 + entry::<String>("created"@, x.created);
    let acc6 = acc5 + opt_entry::<String>("lastUpdate"@, x.last_update);
    let acc7 = acc6 + opt_entry::<String>("title"@, x.title);
    let acc8 = acc7 + opt_entry::<Vec<String>>("tags"@, x.tags);
    let acc9 = acc8 + opt_entry::<String>("link"@, x.link);
    let acc10 = acc9 + opt_entry::<String>("domain"@, x.domain);
    let acc11 = acc10 + opt_entry::<String>("excerpt"@, x.excerpt);
    let acc12 = acc11 + entry::<RaindropRef>("raindrop"@, x.raindrop);
    lemma_lookup_then_entry::<String>(acc0, "_id"@, x.id, "tags"@);
    lemma_lookup_then_entry::<String>(acc1, "text"@, x.text, "tags"@);
    lemma_lookup_then_opt_entry::<String>(acc2, "note"@, x.note, "tags"@);
    lemma_lookup_then_opt_entry::<HighlightColor>(acc3, "color"@, x.color, "tags"@);
    lemma_lookup_then_entry::<String>(acc4, "created"@, x.created, "tags"@);
    lemma_lookup_then_opt_entry::<String>(acc5, "lastUpdate"@, x.last_update, "tags"@);
    lemma_lookup_then_opt_entry::<String>(acc6, "title"@, x.title, "tags"@);
    lemma_lookup_then_opt_entry::<Vec<String>>(acc7, "tags"@, x.tags, "tags"@);
    lemma_lookup_then_opt_entry::<String>(acc8, "link"@, x.link, "tags"@);
    lemma_lookup_then_opt_entry::<String>(acc9, "domain"@, x.domain, "tags"@);
    lemma_lookup_then_opt_entry::<String>(acc10, "excerpt"@, x.excerpt, "tags"@);
    lemma_lookup_then_entry::<RaindropRef>(acc11, "raindrop"@, x.raindrop, "tags"@);
}

/// The `link` member of an encoded `Highlight`.
pub(crate) proof fn lemma_highlight_link(x: Highlight)
    ensures
        Highlight::wire_of(x).field("link"@) == Some(match x.link { Some(y) => <String as Wire>::wire_of(y), None => JsonModel::Null }),
{
    reveal_strlit("link");
    assert("link"@.len() == 4);
    reveal_strlit("_id");
    assert("_id"@.len() == 3);
    reveal_strlit("text");
    assert("text"@[0] != "link"@[0]);
    reveal_strlit("note");
    assert("note"@[0] != "link"@[0]);
    reveal_strlit("color");
    assert("color"@.len() == 5);
    reveal_strlit("created");
    assert("created"@.len() == 7);
    reveal_strlit("lastUpdate");
    assert("lastUpdate"@.len() == 10);
    reveal_strlit("title");
    assert("title"@.len() == 5);
    reveal_strlit("tags");
    assert("tags"@[0] != "link"@[0]);
    reveal_strlit("domain");
    assert("domain"@.len() == 6);
    reveal_strlit("excerpt");
    assert("excerpt"@.len() == 7);
    reveal_strlit("raindrop");
    assert("raindrop"@.len() == 8);
    let acc0 = Seq::<(Seq<char>, JsonModel)>::empty();
    lemma_lookup_empty("link"@);
    let acc1 = acc0 + entry::<String>("_id"@, x.id);
    let acc2 = acc1 + entry::<String>("text"@, x.text);
    let acc3 = acc2 + opt_entry::<String>("note"@, x.note);
    let acc4 = acc3 + opt_entry::<HighlightColor>("color"@, x.color);
    let acc5 = acc4 + entry::<String>("created"@, x.created);
    let acc6 = acc5 + opt_entry::<String>("lastUpdate"@, x.last_update);
    let acc7 = acc6 + opt_entry::<String>("title"@, x.title);
    let acc8 = acc7 + opt_entry::<Vec<String>>("tags"@, x.tags);
    let acc9 = acc8 + opt_entry::<String>("link"@, x.link);
    let acc10 = acc9 + opt_entry::<String>("domain"@, x.domain);
    let acc11 = acc10 + opt_entry::<String>("excerpt"@, x.excerpt);
    let acc12 = acc11 + entry::<RaindropRef>("raindrop"@, x.raindrop);
    lemma_lookup_then_entry::<String>(acc0, "_id"@, x.id, "link"@);
    lemma_lookup_then_entry::<String>(acc1, "text"@, x.text, "link"@);
    lemma_lookup_then_opt_entry::<String>(acc2, "note"@, x.note, "link"@);
    lemma_lookup_then_opt_entry::<HighlightColor>(acc3, "color"@, x.color, "link"@);
    lemma_lookup_then_entry::<String>(acc4, "created"@, x.created, "link"@);
    lemma_lookup_then_opt_entry::<String>(acc5, "lastUpdate"@, x.last_update, "link"@);
    lemma_lookup_then_opt_entry::<String>(acc6, "title"@, x.title, "link"@);
    lemma_lookup_then_opt_entry::<Vec<String>>(acc7, "tags"@, x.tags, "link"@);
    lemma_lookup_then_opt_entry::<String>(acc8, "link"@, x.link, "link"@);
    lemma_lookup_then_opt_entry::<String>(acc9, "domain"@, x.domain, "link"@);
    lemma_lookup_then_opt_entry::<String>(acc10, "excerpt"@, x.excerpt, "link"@);
    lemma_lookup_then_entry::<RaindropRef>(acc11, "raindrop"@, x.raindrop, "link"@);
}

/// The `domain` member of an encoded `Highlight`.
pub(crate) proof fn lemma_highlight_domain(x: Highlight)
    ensures
        Highlight::wire_of(x).field("domain"@) == Some(match x.domain { Some(y) => <String as Wire>::wire_of(y), None => JsonModel::Null }),
{
    reveal_strlit("domain");
    assert("domain"@.len() == 6);
    reveal_strlit("_id");
    assert("_id"@.len() == 3);
    reveal_strlit("text");
    assert("text"@.len() == 4);
    reveal_strlit("note");
    assert("note"@.len() == 4);
    reveal_strlit("color");
    assert("color"@.len() == 5);
    reveal_strlit("created");
    assert("created"@.len() == 7);
    reveal_strlit("lastUpdate");
    assert("lastUpdate"@.len() == 10);
    reveal_strlit("title");
    assert("title"@.len() == 5);
    reveal_strlit("tags");
    assert("tags"@.len() == 4);
    reveal_strlit("link");
    assert("link"@.len() == 4);
    reveal_strlit("excerpt");
    assert("excerpt"@.len() == 7);
    reveal_strlit("raindrop");
    assert("raindrop"@.len() == 8);
    let acc0 = Seq::<(Seq<char>, JsonModel)>::empty();
    lemma_lookup_empty("domain"@);
    let acc1 = acc0 + entry::<String>("_id"@, x.id);
    let acc2 = acc1 + entry::<String>("text"@, x.text);
    let acc3 = acc2 + opt_entry::<String>("note"@, x.note);
    let acc4 = acc3 + opt_entry::<HighlightColor>("color"@, x.color);
    let acc5 = acc4 + entry::<String>("created"@, x.created);
    let acc6 = acc5 + opt_entry::<String>("lastUpdate"@, x.last_update);
    let acc7 = acc6 + opt_entry::<String>("title"@, x.title);
    let acc8 = acc7 + opt_entry::<Vec<String>>("tags"@, x.tags);
    let acc9 = acc8 + opt_entry::<String>("link"@, x.link);
    let acc10 = acc9 + opt_entry::<String>("domain"@, x.domain);
    let acc11 = acc10 + opt_entry::<String>("excerpt"@, x.excerpt);
    let acc12 = acc11 + entry::<RaindropRef>("raindrop"@, x.raindrop);
    lemma_lookup_then_entry::<String>(acc0, "_id"@, x.id, "domain"@);
    lemma_lookup_then_entry::<String>(acc1, "text"@, x.text, "domain"@);
    lemma_lookup_then_opt_entry::<String>(acc2, "note"@, x.note, "domain"@);
    lemma_lookup_then_opt_entry::<HighlightColor>(acc3, "color"@, x.color, "domain"@);
    lemma_lookup_then_entry::<String>(acc4, "created"@, x.created, "domain"@);
    lemma_lookup_then_opt_entry::<String>(acc5, "lastUpdate"@, x.last_update, "domain"@);
    lemma_lookup_then_opt_entry::<String>(acc6, "title"@, x.title, "domain"@);
    lemma_lookup_then_opt_entry::<Vec<String>>(acc7, "tags"@, x.tags, "domain"@);
    lemma_lookup_then_opt_entry::<String>(acc8, "link"@, x.link, "domain"@);
    lemma_lookup_then_opt_entry::<String>(acc9, "domain"@, x.domain, "domain"@);
    lemma_lookup_then_opt_entry::<String>(acc10, "excerpt"@, x.excerpt, "domain"@);
    lemma_lookup_then_entry::<RaindropRef>(acc11, "raindrop"@, x.raindrop, "domain"@);
}

/// The `excerpt` member of an encoded `Highlight`.
pub(crate) proof fn lemma_highlight_excerpt(x: Highlight)
    ensures
        Highlight::wire_of(x).field("excerpt"@) == Some(match x.excerpt { Some(y) => <String as Wire>::wire_of(y), None => JsonModel::Null }),
{
    reveal_strlit("excerpt");
    assert("excerpt"@.len() == 7);
    reveal_strlit("_id");
    assert("_id"@.len() == 3);
    reveal_strlit("text");
    assert("text"@.len() == 4);
    reveal_strlit("note");
    assert("note"@.len() == 4);
    reveal_strlit("color");
    assert("color"@.len() == 5);
    reveal_strlit("created");
    assert("created"@[0] != "excerpt"@[0]);
    reveal_strlit("lastUpdate");
    assert("lastUpdate"@.len() == 10);
    reveal_strlit("title");
    assert("title"@.len() == 5);
    reveal_strlit("tags");
    assert("tags"@.len() == 4);
    reveal_strlit("link");
    assert("link"@.len() == 4);
    reveal_strlit("domain");
    assert("domain"@.len() == 6);
    reveal_strlit("raindrop");
    assert("raindrop"@.len() == 8);
    let acc0 = Seq::<(Seq<char>, JsonModel)>::empty();
    lemma_lookup_empty("excerpt"@);
    let acc1 = acc0 + entry::<String>("_id"@, x.id);
    let acc2 = acc1 + entry::<String>("text"@, x.text);
    let acc3 = acc2 + opt_entry::<String>("note"@, x.note);
    let acc4 = acc3 + opt_entry::<HighlightColor>("color"@, x.color);
    let acc5 = acc4 + entry::<String>("created"@, x.created);
    let acc6 = acc5 + opt_entry::<String>("lastUpdate"@, x.last_update);
    let acc7 = acc6 + opt_entry::<String>("title"@, x.title);
    let acc8 = acc7 + opt_entry::<Vec<String>>("tags"@, x.tags);
    let acc9 = acc8 + opt_entry::<String>("link"@, x.link);
    let acc10 = acc9 + opt_entry::<String>("domain"@, x.domain);
    let acc11 = acc10 + opt_entry::<String>("excerpt"@, x.excerpt);
    let acc12 = acc11 + entry::<RaindropRef>("raindrop"@, x.raindrop);
    lemma_lookup_then_entry::<String>(acc0, "_id"@, x.id, "excerpt"@);
    lemma_lookup_then_entry::<String>(acc1, "text"@, x.text, "excerpt"@);
    lemma_lookup_then_opt_entry::<String>(acc2, "note"@, x.note, "excerpt"@);
    lemma_lookup_then_opt_entry::<HighlightColor>(acc3, "color"@, x.color, "excerpt"@);
    lemma_lookup_then_entry::<String>(acc4, "created"@, x.created, "excerpt"@);
    lemma_lookup_then_opt_entry::<String>(acc5, "lastUpdate"@, x.last_update, "excerpt"@);
    lemma_lookup_then_opt_entry::<String>(acc6, "title"@, x.title, "excerpt"@);
    lemma_lookup_then_opt_entry::<Vec<String>>(acc7, "tags"@, x.tags, "excerpt"@);
    lemma_lookup_then_opt_entry::<String>(acc8, "link"@, x.link, "excerpt"@);
    lemma_lookup_then_opt_entry::<String>(acc9, "domain"@, x.domain, "excerpt"@);
    lemma_lookup_then_opt_entry::<String>(acc10, "excerpt"@, x.excerpt, "excerpt"@);
    lemma_lookup_then_entry::<RaindropRef>(acc11, "raindrop"@, x.raindrop, "excerpt"@);
}

/// The `raindrop` member of an encoded `Highlight`.
pub(crate) proof fn lemma_highlight_raindrop(x: Highlight)
    ensures
        Highlight::wire_of(x).field("raindrop"@) == Some(<RaindropRef as Wire>::wire_of(x.raindrop)),
{
    reveal_strlit("raindrop");
    assert("raindrop"@.len() == 8);
    reveal_strlit("_id");
    assert("_id"@.len() == 3);
    reveal_strlit("text");
    assert("text"@.len() == 4);
    reveal_strlit("note");
    assert("note"@.len() == 4);
    reveal_strlit("color");
    assert("color"@.len() == 5);
    reveal_strlit("created");
    assert("created"@.len() == 7);
    reveal_strlit("lastUpdate");
    assert("lastUpdate"@.len() == 10);
    reveal_strlit("title");
    assert("title"@.len() == 5);
    reveal_strlit("tags");
    assert("tags"@.len() == 4);
    reveal_strlit("link");
    assert("link"@.len() == 4);
    reveal_strlit("domain");
    assert("domain"@.len() == 6);
    reveal_strlit("excerpt");
    assert("excerpt"@.len() == 7);
    let acc0 = Seq::<(Seq<char>, JsonModel)>::empty();
    lemma_lookup_empty("raindrop"@);
    let acc1 = acc0 + entry::<String>("_id"@, x.id);
    let acc2 = acc1 + entry::<String>("text"@, x.text);
    let acc3 = acc2 + opt_entry::<String>("note"@, x.note);
    let acc4 = acc3 + opt_entry::<HighlightColor>("color"@, x.color);
    let acc5 = acc4 + entry::<String>("created"@, x.created);
    let acc6 = acc5 + opt_entry::<String>("lastUpdate"@, x.last_update);
    let acc7 = acc6 + opt_entry::<String>("title"@, x.title);
    let acc8 = acc7 + opt_entry::<Vec<String>>("tags"@, x.tags);
    let acc9 = acc8 + opt_entry::<String>("link"@, x.link);
    let acc10 = acc9 + opt_entry::<String>("domain"@, x.domain);
    let acc11 = acc10 + opt_entry::<String>("excerpt"@, x.excerpt);
    let acc12 = acc11 + entry::<RaindropRef>("raindrop"@, x.raindrop);
    lemma_lookup_then_entry::<String>(acc0, "_id"@, x.id, "raindrop"@);
    lemma_lookup_then_entry::<String>(acc1, "text"@, x.text, "raindrop"@);
    lemma_lookup_then_opt_entry::<String>(acc2, "note"@, x.note, "raindrop"@);
    lemma_lookup_then_opt_entry::<HighlightColor>(acc3, "color"@, x.color, "raindrop"@);
    lemma_lookup_then_entry::<String>(acc4, "created"@, x.created, "raindrop"@);
    lemma_lookup_then_opt_entry::<String>(acc5, "lastUpdate"@, x.last_update, "raindrop"@);
    lemma_lookup_then_opt_entry::<String>(acc6, "title"@, x.title, "raindrop"@);
    lemma_lookup_then_opt_entry::<Vec<String>>(acc7, "tags"@, x.tags, "raindrop"@);
    lemma_lookup_then_opt_entry::<String>(acc8, "link"@, x.link, "raindrop"@);
    lemma_lookup_then_opt_entry::<String>(acc9, "domain"@, x.domain, "raindrop"@);
    lemma_lookup_then_opt_entry::<String>(acc10, "excerpt"@, x.excerpt, "raindrop"@);
    lemma_lookup_then_entry::<RaindropRef>(acc11, "raindrop"@, x.raindrop, "raindrop"@);
}

/// A reference to the bookmark a highlight belongs to.
#[derive(Debug, Clone)]
pub struct RaindropRef {
    pub id: i64,
    pub title: Option<String>,
    pub link: Option<String>,
    pub collection: Option<CollectionRef>,
}

impl Wire for RaindropRef {
    open spec fn wire_ok(j: JsonModel) -> bool {
        &&& j is Object
        &&& req_ok::<i64>(j.field("_id"@))
        &&& opt_ok::<String>(j.field("title"@))
        &&& opt_ok::<String>(j.field("link"@))
        &&& opt_ok::<CollectionRef>(j.field("collection"@))
    }

    open spec fn wire_is(j: JsonModel, x: RaindropRef) -> bool {
        &&& j is Object
        &&& req_is::<i64>(j.field("_id"@), x.id)
        &&& opt_is::<String>(j.field("title"@), x.title)
        &&& opt_is::<String>(j.field("link"@), x.link)
        &&& opt_is::<CollectionRef>(j.field("collection"@), x.collection)
    }

    open spec fn wire_of(x: RaindropRef) -> JsonModel {
        JsonModel::Object(
            Seq::empty()
                + entry::<i64>("_id"@, x.id)
                + opt_entry::<String>("title"@, x.title)
                + opt_entry::<String>("link"@, x.link)
                + opt_entry::<CollectionRef>("collection"@, x.collection)
        )
    }

    fn decode(j: &Json) -> (r: Result<RaindropRef, String>) {
        match expect_object(j) {
            Ok(()) => {},
            Err(e) => return Err(e),
        }
        let id = match decode_field::<i64>(j, "_id") {
            Ok(v) => v,
            Err(e) => return Err(e),
        };
        let title = match decode_opt_field::<String>(j, "title") {
            Ok(v) => v,
            Err(e) => return Err(e),
        };
        let link = match decode_opt_field::<String>(j, "link") {
            Ok(v) => v,
            Err(e) => return Err(e),
        };
        let collection = match decode_opt_field::<CollectionRef>(j, "collection") {
            Ok(v) => v,
            Err(e) => return Err(e),
        };
        Ok(RaindropRef { id, title, link, collection })
    }

    fn encode(&self) -> (r: Json) {
        let mut fields = no_fields();
        push_field::<i64>(&mut fields, "_id", &self.id);
        push_opt::<String>(&mut fields, "title", &self.title);
        push_opt::<String>(&mut fields, "link", &self.link);
        push_opt::<CollectionRef>(&mut fields, "collection", &self.collection);
        object(fields)
    }

    proof fn lemma_round_trip(x: Self) {
        lemma_raindrop_ref_id(x);
        <i64 as Wire>::lemma_round_trip(x.id);
        lemma_raindrop_ref_title(x);
        lemma_opt_round_trip::<String>(x.title);
        lemma_raindrop_ref_link(x);
        lemma_opt_round_trip::<String>(x.link);
        lemma_raindrop_ref_collection(x);
        lemma_opt_round_trip::<CollectionRef>(x.collection);
        let j = Self::wire_of(x);
        assert(req_ok::<i64>(j.field("_id"@)));
        assert(opt_ok::<String>(j.field("title"@)));
        assert(opt_ok::<String>(j.field("link"@)));
        assert(opt_ok::<CollectionRef>(j.field("collection"@)));
        assert(req_is::<i64>(j.field("_id"@), x.id));
        assert(opt_is::<String>(j.field("title"@), x.title));
        assert(opt_is::<String>(j.field("link"@), x.link));
        assert(opt_is::<CollectionRef>(j.field("collection"@), x.collection));
        assert forall|y: Self| #[trigger] Self::wire_is(j, y) implies Self::wire_of(y) == j by {
            assert(entry::<i64>("_id"@, y.id) == entry::<i64>("_id"@, x.id));
            assert(opt_entry::<String>("title"@, y.title) == opt_entry::<String>("title"@, x.title));
            assert(opt_entry::<String>("link"@, y.link) == opt_entry::<String>("link"@, x.link));
            assert(opt_entry::<CollectionRef>("collection"@, y.collection) == opt_entry::<CollectionRef>("collection"@, x.collection));
        }
    }
}

/// The `_id` member of an encoded `RaindropRef`.
pub(crate) proof fn lemma_raindrop_ref_id(x: RaindropRef)
    ensures
        RaindropRef::wire_of(x).field("_id"@) == Some(<i64 as Wire>::wire_of(x.id)),
{
    reveal_strlit("_id");
    assert("_id"@.len() == 3);
    reveal_strlit("title");
    assert("title"@.len() == 5);
    reveal_strlit("link");
    assert("link"@.len() == 4);
    reveal_strlit("collection");
    assert("collection"@.len() == 10);
    let acc0 = Seq::<(Seq<char>, JsonModel)>::empty();
    lemma_lookup_empty("_id"@);
    let acc1 = acc0 + entry::<i64>("_id"@, x.id);
    let acc2 = acc1 + opt_entry::<String>("title"@, x.title);
    let acc3 = acc2 + opt_entry::<String>("link"@, x.link);
    let acc4 = acc3 + opt_entry::<CollectionRef>("collection"@, x.collection);
    lemma_lookup_then_entry::<i64>(acc0, "_id"@, x.id, "_id"@);
    lemma_lookup_then_opt_entry::<String>(acc1, "title"@, x.title, "_id"@);
    lemma_lookup_then_opt_entry::<String>(acc2, "link"@, x.link, "_id"@);
    lemma_lookup_then_opt_entry::<CollectionRef>(acc3, "collection"@, x.collection, "_id"@);
}

/// The `title` member of an encoded `RaindropRef`.
pub(crate) proof fn lemma_raindrop_ref_title(x: RaindropRef)
    ensures
        RaindropRef::wire_of(x).field("title"@) == Some(match x.title { Some(y) => <String as Wire>::wire_of(y), None => JsonModel::Null }),
{
    reveal_strlit("title");
    assert("title"@.len() == 5);
    reveal_strlit("_id");
    assert("_id"@.len() == 3);
    reveal_strlit("link");
    assert("link"@.len() == 4);
    reveal_strlit("collection");
    assert("collection"@.len() == 10);
    let acc0 = Seq::<(Seq<char>, JsonModel)>::empty();
    lemma_lookup_empty("title"@);
    let acc1 = acc0 + entry::<i64>("_id"@, x.id);
    let acc2 = acc1 + opt_entry::<String>("title"@, x.title);
    let acc3 = acc2 + opt_entry::<String>("link"@, x.link);
    let acc4 = acc3 + opt_entry::<CollectionRef>("collection"@, x.collection);
    lemma_lookup_then_entry::<i64>(acc0, "_id"@, x.id, "title"@);
    lemma_lookup_then_opt_entry::<String>(acc1, "title"@, x.title, "title"@);
    lemma_lookup_then_opt_entry::<String>(acc2, "link"@, x.link, "title"@);
    lemma_lookup_then_opt_entry::<CollectionRef>(acc3, "collection"@, x.collection, "title"@);
}

/// The `link` member of an encoded `RaindropRef`.
pub(crate) proof fn lemma_raindrop_ref_link(x: RaindropRef)
    ensures
        RaindropRef::wire_of(x).field("link"@) == Some(match x.link { Some(y) => <String as Wire>::wire_of(y), None => JsonModel::Null }),
{
    reveal_strlit("link");
    assert("link"@.len() == 4);
    reveal_strlit("_id");
    assert("_id"@.len() == 3);
    reveal_strlit("title");
    assert("title"@.len() == 5);
    reveal_strlit("collection");
    assert("collection"@.len() == 10);
    let acc0 = Seq::<(Seq<char>, JsonModel)>::empty();
    lemma_lookup_empty("link"@);
    let acc1 = acc0 + entry::<i64>("_id"@, x.id);
    let acc2 = acc1 + opt_entry::<String>("title"@, x.title);
    let acc3 = acc2 + opt_entry::<String>("link"@, x.link);
    let acc4 = acc3 + opt_entry::<CollectionRef>("collection"@, x.collection);
    lemma_lookup_then_entry::<i64>(acc0, "_id"@, x.id, "link"@);
    lemma_lookup_then_opt_entry::<String>(acc1, "title"@, x.title, "link"@);
    lemma_lookup_then_opt_entry::<String>(acc2, "link"@, x.link, "link"@);
    lemma_lookup_then_opt_entry::<CollectionRef>(acc3, "collection"@, x.collection, "link"@);
}

/// The `collection` member of an encoded `RaindropRef`.
pub(crate) proof fn lemma_raindrop_ref_collection(x: RaindropRef)
    ensures
        RaindropRef::wire_of(x).field("collection"@) == Some(match x.collection { Some(y) => <CollectionRef as Wire>::wire_of(y), None => JsonModel::Null }),
{
    reveal_strlit("collection");
    assert("collection"@.len() == 10);
    reveal_strlit("_id");
    assert("_id"@.len() == 3);
    reveal_strlit("title");
    assert("title"@.len() == 5);
    reveal_strlit("link");
    assert("link"@.len() == 4);
    let acc0 = Seq::<(Seq<char>, JsonModel)>::empty();
    lemma_lookup_empty("collection"@);
    let acc1 = acc0 + entry::<i64>("_id"@, x.id);
    let acc2 = acc1 + opt_entry::<String>("title"@, x.title);
    let acc3 = acc2 + opt_entry::<String>("link"@, x.link);
    let acc4 = acc3 + opt_entry::<CollectionRef>("collection"@, x.collection);
    lemma_lookup_then_entry::<i64>(acc0, "_id"@, x.id, "collection"@);
    lemma_lookup_then_opt_entry::<String>(acc1, "title"@, x.title, "collection"@);
    lemma_lookup_then_opt_entry::<String>(acc2, "link"@, x.link, "collection"@);
    lemma_lookup_then_opt_entry::<CollectionRef>(acc3, "collection"@, x.collection, "collection"@);
}

/// A highlight as a readable resource.
#[derive(Debug, Clone)]
pub struct HighlightContent {
    pub uri: String,
    pub text: String,
    pub metadata: HighlightMetadata,
}

impl Wire for HighlightContent {
    open spec fn wire_ok(j: JsonModel) -> bool {
        &&& j is Object
        &&& req_ok::<String>(j.field("uri"@))
        &&& req_ok::<String>(j.field("text"@))
        &&& req_ok::<HighlightMetadata>(j.field("metadata"@))
    }

    open spec fn wire_is(j: JsonModel, x: HighlightContent) -> bool {
        &&& j is Object
        &&& req_is::<String>(j.field("uri"@), x.uri)
        &&& req_is::<String>(j.field("text"@), x.text)
        &&& req_is::<HighlightMetadata>(j.field("metadata"@), x.metadata)
    }

    open spec fn wire_of(x: HighlightContent) -> JsonModel {
        JsonModel::Object(
            Seq::empty()
                + entry::<String>("uri"@, x.uri)
                + entry::<String>("text"@, x.text)
                + entry::<HighlightMetadata>("metadata"@, x.metadata)
        )
    }

    fn decode(j: &Json) -> (r: Result<HighlightContent, String>) {
        match expect_object(j) {
            Ok(()) => {},
            Err(e) => return Err(e),
        }
        let uri = match decode_field::<String>(j, "uri") {
            Ok(v) => v,
            Err(e) => return Err(e),
        };
        let text = match decode_field::<String>(j, "text") {
            Ok(v) => v,
            Err(e) => return Err(e),
        };
        let metadata = match decode_field::<HighlightMetadata>(j, "metadata") {
            Ok(v) => v,
            Err(e) => return Err(e),
        };
        Ok(HighlightContent { uri, text, metadata })
    }

    fn encode(&self) -> (r: Json) {
        let mut fields = no_fields();
        push_field::<String>(&mut fields, "uri", &self.uri);
        push_field::<String>(&mut fields, "text", &self.text);
        push_field::<HighlightMetadata>(&mut fields, "metadata", &self.metadata);
        object(fields)
    }

    proof fn lemma_round_trip(x: Self) {
        lemma_highlight_content_uri(x);
        <String as Wire>::lemma_round_trip(x.uri);
        lemma_highlight_content_text(x);
        <String as Wire>::lemma_round_trip(x.text);
        lemma_highlight_content_metadata(x);
        <HighlightMetadata as Wire>::lemma_round_trip(x.metadata);
        let j = Self::wire_of(x);
        assert(req_ok::<String>(j.field("uri"@)));
        assert(req_ok::<String>(j.field("text"@)));
        assert(req_ok::<HighlightMetadata>(j.field("metadata"@)));
        assert(req_is::<String>(j.field("uri"@), x.uri));
        assert(req_is::<String>(j.field("text"@), x.text));
        assert(req_is::<HighlightMetadata>(j.field("metadata"@), x.metadata));
        assert forall|y: Self| #[trigger] Self::wire_is(j, y) implies Self::wire_of(y) == j by {
            assert(entry::<String>("uri"@, y.uri) == entry::<String>("uri"@, x.uri));
            assert(entry::<String>("text"@, y.text) == entry::<String>("text"@, x.text));
            assert(entry::<HighlightMetadata>("metadata"@, y.metadata) == entry::<HighlightMetadata>("metadata"@, x.metadata));
        }
    }
}

/// The `uri` member of an encoded `HighlightContent`.
pub(crate) proof fn lemma_highlight_content_uri(x: HighlightContent)
    ensures
        HighlightContent::wire_of(x).field("uri"@) == Some(<String as Wire>::wire_of(x.uri)),
{
    reveal_strlit("uri");
    assert("uri"@.len() == 3);
    reveal_strlit("text");
    assert("text"@.len() == 4);
    reveal_strlit("metadata");
    assert("metadata"@.len() == 8);
    let acc0 = Seq::<(Seq<char>, JsonModel)>::empty();
    lemma_lookup_empty("uri"@);
    let acc1 = acc0 + entry::<String>("uri"@, x.uri);
    let acc2 = acc1 + entry::<String>("text"@, x.text);
    let acc3 = acc2 + entry::<HighlightMetadata>("metadata"@, x.metadata);
    lemma_lookup_then_entry::<String>(acc0, "uri"@, x.uri, "uri"@);
    lemma_lookup_then_entry::<String>(acc1, "text"@, x.text, "uri"@);
    lemma_lookup_then_entry::<HighlightMetadata>(acc2, "metadata"@, x.metadata, "uri"@);
}

/// The `text` member of an encoded `HighlightContent`.
pub(crate) proof fn lemma_highlight_content_text(x: HighlightContent)
    ensures
        HighlightContent::wire_of(x).field("text"@) == Some(<String as Wire>::wire_of(x.text)),
{
    reveal_strlit("text");
    assert("text"@.len() == 4);
    reveal_strlit("uri");
    assert("uri"@.len() == 3);
    reveal_strlit("metadata");
    assert("metadata"@.len() == 8);
    let acc0 = Seq::<(Seq<char>, JsonModel)>::empty();
    lemma_lookup_empty("text"@);
    let acc1 = acc0 + entry::<String>("uri"@, x.uri);
    let acc2 = acc1 + entry::<String>("text"@, x.text);
    let acc3 = acc2 + entry::<HighlightMetadata>("metadata"@, x.metadata);
    lemma_lookup_then_entry::<String>(acc0, "uri"@, x.uri, "text"@);
    lemma_lookup_then_entry::<String>(acc1, "text"@, x.text, "text"@);
    lemma_lookup_then_entry::<HighlightMetadata>(acc2, "metadata"@, x.metadata, "text"@);
}

/// The `metadata` member of an encoded `HighlightContent`.
pub(crate) proof fn lemma_highlight_content_metadata(x: HighlightContent)
    ensures
        HighlightContent::wire_of(x).field("metadata"@) == Some(<HighlightMetadata as Wire>::wire_of(x.metadata)),
{
    reveal_strlit("metadata");
    assert("metadata"@.len() == 8);
    reveal_strlit("uri");
    assert("uri"@.len() == 3);
    reveal_strlit("text");
    assert("text"@.len() == 4);
    let acc0 = Seq::<(Seq<char>, JsonModel)>::empty();
    lemma_lookup_empty("metadata"@);
    let acc1 = acc0 + entry::<String>("uri"@, x.uri);
    let acc2 = acc1 + entry::<String>("text"@, x.text);
    let acc3 = acc2 + entry::<HighlightMetadata>("metadata"@, x.metadata);
    lemma_lookup_then_entry::<String>(acc0, "uri"@, x.uri, "metadata"@);
    lemma_lookup_then_entry::<String>(acc1, "text"@, x.text, "metadata"@);
    lemma_lookup_then_entry::<HighlightMetadata>(acc2, "metadata"@, x.metadata, "metadata"@);
}

/// The details of a highlight resource.
#[derive(Debug, Clone)]
pub struct HighlightMetadata {
    pub id: String,
    pub note: String,
    pub created: String,
    pub title: String,
    pub tags: Option<Vec<String>>,
    pub link: String,
    pub raindrop: Option<RaindropRef>,
}

impl Wire for HighlightMetadata {
    open spec fn wire_ok(j: JsonModel) -> bool {
        &&& j is Object
        &&& req_ok::<String>(j.field("id"@))
        &&& req_ok::<String>(j.field("note"@))
        &&& req_ok::<String>(j.field("created"@))
        &&& req_ok::<String>(j.field("title"@))
        &&& opt_ok::<Vec<String>>(j.field("tags"@))
        &&& req_ok::<String>(j.field("link"@))
        &&& opt_ok::<RaindropRef>(j.field("raindrop"@))
    }

    open spec fn wire_is(j: JsonModel, x: HighlightMetadata) -> bool {
        &&& j is Object
        &&& req_is::<String>(j.field("id"@), x.id)
        &&& req_is::<String>(j.field("note"@), x.note)
        &&& req_is::<String>(j.field("created"@), x.created)
        &&& req_is::<String>(j.field("title"@), x.title)
        &&& opt_is::<Vec<String>>(j.field("tags"@), x.tags)
        &&& req_is::<String>(j.field("link"@), x.link)
        &&& opt_is::<RaindropRef>(j.field("raindrop"@), x.raindrop)
    }

    open spec fn wire_of(x: HighlightMetadata) -> JsonModel {
        JsonModel::Object(
            Seq::empty()
                + entry::<String>("id"@, x.id)
                + entry::<String>("note"@, x.note)
                + entry::<String>("created"@, x.created)
                + entry::<String>("title"@, x.title)
                + opt_entry::<Vec<String>>("tags"@, x.tags)
                + entry::<String>("link"@, x.link)
                + opt_entry::<RaindropRef>("raindrop"@, x.raindrop)
        )
    }

    fn decode(j: &Json) -> (r: Result<HighlightMetadata, String>) {
        match expect_object(j) {
            Ok(()) => {},
            Err(e) => return Err(e),
        }
        let id = match decode_field::<String>(j, "id") {
            Ok(v) => v,
            Err(e) => return Err(e),
        };
        let note = match decode_field::<String>(j, "note") {
            Ok(v) => v,
            Err(e) => return Err(e),
        };
        let created = match decode_field::<String>(j, "created") {
            Ok(v) => v,
            Err(e) => return Err(e),
        };
        let title = match decode_field::<String>(j, "title") {
            Ok(v) => v,
            Err(e) => return Err(e),
        };
        let tags = match decode_opt_field::<Vec<String>>(j, "tags") {
            Ok(v) => v,
            Err(e) => return Err(e),
        };
        let link = match decode_field::<String>(j, "link") {
            Ok(v) => v,
            Err(e) => return Err(e),
        };
        let raindrop = match decode_opt_field::<RaindropRef>(j, "raindrop") {
            Ok(v) => v,
            Err(e) => return Err(e),
        };
        Ok(HighlightMetadata { id, note, created, title, tags, link, raindrop })
    }

    fn encode(&self) -> (r: Json) {
        let mut fields = no_fields();
        push_field::<String>(&mut fields, "id", &self.id);
        push_field::<String>(&mut fields, "note", &self.note);
        push_field::<String>(&mut fields, "created", &self.created);
        push_field::<String>(&mut fields, "title", &self.title);
        push_opt::<Vec<String>>(&mut fields, "tags", &self.tags);
        push_field::<String>(&mut fields, "link", &self.link);
        push_opt::<RaindropRef>(&mut fields, "raindrop", &self.raindrop);
        object(fields)
    }

    proof fn lemma_round_trip(x: Self) {
        lemma_highlight_metadata_id(x);
        <String as Wire>::lemma_round_trip(x.id);
        lemma_highlight_metadata_note(x);
        <String as Wire>::lemma_round_trip(x.note);
        lemma_highlight_metadata_created(x);
        <String as Wire>::lemma_round_trip(x.created);
        lemma_highlight_metadata_title(x);
        <String as Wire>::lemma_round_trip(x.title);
        lemma_highlight_metadata_tags(x);
        lemma_opt_round_trip::<Vec<String>>(x.tags);
        lemma_highlight_metadata_link(x);
        <String as Wire>::lemma_round_trip(x.link);
        lemma_highlight_metadata_raindrop(x);
        lemma_opt_round_trip::<RaindropRef>(x.raindrop);
        let j = Self::wire_of(x);
        assert(req_ok::<String>(j.field("id"@)));
        assert(req_ok::<String>(j.field("note"@)));
        assert(req_ok::<String>(j.field("created"@)));
        assert(req_ok::<String>(j.field("title"@)));
        assert(opt_ok::<Vec<String>>(j.field("tags"@)));
        assert(req_ok::<String>(j.field("link"@)));
        assert(opt_ok::<RaindropRef>(j.field("raindrop"@)));
        assert(req_is::<String>(j.field("id"@), x.id));
        assert(req_is::<String>(j.field("note"@), x.note));
        assert(req_is::<String>(j.field("created"@), x.created));
        assert(req_is::<String>(j.field("title"@), x.title));
        assert(opt_is::<Vec<String>>(j.field("tags"@), x.tags));
        assert(req_is::<String>(j.field("link"@), x.link));
        assert(opt_is::<RaindropRef>(j.field("raindrop"@), x.raindrop));
        assert forall|y: Self| #[trigger] Self::wire_is(j, y) implies Self::wire_of(y) == j by {
            assert(entry::<String>("id"@, y.id) == entry::<String>("id"@, x.id));
            assert(entry::<String>("note"@, y.note) == entry::<String>("note"@, x.note));
            assert(entry::<String>("created"@, y.created) == entry::<String>("created"@, x.created));
            assert(entry::<String>("title"@, y.title) == entry::<String>("title"@, x.title));
            assert(opt_entry::<Vec<String>>("tags"@, y.tags) == opt_entry::<Vec<String>>("tags"@, x.tags));
            assert(entry::<String>("link"@, y.link) == entry::<String>("link"@, x.link));
            assert(opt_entry::<RaindropRef>("raindrop"@, y.raindrop) == opt_entry::<RaindropRef>("raindrop"@, x.raindrop));
        }
    }
}

/// The `id` member of an encoded `HighlightMetadata`.
pub(crate) proof fn lemma_highlight_metadata_id(x: HighlightMetadata)
    ensures
        HighlightMetadata::wire_of(x).field("id"@) == Some(<String as Wire>::wire_of(x.id)),
{
    reveal_strlit("id");
    assert("id"@.len() == 2);
    reveal_strlit("note");
    assert("note"@.len() == 4);
    reveal_strlit("created");
    assert("created"@.len() == 7);
    reveal_strlit("title");
    assert("title"@.len() == 5);
    reveal_strlit("tags");
    assert("tags"@.len() == 4);
    reveal_strlit("link");
    assert("link"@.len() == 4);
    reveal_strlit("raindrop");
    assert("raindrop"@.len() == 8);
    let acc0 = Seq::<(Seq<char>, JsonModel)>::empty();
    lemma_lookup_empty("id"@);
    let acc1 = acc0 + entry::<String>("id"@, x.id);
    let acc2 = acc1 + entry::<String>("note"@, x.note);
    let acc3 = acc2 + entry::<String>("created"@, x.created);
    let acc4 = acc3 + entry::<String>("title"@, x.title);
    let acc5 = acc4 + opt_entry::<Vec<String>>("tags"@, x.tags);
    let acc6 = acc5 + entry::<String>("link"@, x.link);
    let acc7 = acc6 + opt_entry::<RaindropRef>("raindrop"@, x.raindrop);
    lemma_lookup_then_entry::<String>(acc0, "id"@, x.id, "id"@);
    lemma_lookup_then_entry::<String>(acc1, "note"@, x.note, "id"@);
    lemma_lookup_then_entry::<String>(acc2, "created"@, x.created, "id"@);
    lemma_lookup_then_entry::<String>(acc3, "title"@, x.title, "id"@);
    lemma_lookup_then_opt_entry::<Vec<String>>(acc4, "tags"@, x.tags, "id"@);
    lemma_lookup_then_entry::<String>(acc5, "link"@, x.link, "id"@);
    lemma_lookup_then_opt_entry::<RaindropRef>(acc6, "raindrop"@, x.raindrop, "id"@);
}

/// The `note` member of an encoded `HighlightMetadata`.
pub(crate) proof fn lemma_highlight_metadata_note(x: HighlightMetadata)
    ensures
        HighlightMetadata::wire_of(x).field("note"@) == Some(<String as Wire>::wire_of(x.note)),
{
    reveal_strlit("note");
    assert("note"@.len() == 4);
    reveal_strlit("id");
    assert("id"@.len() == 2);
    reveal_strlit("created");
    assert("created"@.len() == 7);
    reveal_strlit("title");
    assert("title"@.len() == 5);
    reveal_strlit("tags");
    assert("tags"@[0] != "note"@[0]);
    reveal_strlit("link");
    assert("link"@[0] != "note"@[0]);
    reveal_strlit("raindrop");
    assert("raindrop"@.len() == 8);
    let acc0 = Seq::<(Seq<char>, JsonModel)>::empty();
    lemma_lookup_empty("note"@);
    let acc1 = acc0 + entry::<String>("id"@, x.id);
    let acc2 = acc1 + entry::<String>("note"@, x.note);
    let acc3 = acc2 + entry::<String>("created"@, x.created);
    let acc4 = acc3 + entry::<String>("title"@, x.title);
    let acc5 = acc4 + opt_entry::<Vec<String>>("tags"@, x.tags);
    let acc6 = acc5 + entry::<String>("link"@, x.link);
    let acc7 = acc6 + opt_entry::<RaindropRef>("raindrop"@, x.raindrop);
    lemma_lookup_then_entry::<String>(acc0, "id"@, x.id, "note"@);
    lemma_lookup_then_entry::<String>(acc1, "note"@, x.note, "note"@);
    lemma_lookup_then_entry::<String>(acc2, "created"@, x.created, "note"@);
    lemma_lookup_then_entry::<String>(acc3, "title"@, x.title, "note"@);
    lemma_lookup_then_opt_entry::<Vec<String>>(acc4, "tags"@, x.tags, "note"@);
    lemma_lookup_then_entry::<String>(acc5, "link"@, x.link, "note"@);
    lemma_lookup_then_opt_entry::<RaindropRef>(acc6, "raindrop"@, x.raindrop, "note"@);
}

/// The `created` member of an encoded `HighlightMetadata`.
pub(crate) proof fn lemma_highlight_metadata_created(x: HighlightMetadata)
    ensures
        HighlightMetadata::wire_of(x).field("created"@) == Some(<String as Wire>::wire_of(x.created)),
{
    reveal_strlit("created");
    assert("created"@.len() == 7);
    reveal_strlit("id");
    assert("id"@.len() == 2);
    reveal_strlit("note");
    assert("note"@.len() == 4);
    reveal_strlit("title");
    assert("title"@.len() == 5);
    reveal_strlit("tags");
    assert("tags"@.len() == 4);
    reveal_strlit("link");
    assert("link"@.len() == 4);
    reveal_strlit("raindrop");
    assert("raindrop"@.len() == 8);
    let acc0 = Seq::<(Seq<char>, JsonModel)>::empty();
    lemma_lookup_empty("created"@);
    let acc1 = acc0 + entry::<String>("id"@, x.id);
    let acc2 = acc1 + entry::<String>("note"@, x.note);
    let acc3 = acc2 + entry::<String>("created"@, x.created);
    let acc4 = acc3 + entry::<String>("title"@, x.title);
    let acc5 = acc4 + opt_entry::<Vec<String>>("tags"@, x.tags);
    let acc6 = acc5 + entry::<String>("link"@, x.link);
    let acc7 = acc6 + opt_entry::<RaindropRef>("raindrop"@, x.raindrop);
    lemma_lookup_then_entry::<String>(acc0, "id"@, x.id, "created"@);
    lemma_lookup_then_entry::<String>(acc1, "note"@, x.note, "created"@);
    lemma_lookup_then_entry::<String>(acc2, "created"@, x.created, "created"@);
    lemma_lookup_then_entry::<String>(acc3, "title"@, x.title, "created"@);
    lemma_lookup_then_opt_entry::<Vec<String>>(acc4, "tags"@, x.tags, "created"@);
    lemma_lookup_then_entry::<String>(acc5, "link"@, x.link, "created"@);
    lemma_lookup_then_opt_entry::<RaindropRef>(acc6, "raindrop"@, x.raindrop, "created"@);
}

/// The `title` member of an encoded `HighlightMetadata`.
pub(crate) proof fn lemma_highlight_metadata_title(x: HighlightMetadata)
    ensures
        HighlightMetadata::wire_of(x).field("title"@) == Some(<String as Wire>::wire_of(x.title)),
{
    reveal_strlit("title");
    assert("title"@.len() == 5);
    reveal_strlit("id");
    assert("id"@.len() == 2);
    reveal_strlit("note");
    assert("note"@.len() == 4);
    reveal_strlit("created");
    assert("created"@.len() == 7);
    reveal_strlit("tags");
    assert("tags"@.len() == 4);
    reveal_strlit("link");
    assert("link"@.len() == 4);
    reveal_strlit("raindrop");
    assert("raindrop"@.len() == 8);
    let acc0 = Seq::<(Seq<char>, JsonModel)>::empty();
    lemma_lookup_empty("title"@);
    let acc1 = acc0 + entry::<String>("id"@, x.id);
    let acc2 = acc1 + entry::<String>("note"@, x.note);
    let acc3 = acc2 + entry::<String>("created"@, x.created);
    let acc4 = acc3 + entry::<String>("title"@, x.title);
    let acc5 = acc4 + opt_entry::<Vec<String>>("tags"@, x.tags);
    let acc6 = acc5 + entry::<String>("link"@, x.link);
    let acc7 = acc6 + opt_entry::<RaindropRef>("raindrop"@, x.raindrop);
    lemma_lookup_then_entry::<String>(acc0, "id"@, x.id, "title"@);
    lemma_lookup_then_entry::<String>(acc1, "note"@, x.note, "title"@);
    lemma_lookup_then_entry::<String>(acc2, "created"@, x.created, "title"@);
    lemma_lookup_then_entry::<String>(acc3, "title"@, x.title, "title"@);
    lemma_lookup_then_opt_entry::<Vec<String>>(acc4, "tags"@, x.tags, "title"@);
    lemma_lookup_then_entry::<String>(acc5, "link"@, x.link, "title"@);
    lemma_lookup_then_opt_entry::<RaindropRef>(acc6, "raindrop"@, x.raindrop, "title"@);
}

/// The `tags` member of an encoded `HighlightMetadata`.
pub(crate) proof fn lemma_highlight_metadata_tags(x: HighlightMetadata)
    ensures
        HighlightMetadata::wire_of(x).field("tags"@) == Some(match x.tags { Some(y) => <Vec<String> as Wire>::wire_of(y), None => JsonModel::Null }),
{
    reveal_strlit("tags");
    assert("tags"@.len() == 4);
    reveal_strlit("id");
    assert("id"@.len() == 2);
    reveal_strlit("note");
    assert("note"@[0] != "tags"@[0]);
    reveal_strlit("created");
    assert("created"@.len() == 7);
    reveal_strlit("title");
    assert("title"@.len() == 5);
    reveal_strlit("link");
    assert("link"@[0] != "tags"@[0]);
    reveal_strlit("raindrop");
    assert("raindrop"@.len() == 8);
    let acc0 = Seq::<(Seq<char>, JsonModel)>::empty();
    lemma_lookup_empty("tags"@);
    let acc1 = acc0 + entry::<String>("id"@, x.id);
    let acc2 = acc1 + entry::<String>("note"@, x.note);
    let acc3 = acc2 + entry::<String>("created"@, x.created);
    let acc4 = acc3 + entry::<String>("title"@, x.title);
    let acc5 = acc4 + opt_entry::<Vec<String>>("tags"@, x.tags);
    let acc6 = acc5 + entry::<String>("link"@, x.link);
    let acc7 = acc6 + opt_entry::<RaindropRef>("raindrop"@, x.raindrop);
    lemma_lookup_then_entry::<String>(acc0, "id"@, x.id, "tags"@);
    lemma_lookup_then_entry::<String>(acc1, "note"@, x.note, "tags"@);
    lemma_lookup_then_entry::<String>(acc2, "created"@, x.created, "tags"@);
    lemma_lookup_then_entry::<String>(acc3, "title"@, x.title, "tags"@);
    lemma_lookup_then_opt_entry::<Vec<String>>(acc4, "tags"@, x.tags, "tags"@);
    lemma_lookup_then_entry::<String>(acc5, "link"@, x.link, "tags"@);
    lemma_lookup_then_opt_entry::<RaindropRef>(acc6, "raindrop"@, x.raindrop, "tags"@);
}

/// The `link` member of an encoded `HighlightMetadata`.
pub(crate) proof fn lemma_highlight_metadata_link(x: HighlightMetadata)
    ensures
        HighlightMetadata::wire_of(x).field("link"@) == Some(<String as Wire>::wire_of(x.link)),
{
    reveal_strlit("link");
    assert("link"@.len() == 4);
    reveal_strlit("id");
    assert("id"@.len() == 2);
    reveal_strlit("note");
    assert("note"@[0] != "link"@[0]);
    reveal_strlit("created");
    assert("created"@.len() == 7);
    reveal_strlit("title");
    assert("title"@.len() == 5);
    reveal_strlit("tags");
    assert("tags"@[0] != "link"@[0]);
    reveal_strlit("raindrop");
    assert("raindrop"@.len() == 8);
    let acc0 = Seq::<(Seq<char>, JsonModel)>::empty();
    lemma_lookup_empty("link"@);
    let acc1 = acc0 + entry::<String>("id"@, x.id);
    let acc2 = acc1 + entry::<String>("note"@, x.note);
    let acc3 = acc2 + entry::<String>("created"@, x.created);
    let acc4 = acc3 + entry::<String>("title"@, x.title);
    let acc5 = acc4 + opt_entry::<Vec<String>>("tags"@, x.tags);
    let acc6 = acc5 + entry::<String>("link"@, x.link);
    let acc7 = acc6 + opt_entry::<RaindropRef>("raindrop"@, x.raindrop);
    lemma_lookup_then_entry::<String>(acc0, "id"@, x.id, "link"@);
    lemma_lookup_then_entry::<String>(acc1, "note"@, x.note, "link"@);
    lemma_lookup_then_entry::<String>(acc2, "created"@, x.created, "link"@);
    lemma_lookup_then_entry::<String>(acc3, "title"@, x.title, "link"@);
    lemma_lookup_then_opt_entry::<Vec<String>>(acc4, "tags"@, x.tags, "link"@);
    lemma_lookup_then_entry::<String>(acc5, "link"@, x.link, "link"@);
    lemma_lookup_then_opt_entry::<RaindropRef>(acc6, "raindrop"@, x.raindrop, "link"@);
}

/// The `raindrop` member of an encoded `HighlightMetadata`.
pub(crate) proof fn lemma_highlight_metadata_raindrop(x: HighlightMetadata)
    ensures
        HighlightMetadata::wire_of(x).field("raindrop"@) == Some(match x.raindrop { Some(y) => <RaindropRef as Wire>::wire_of(y), None => JsonModel::Null }),
{
    reveal_strlit("raindrop");
    assert("raindrop"@.len() == 8);
    reveal_strlit("id");
    assert("id"@.len() == 2);
    reveal_strlit("note");
    assert("note"@.len() == 4);
    reveal_strlit("created");
    assert("created"@.len() == 7);
    reveal_strlit("title");
    assert("title"@.len() == 5);
    reveal_strlit("tags");
    assert("tags"@.len() == 4);
    reveal_strlit("link");
    assert("link"@.len() == 4);
    let acc0 = Seq::<(Seq<char>, JsonModel)>::empty();
    lemma_lookup_empty("raindrop"@);
    let acc1 = acc0 + entry::<String>("id"@, x.id);
    let acc2 = acc1 + entry::<String>("note"@, x.note);
    let acc3 = acc2 + entry::<String>("created"@, x.created);
    let acc4 = acc3 + entry::<String>("title"@, x.title);
    let acc5 = acc4 + opt_entry::<Vec<String>>("tags"@, x.tags);
    let acc6 = acc5 + entry::<String>("link"@, x.link);
    let acc7 = acc6 + opt_entry::<RaindropRef>("raindrop"@, x.raindrop);
    lemma_lookup_then_entry::<String>(acc0, "id"@, x.id, "raindrop"@);
    lemma_lookup_then_entry::<String>(acc1, "note"@, x.note, "raindrop"@);
    lemma_lookup_then_entry::<String>(acc2, "created"@, x.created, "raindrop"@);
    lemma_lookup_then_entry::<String>(acc3, "title"@, x.title, "raindrop"@);
    lemma_lookup_then_opt_entry::<Vec<String>>(acc4, "tags"@, x.tags, "raindrop"@);
    lemma_lookup_then_entry::<String>(acc5, "link"@, x.link, "raindrop"@);
    lemma_lookup_then_opt_entry::<RaindropRef>(acc6, "raindrop"@, x.raindrop, "raindrop"@);
}

/// The envelope around a list of highlights.
#[derive(Debug, Clone)]
pub struct HighlightsResponse {
    pub items: Vec<Highlight>,
}

impl Wire for HighlightsResponse {
    open spec fn wire_ok(j: JsonModel) -> bool {
        &&& j is Object
        &&& req_ok::<Vec<Highlight>>(j.field("items"@))
    }

    open spec fn wire_is(j: JsonModel, x: HighlightsResponse) -> bool {
        &&& j is Object
        &&& req_is::<Vec<Highlight>>(j.field("items"@), x.items)
    }

    open spec fn wire_of(x: HighlightsResponse) -> JsonModel {
        JsonModel::Object(
            Seq::empty()
                + entry::<Vec<Highlight>>("items"@, x.items)
        )
    }

    fn decode(j: &Json) -> (r: Result<HighlightsResponse, String>) {
        match expect_object(j) {
            Ok(()) => {},
            Err(e) => return Err(e),
        }
        let items = match decode_field::<Vec<Highlight>>(j, "items") {
            Ok(v) => v,
            Err(e) => return Err(e),
        };
        Ok(HighlightsResponse { items })
    }

    fn encode(&self) -> (r: Json) {
        let mut fields = no_fields();
        push_field::<Vec<Highlight>>(&mut fields, "items", &self.items);
        object(fields)
    }

    proof fn lemma_round_trip(x: Self) {
        lemma_highlights_response_items(x);
        <Vec<Highlight> as Wire>::lemma_round_trip(x.items);
        let j = Self::wire_of(x);
        assert(req_ok::<Vec<Highlight>>(j.field("items"@)));
        assert(req_is::<Vec<Highlight>>(j.field("items"@), x.items));
        assert forall|y: Self| #[trigger] Self::wire_is(j, y) implies Self::wire_of(y) == j by {
            assert(entry::<Vec<Highlight>>("items"@, y.items) == entry::<Vec<Highlight>>("items"@, x.items));
        }
    }
}

/// The `items` member of an encoded `HighlightsResponse`.
pub(crate) proof fn lemma_highlights_response_items(x: HighlightsResponse)
    ensures
        HighlightsResponse::wire_of(x).field("items"@) == Some(<Vec<Highlight> as Wire>::wire_of(x.items)),
{
    reveal_strlit("items");
    assert("items"@.len() == 5);
    let acc0 = Seq::<(Seq<char>, JsonModel)>::empty();
    lemma_lookup_empty("items"@);
    let acc1 = acc0 + entry::<Vec<Highlight>>("items"@, x.items);
    lemma_lookup_then_entry::<Vec<Highlight>>(acc0, "items"@, x.items, "items"@);
}

} // verus!
