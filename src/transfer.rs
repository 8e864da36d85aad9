//! Imports and exports.
use crate::json::{Json, JsonModel};
use crate::wire::{lemma_lookup_then_entry, lemma_lookup_then_opt_entry, lemma_opt_round_trip, lemma_lookup_empty, Wire, req_ok, req_is, opt_ok, opt_is, entry, opt_entry, decode_field, decode_opt_field, push_field, push_opt, expect_object, object, no_fields, text_is};
use vstd::prelude::*;
use vstd::string::StringExecFns;

verus! {

/// How to import bookmarks.
#[derive(Debug, Clone)]
pub struct ImportOptions {
    pub format: Option<ImportFormat>,
    pub mode: Option<ImportMode>,
}

impl Wire for ImportOptions {
    open spec fn wire_ok(j: JsonModel) -> bool {
        &&& j is Object
        &&& opt_ok::<ImportFormat>(j.field("format"@))
        &&& opt_ok::<ImportMode>(j.field("mode"@))
    }

    open spec fn wire_is(j: JsonModel, x: ImportOptions) -> bool {
        &&& j is Object
        &&& opt_is::<ImportFormat>(j.field("format"@), x.format)
        &&& opt_is::<ImportMode>(j.field("mode"@), x.mode)
    }

    open spec fn wire_of(x: ImportOptions) -> JsonModel {
        JsonModel::Object(
            Seq::empty()
                + opt_entry::<ImportFormat>("format"@, x.format)
                + opt_entry::<ImportMode>("mode"@, x.mode)
        )
    }

    fn decode(j: &Json) -> (r: Result<ImportOptions, String>) {
        match expect_object(j) {
            Ok(()) => {},
            Err(e) => return Err(e),
        }
        let format = match decode_opt_field::<ImportFormat>(j, "format") {
            Ok(v) => v,
            Err(e) => return Err(e),
        };
        let mode = match decode_opt_field::<ImportMode>(j, "mode") {
            Ok(v) => v,
            Err(e) => return Err(e),
        };
        Ok(ImportOptions { format, mode })
    }

    fn encode(&self) -> (r: Json) {
        let mut fields = no_fields();
        push_opt::<ImportFormat>(&mut fields, "format", &self.format);
        push_opt::<ImportMode>(&mut fields, "mode", &self.mode);
        object(fields)
    }

    proof fn lemma_round_trip(x: Self) {
        lemma_import_options_format(x);
        lemma_opt_round_trip::<ImportFormat>(x.format);
        lemma_import_options_mode(x);
        lemma_opt_round_trip::<ImportMode>(x.mode);
        let j = Self::wire_of(x);
        assert(opt_ok::<ImportFormat>(j.field("format"@)));
        assert(opt_ok::<ImportMode>(j.field("mode"@)));
        assert(opt_is::<ImportFormat>(j.field("format"@), x.format));
        assert(opt_is::<ImportMode>(j.field("mode"@), x.mode));
        assert forall|y: Self| #[trigger] Self::wire_is(j, y) implies Self::wire_of(y) == j by {
            assert(opt_entry::<ImportFormat>("format"@, y.format) == opt_entry::<ImportFormat>("format"@, x.format));
            assert(opt_entry::<ImportMode>("mode"@, y.mode) == opt_entry::<ImportMode>("mode"@, x.mode));
        }
    }
}

/// The `format` member of an encoded `ImportOptions`.
pub(crate) proof fn lemma_import_options_format(x: ImportOptions)
    ensures
        ImportOptions::wire_of(x).field("format"@) == Some(match x.format { Some(y) => <ImportFormat as Wire>::wire_of(y), None => JsonModel::Null }),
{
    reveal_strlit("format");
    assert("format"@.len() == 6);
    reveal_strlit("mode");
    assert("mode"@.len() == 4);
    let acc0 = Seq::<(Seq<char>, JsonModel)>::empty();
    lemma_lookup_empty("format"@);
    let acc1 = acc0 + opt_entry::<ImportFormat>("format"@, x.format);
    let acc2 = acc1 + opt_entry::<ImportMode>("mode"@, x.mode);
    lemma_lookup_then_opt_entry::<ImportFormat>(acc0, "format"@, x.format, "format"@);
    lemma_lookup_then_opt_entry::<ImportMode>(acc1, "mode"@, x.mode, "format"@);
}

/// The `mode` member of an encoded `ImportOptions`.
pub(crate) proof fn lemma_import_options_mode(x: ImportOptions)
    ensures
        ImportOptions::wire_of(x).field("mode"@) == Some(match x.mode { Some(y) => <ImportMode as Wire>::wire_of(y), None => JsonModel::Null }),
{
    reveal_strlit("mode");
    assert("mode"@.len() == 4);
    reveal_strlit("format");
    assert("format"@.len() == 6);
    let acc0 = Seq::<(Seq<char>, JsonModel)>::empty();
    lemma_lookup_empty("mode"@);
    let acc1 = acc0 + opt_entry::<ImportFormat>("format"@, x.format);
    let acc2 = acc1 + opt_entry::<ImportMode>("mode"@, x.mode);
    lemma_lookup_then_opt_entry::<ImportFormat>(acc0, "format"@, x.format, "mode"@);
    lemma_lookup_then_opt_entry::<ImportMode>(acc1, "mode"@, x.mode, "mode"@);
}

/// The file formats bookmarks can be imported from.
#[derive(Debug, Clone, Copy, PartialEq, Eq, Structural)]
pub enum ImportFormat {
    Html,
    Csv,
    Pocket,
    Instapaper,
    Netscape,
    Readwise,
}

impl ImportFormat {
    /// The name of this value on the wire.
    pub open spec fn spec_wire_name(self) -> Seq<char> {
        match self {
            ImportFormat::Html => "html"@,
            ImportFormat::Csv => "csv"@,
            ImportFormat::Pocket => "pocket"@,
            ImportFormat::Instapaper => "instapaper"@,
            ImportFormat::Netscape => "netscape"@,
            ImportFormat::Readwise => "readwise"@,
        }
    }

    /// The value named `s` on the wire, if any.
    pub open spec fn spec_from_wire_name(s: Seq<char>) -> Option<Self> {
        if s == "html"@ {
            Some(ImportFormat::Html)
        } else if s == "csv"@ {
            Some(ImportFormat::Csv)
        } else if s == "pocket"@ {
            Some(ImportFormat::Pocket)
        } else if s == "instapaper"@ {
            Some(ImportFormat::Instapaper)
        } else if s == "netscape"@ {
            Some(ImportFormat::Netscape)
        } else if s == "readwise"@ {
            Some(ImportFormat::Readwise)
        } else {
            None
        }
    }

    /// The name of this value on the wire.
    pub fn wire_name(&self) -> (r: &'static str)
        ensures
            r@ == self.spec_wire_name(),
    {
        match self {
            ImportFormat::Html => "html",
            ImportFormat::Csv => "csv",
            ImportFormat::Pocket => "pocket",
            ImportFormat::Instapaper => "instapaper",
            ImportFormat::Netscape => "netscape",
            ImportFormat::Readwise => "readwise",
        }
    }

    /// The value named `s` on the wire, if any.
    pub fn from_wire_name(s: &str) -> (r: Option<Self>)
        ensures
            r == Self::spec_from_wire_name(s@),
    {
        if text_is(s, "html") {
            Some(ImportFormat::Html)
        } else if text_is(s, "csv") {
            Some(ImportFormat::Csv)
        } else if text_is(s, "pocket") {
            Some(ImportFormat::Pocket)
        } else if text_is(s, "instapaper") {
            Some(ImportFormat::Instapaper)
        } else if text_is(s, "netscape") {
            Some(ImportFormat::Netscape)
        } else if text_is(s, "readwise") {
            Some(ImportFormat::Readwise)
        } else {
            None
        }
    }
}

impl Wire for ImportFormat {
    open spec fn wire_ok(j: JsonModel) -> bool {
        j matches JsonModel::Str(s) && Self::spec_from_wire_name(s) is Some
    }

    open spec fn wire_is(j: JsonModel, x: ImportFormat) -> bool {
        j matches JsonModel::Str(s) && Self::spec_from_wire_name(s) == Some(x)
    }

    open spec fn wire_of(x: ImportFormat) -> JsonModel {
        JsonModel::Str(x.spec_wire_name())
    }

    fn decode(j: &Json) -> (r: Result<ImportFormat, String>) {
        match j {
            Json::Str(s) => match Self::from_wire_name(s.as_str()) {
                Some(v) => Ok(v),
                None => Err(String::from_str("unknown variant of ImportFormat")),
            },
            _ => Err(String::from_str("expected a string")),
        }
    }

    fn encode(&self) -> (r: Json) {
        Json::Str(String::from_str(self.wire_name()))
    }

    proof fn lemma_round_trip(x: Self) {
        reveal_strlit("csv");
        reveal_strlit("html");
        reveal_strlit("instapaper");
        reveal_strlit("netscape");
        reveal_strlit("pocket");
        reveal_strlit("readwise");
        assert("csv"@.len() == 3);
        assert("html"@.len() == 4);
        assert("instapaper"@.len() == 10);
        assert("netscape"@.len() == 8);
        assert("pocket"@.len() == 6);
        assert("readwise"@.len() == 8);
        assert("netscape"@[0] != "readwise"@[0]);
        match x {
            ImportFormat::Html => {},
            ImportFormat::Csv => {},
            ImportFormat::Pocket => {},
            ImportFormat::Instapaper => {},
            ImportFormat::Netscape => {},
            ImportFormat::Readwise => {},
        }
    }
}

/// Whether an import adds to or replaces the bookmarks.
#[derive(Debug, Clone, Copy, PartialEq, Eq, Structural)]
pub enum ImportMode {
    Add,
    Replace,
}

impl ImportMode {
    /// The name of this value on the wire.
    pub open spec fn spec_wire_name(self) -> Seq<char> {
        match self {
            ImportMode::Add => "add"@,
            ImportMode::Replace => "replace"@,
        }
    }

    /// The value named `s` on the wire, if any.
    pub open spec fn spec_from_wire_name(s: Seq<char>) -> Option<Self> {
        if s == "add"@ {
            Some(ImportMode::Add)
        } else if s == "replace"@ {
            Some(ImportMode::Replace)
        } else {
            None
        }
    }

    /// The name of this value on the wire.
    pub fn wire_name(&self) -> (r: &'static str)
        ensures
            r@ == self.spec_wire_name(),
    {
        match self {
            ImportMode::Add => "add",
            ImportMode::Replace => "replace",
        }
    }

    /// The value named `s` on the wire, if any.
    pub fn from_wire_name(s: &str) -> (r: Option<Self>)
        ensures
            r == Self::spec_from_wire_name(s@),
    {
        if text_is(s, "add") {
            Some(ImportMode::Add)
        } else if text_is(s, "replace") {
            Some(ImportMode::Replace)
        } else {
            None
        }
    }
}

impl Wire for ImportMode {
    open spec fn wire_ok(j: JsonModel) -> bool {
        j matches JsonModel::Str(s) && Self::spec_from_wire_name(s) is Some
    }

    open spec fn wire_is(j: JsonModel, x: ImportMode) -> bool {
        j matches JsonModel::Str(s) && Self::spec_from_wire_name(s) == Some(x)
    }

    open spec fn wire_of(x: ImportMode) -> JsonModel {
        JsonModel::Str(x.spec_wire_name())
    }

    fn decode(j: &Json) -> (r: Result<ImportMode, String>) {
        match j {
            Json::Str(s) => match Self::from_wire_name(s.as_str()) {
                Some(v) => Ok(v),
                None => Err(String::from_str("unknown variant of ImportMode")),
            },
            _ => Err(String::from_str("expected a string")),
        }
    }

    fn encode(&self) -> (r: Json) {
        Json::Str(String::from_str(self.wire_name()))
    }

    proof fn lemma_round_trip(x: Self) {
        reveal_strlit("add");
        reveal_strlit("replace");
        assert("add"@.len() == 3);
        assert("replace"@.len() == 7);
        match x {
            ImportMode::Add => {},
            ImportMode::Replace => {},
        }
    }
}

/// The progress of an import.
#[derive(Debug, Clone)]
pub struct ImportStatus {
    pub status: ProcessStatus,
    pub progress: Option<i32>,
    pub imported: Option<i32>,
    pub duplicates: Option<i32>,
    pub error: Option<String>,
}

impl Wire for ImportStatus {
    open spec fn wire_ok(j: JsonModel) -> bool {
        &&& j is Object
        &&& req_ok::<ProcessStatus>(j.field("status"@))
        &&& opt_ok::<i32>(j.field("progress"@))
        &&& opt_ok::<i32>(j.field("imported"@))
        &&& opt_ok::<i32>(j.field("duplicates"@))
        &&& opt_ok::<String>(j.field("error"@))
    }

    open spec fn wire_is(j: JsonModel, x: ImportStatus) -> bool {
        &&& j is Object
        &&& req_is::<ProcessStatus>(j.field("status"@), x.status)
        &&& opt_is::<i32>(j.field("progress"@), x.progress)
        &&& opt_is::<i32>(j.field("imported"@), x.imported)
        &&& opt_is::<i32>(j.field("duplicates"@), x.duplicates)
        &&& opt_is::<String>(j.field("error"@), x.error)
    }

    open spec fn wire_of(x: ImportStatus) -> JsonModel {
        JsonModel::Object(
            Seq::empty()
                + entry::<ProcessStatus>("status"@, x.status)
                + opt_entry::<i32>("progress"@, x.progress)
                + opt_entry::<i32>("imported"@, x.imported)
                + opt_entry::<i32>("duplicates"@, x.duplicates)
                + opt_entry::<String>("error"@, x.error)
        )
    }

    fn decode(j: &Json) -> (r: Result<ImportStatus, String>) {
        match expect_object(j) {
            Ok(()) => {},
            Err(e) => return Err(e),
        }
        let status = match decode_field::<ProcessStatus>(j, "status") {
            Ok(v) => v,
            Err(e) => return Err(e),
        };
        let progress = match decode_opt_field::<i32>(j, "progress") {
            Ok(v) => v,
            Err(e) => return Err(e),
        };
        let imported = match decode_opt_field::<i32>(j, "imported") {
            Ok(v) => v,
            Err(e) => return Err(e),
        };
        let duplicates = match decode_opt_field::<i32>(j, "duplicates") {
            Ok(v) => v,
            Err(e) => return Err(e),
        };
        let error = match decode_opt_field::<String>(j, "error") {
            Ok(v) => v,
            Err(e) => return Err(e),
        };
        Ok(ImportStatus { status, progress, imported, duplicates, error })
    }

    fn encode(&self) -> (r: Json) {
        let mut fields = no_fields();
        push_field::<ProcessStatus>(&mut fields, "status", &self.status);
        push_opt::<i32>(&mut fields, "progress", &self.progress);
        push_opt::<i32>(&mut fields, "imported", &self.imported);
        push_opt::<i32>(&mut fields, "duplicates", &self.duplicates);
        push_opt::<String>(&mut fields, "error", &self.error);
        object(fields)
    }

    proof fn lemma_round_trip(x: Self) {
        lemma_import_status_status(x);
        <ProcessStatus as Wire>::lemma_round_trip(x.status);
        lemma_import_status_progress(x);
        lemma_opt_round_trip::<i32>(x.progress);
        lemma_import_status_imported(x);
        lemma_opt_round_trip::<i32>(x.imported);
        lemma_import_status_duplicates(x);
        lemma_opt_round_trip::<i32>(x.duplicates);
        lemma_import_status_error(x);
        lemma_opt_round_trip::<String>(x.error);
        let j = Self::wire_of(x);
        assert(req_ok::<ProcessStatus>(j.field("status"@)));
        assert(opt_ok::<i32>(j.field("progress"@)));
        assert(opt_ok::<i32>(j.field("imported"@)));
        assert(opt_ok::<i32>(j.field("duplicates"@)));
        assert(opt_ok::<String>(j.field("error"@)));
        assert(req_is::<ProcessStatus>(j.field("status"@), x.status));
        assert(opt_is::<i32>(j.field("progress"@), x.progress));
        assert(opt_is::<i32>(j.field("imported"@), x.imported));
        assert(opt_is::<i32>(j.field("duplicates"@), x.duplicates));
        assert(opt_is::<String>(j.field("error"@), x.error));
        assert forall|y: Self| #[trigger] Self::wire_is(j, y) implies Self::wire_of(y) == j by {
            assert(entry::<ProcessStatus>("status"@, y.status) == entry::<ProcessStatus>("status"@, x.status));
            assert(opt_entry::<i32>("progress"@, y.progress) == opt_entry::<i32>("progress"@, x.progress));
            assert(opt_entry::<i32>("imported"@, y.imported) == opt_entry::<i32>("imported"@, x.imported));
            assert(opt_entry::<i32>("duplicates"@, y.duplicates) == opt_entry::<i32>("duplicates"@, x.duplicates));
            assert(opt_entry::<String>("error"@, y.error) == opt_entry::<String>("error"@, x.error));
        }
    }
}

/// The `status` member of an encoded `ImportStatus`.
pub(crate) proof fn lemma_import_status_status(x: ImportStatus)
    ensures
        ImportStatus::wire_of(x).field("status"@) == Some(<ProcessStatus as Wire>::wire_of(x.status)),
{
    reveal_strlit("status");
    assert("status"@.len() == 6);
    reveal_strlit("progress");
    assert("progress"@.len() == 8);
    reveal_strlit("imported");
    assert("imported"@.len() == 8);
    reveal_strlit("duplicates");
    assert("duplicates"@.len() == 10);
    reveal_strlit("error");
    assert("error"@.len() == 5);
    let acc0 = Seq::<(Seq<char>, JsonModel)>::empty();
    lemma_lookup_empty("status"@);
    let acc1 = acc0 + entry::<ProcessStatus>("status"@, x.status);
    let acc2 = acc1 + opt_entry::<i32>("progress"@, x.progress);
    let acc3 = acc2 + opt_entry::<i32>("imported"@, x.imported);
    let acc4 = acc3 + opt_entry::<i32>("duplicates"@, x.duplicates);
    let acc5 = acc4 + opt_entry::<String>("error"@, x.error);
    lemma_lookup_then_entry::<ProcessStatus>(acc0, "status"@, x.status, "status"@);
    lemma_lookup_then_opt_entry::<i32>(acc1, "progress"@, x.progress, "status"@);
    lemma_lookup_then_opt_entry::<i32>(acc2, "imported"@, x.imported, "status"@);
    lemma_lookup_then_opt_entry::<i32>(acc3, "duplicates"@, x.duplicates, "status"@);
    lemma_lookup_then_opt_entry::<String>(acc4, "error"@, x.error, "status"@);
}

/// The `progress` member of an encoded `ImportStatus`.
pub(crate) proof fn lemma_import_status_progress(x: ImportStatus)
    ensures
        ImportStatus::wire_of(x).field("progress"@) == Some(match x.progress { Some(y) => <i32 as Wire>::wire_of(y), None => JsonModel::Null }),
{
    reveal_strlit("progress");
    assert("progress"@.len() == 8);
    reveal_strlit("status");
    assert("status"@.len() == 6);
    reveal_strlit("imported");
    assert("imported"@[0] != "progress"@[0]);
    reveal_strlit("duplicates");
    assert("duplicates"@.len() == 10);
    reveal_strlit("error");
    assert("error"@.len() == 5);
    let acc0 = Seq::<(Seq<char>, JsonModel)>::empty();
    lemma_lookup_empty("progress"@);
    let acc1 = acc0 + entry::<ProcessStatus>("status"@, x.status);
    let acc2 = acc1 + opt_entry::<i32>("progress"@, x.progress);
    let acc3 = acc2 + opt_entry::<i32>("imported"@, x.imported);
    let acc4 = acc3 + opt_entry::<i32>("duplicates"@, x.duplicates);
    let acc5 = acc4 + opt_entry::<String>("error"@, x.error);
    lemma_lookup_then_entry::<ProcessStatus>(acc0, "status"@, x.status, "progress"@);
    lemma_lookup_then_opt_entry::<i32>(acc1, "progress"@, x.progress, "progress"@);
    lemma_lookup_then_opt_entry::<i32>(acc2, "imported"@, x.imported, "progress"@);
    lemma_lookup_then_opt_entry::<i32>(acc3, "duplicates"@, x.duplicates, "progress"@);
    lemma_lookup_then_opt_entry::<String>(acc4, "error"@, x.error, "progress"@);
}

/// The `imported` member of an encoded `ImportStatus`.
pub(crate) proof fn lemma_import_status_imported(x: ImportStatus)
    ensures
        ImportStatus::wire_of(x).field("imported"@) == Some(match x.imported { Some(y) => <i32 as Wire>::wire_of(y), None => JsonModel::Null }),
{
    reveal_strlit("imported");
    assert("imported"@.len() == 8);
    reveal_strlit("status");
    assert("status"@.len() == 6);
    reveal_strlit("progress");
    assert("progress"@[0] != "imported"@[0]);
    reveal_strlit("duplicates");
    assert("duplicates"@.len() == 10);
    reveal_strlit("error");
    assert("error"@.len() == 5);
    let acc0 = Seq::<(Seq<char>, JsonModel)>::empty();
    lemma_lookup_empty("imported"@);
    let acc1 = acc0 + entry::<ProcessStatus>("status"@, x.status);
    let acc2 = acc1 + opt_entry::<i32>("progress"@, x.progress);
    let acc3 = acc2 + opt_entry::<i32>("imported"@, x.imported);
    let acc4 = acc3 + opt_entry::<i32>("duplicates"@, x.duplicates);
    let acc5 = acc4 + opt_entry::<String>("error"@, x.error);
    lemma_lookup_then_entry::<ProcessStatus>(acc0, "status"@, x.status, "imported"@);
    lemma_lookup_then_opt_entry::<i32>(acc1, "progress"@, x.progress, "imported"@);
    lemma_lookup_then_opt_entry::<i32>(acc2, "imported"@, x.imported, "imported"@);
    lemma_lookup_then_opt_entry::<i32>(acc3, "duplicates"@, x.duplicates, "imported"@);
    lemma_lookup_then_opt_entry::<String>(acc4, "error"@, x.error, "imported"@);
}

/// The `duplicates` member of an encoded `ImportStatus`.
pub(crate) proof fn lemma_import_status_duplicates(x: ImportStatus)
    ensures
        ImportStatus::wire_of(x).field("duplicates"@) == Some(match x.duplicates { Some(y) => <i32 as Wire>::wire_of(y), None => JsonModel::Null }),
{
    reveal_strlit("duplicates");
    assert("duplicates"@.len() == 10);
    reveal_strlit("status");
    assert("status"@.len() == 6);
    reveal_strlit("progress");
    assert("progress"@.len() == 8);
    reveal_strlit("imported");
    assert("imported"@.len() == 8);
    reveal_strlit("error");
    assert("error"@.len() == 5);
    let acc0 = Seq::<(Seq<char>, JsonModel)>::empty();
    lemma_lookup_empty("duplicates"@);
    let acc1 = acc0 + entry::<ProcessStatus>("status"@, x.status);
    let acc2 = acc1 + opt_entry::<i32>("progress"@, x.progress);
    let acc3 = acc2 + opt_entry::<i32>("imported"@, x.imported);
    let acc4 = acc3 + opt_entry::<i32>("duplicates"@, x.duplicates);
    let acc5 = acc4 + opt_entry::<String>("error"@, x.error);
    lemma_lookup_then_entry::<ProcessStatus>(acc0, "status"@, x.status, "duplicates"@);
    lemma_lookup_then_opt_entry::<i32>(acc1, "progress"@, x.progress, "duplicates"@);
    lemma_lookup_then_opt_entry::<i32>(acc2, "imported"@, x.imported, "duplicates"@);
    lemma_lookup_then_opt_entry::<i32>(acc3, "duplicates"@, x.duplicates, "duplicates"@);
    lemma_lookup_then_opt_entry::<String>(acc4, "error"@, x.error, "duplicates"@);
}

/// The `error` member of an encoded `ImportStatus`.
pub(crate) proof fn lemma_import_status_error(x: ImportStatus)
    ensures
        ImportStatus::wire_of(x).field("error"@) == Some(match x.error { Some(y) => <String as Wire>::wire_of(y), None => JsonModel::Null }),
{
    reveal_strlit("error");
    assert("error"@.len() == 5);
    reveal_strlit("status");
    assert("status"@.len() == 6);
    reveal_strlit("progress");
    assert("progress"@.len() == 8);
    reveal_strlit("imported");
    assert("imported"@.len() == 8);
    reveal_strlit("duplicates");
    assert("duplicates"@.len() == 10);
    let acc0 = Seq::<(Seq<char>, JsonModel)>::empty();
    lemma_lookup_empty("error"@);
    let acc1 = acc0 + entry::<ProcessStatus>("status"@, x.status);
    let acc2 = acc1 + opt_entry::<i32>("progress"@, x.progress);
    let acc3 = acc2 + opt_entry::<i32>("imported"@, x.imported);
    let acc4 = acc3 + opt_entry::<i32>("duplicates"@, x.duplicates);
    let acc5 = acc4 + opt_entry::<String>("error"@, x.error);
    lemma_lookup_then_entry::<ProcessStatus>(acc0, "status"@, x.status, "error"@);
    lemma_lookup_then_opt_entry::<i32>(acc1, "progress"@, x.progress, "error"@);
    lemma_lookup_then_opt_entry::<i32>(acc2, "imported"@, x.imported, "error"@);
    lemma_lookup_then_opt_entry::<i32>(acc3, "duplicates"@, x.duplicates, "error"@);
    lemma_lookup_then_opt_entry::<String>(acc4, "error"@, x.error, "error"@);
}

/// What to export, and in which format.
#[derive(Debug, Clone)]
pub struct ExportOptions {
    pub collection: Option<i64>,
    pub format: ExportFormat,
    pub broken: Option<bool>,
    pub duplicates: Option<bool>,
}

impl Wire for ExportOptions {
    open spec fn wire_ok(j: JsonModel) -> bool {
        &&& j is Object
        &&& opt_ok::<i64>(j.field("collection"@))
        &&& req_ok::<ExportFormat>(j.field("format"@))
        &&& opt_ok::<bool>(j.field("broken"@))
        &&& opt_ok::<bool>(j.field("duplicates"@))
    }

    open spec fn wire_is(j: JsonModel, x: ExportOptions) -> bool {
        &&& j is Object
        &&& opt_is::<i64>(j.field("collection"@), x.collection)
        &&& req_is::<ExportFormat>(j.field("format"@), x.format)
        &&& opt_is::<bool>(j.field("broken"@), x.broken)
        &&& opt_is::<bool>(j.field("duplicates"@), x.duplicates)
    }

    open spec fn wire_of(x: ExportOptions) -> JsonModel {
        JsonModel::Object(
            Seq::empty()
                + opt_entry::<i64>("collection"@, x.collection)
                + entry::<ExportFormat>("format"@, x.format)
                + opt_entry::<bool>("broken"@, x.broken)
                + opt_entry::<bool>("duplicates"@, x.duplicates)
        )
    }

    fn decode(j: &Json) -> (r: Result<ExportOptions, String>) {
        match expect_object(j) {
            Ok(()) => {},
            Err(e) => return Err(e),
        }
        let collection = match decode_opt_field::<i64>(j, "collection") {
            Ok(v) => v,
            Err(e) => return Err(e),
        };
        let format = match decode_field::<ExportFormat>(j, "format") {
            Ok(v) => v,
            Err(e) => return Err(e),
        };
        let broken = match decode_opt_field::<bool>(j, "broken") {
            Ok(v) => v,
            Err(e) => return Err(e),
        };
        let duplicates = match decode_opt_field::<bool>(j, "duplicates") {
            Ok(v) => v,
            Err(e) => return Err(e),
        };
        Ok(ExportOptions { collection, format, broken, duplicates })
    }

    fn encode(&self) -> (r: Json) {
        let mut fields = no_fields();
        push_opt::<i64>(&mut fields, "collection", &self.collection);
        push_field::<ExportFormat>(&mut fields, "format", &self.format);
        push_opt::<bool>(&mut fields, "broken", &self.broken);
        push_opt::<bool>(&mut fields, "duplicates", &self.duplicates);
        object(fields)
    }

    proof fn lemma_round_trip(x: Self) {
        lemma_export_options_collection(x);
        lemma_opt_round_trip::<i64>(x.collection);
        lemma_export_options_format(x);
        <ExportFormat as Wire>::lemma_round_trip(x.format);
        lemma_export_options_broken(x);
        lemma_opt_round_trip::<bool>(x.broken);
        lemma_export_options_duplicates(x);
        lemma_opt_round_trip::<bool>(x.duplicates);
        let j = Self::wire_of(x);
        assert(opt_ok::<i64>(j.field("collection"@)));
        assert(req_ok::<ExportFormat>(j.field("format"@)));
        assert(opt_ok::<bool>(j.field("broken"@)));
        assert(opt_ok::<bool>(j.field("duplicates"@)));
        assert(opt_is::<i64>(j.field("collection"@), x.collection));
        assert(req_is::<ExportFormat>(j.field("format"@), x.format));
        assert(opt_is::<bool>(j.field("broken"@), x.broken));
        assert(opt_is::<bool>(j.field("duplicates"@), x.duplicates));
        assert forall|y: Self| #[trigger] Self::wire_is(j, y) implies Self::wire_of(y) == j by {
            assert(opt_entry::<i64>("collection"@, y.collection) == opt_entry::<i64>("collection"@, x.collection));
            assert(entry::<ExportFormat>("format"@, y.format) == entry::<ExportFormat>("format"@, x.format));
            assert(opt_entry::<bool>("broken"@, y.broken) == opt_entry::<bool>("broken"@, x.broken));
            assert(opt_entry::<bool>("duplicates"@, y.duplicates) == opt_entry::<bool>("duplicates"@, x.duplicates));
        }
    }
}

/// The `collection` member of an encoded `ExportOptions`.
pub(crate) proof fn lemma_export_options_collection(x: ExportOptions)
    ensures
        ExportOptions::wire_of(x).field("collection"@) == Some(match x.collection { Some(y) => <i64 as Wire>::wire_of(y), None => JsonModel::Null }),
{
    reveal_strlit("collection");
    assert("collection"@.len() == 10);
    reveal_strlit("format");
    assert("format"@.len() == 6);
    reveal_strlit("broken");
    assert("broken"@.len() == 6);
    reveal_strlit("duplicates");
    assert("duplicates"@[0] != "collection"@[0]);
    let acc0 = Seq::<(Seq<char>, JsonModel)>::empty();
    lemma_lookup_empty("collection"@);
    let acc1 = acc0 + opt_entry::<i64>("collection"@, x.collection);
    let acc2 = acc1 + entry::<ExportFormat>("format"@, x.format);
    let acc3 = acc2 + opt_entry::<bool>("broken"@, x.broken);
    let acc4 = acc3 + opt_entry::<bool>("duplicates"@, x.duplicates);
    lemma_lookup_then_opt_entry::<i64>(acc0, "collection"@, x.collection, "collection"@);
    lemma_lookup_then_entry::<ExportFormat>(acc1, "format"@, x.format, "collection"@);
    lemma_lookup_then_opt_entry::<bool>(acc2, "broken"@, x.broken, "collection"@);
    lemma_lookup_then_opt_entry::<bool>(acc3, "duplicates"@, x.duplicates, "collection"@);
}

/// The `format` member of an encoded `ExportOptions`.
pub(crate) proof fn lemma_export_options_format(x: ExportOptions)
    ensures
        ExportOptions::wire_of(x).field("format"@) == Some(<ExportFormat as Wire>::wire_of(x.format)),
{
    reveal_strlit("format");
    assert("format"@.len() == 6);
    reveal_strlit("collection");
    assert("collection"@.len() == 10);
    reveal_strlit("broken");
    assert("broken"@[0] != "format"@[0]);
    reveal_strlit("duplicates");
    assert("duplicates"@.len() == 10);
    let acc0 = Seq::<(Seq<char>, JsonModel)>::empty();
    lemma_lookup_empty("format"@);
    let acc1 = acc0 + opt_entry::<i64>("collection"@, x.collection);
    let acc2 = acc1 + entry::<ExportFormat>("format"@, x.format);
    let acc3 = acc2 + opt_entry::<bool>("broken"@, x.broken);
    let acc4 = acc3 + opt_entry::<bool>("duplicates"@, x.duplicates);
    lemma_lookup_then_opt_entry::<i64>(acc0, "collection"@, x.collection, "format"@);
    lemma_lookup_then_entry::<ExportFormat>(acc1, "format"@, x.format, "format"@);
    lemma_lookup_then_opt_entry::<bool>(acc2, "broken"@, x.broken, "format"@);
    lemma_lookup_then_opt_entry::<bool>(acc3, "duplicates"@, x.duplicates, "format"@);
}

/// The `broken` member of an encoded `ExportOptions`.
pub(crate) proof fn lemma_export_options_broken(x: ExportOptions)
    ensures
        ExportOptions::wire_of(x).field("broken"@) == Some(match x.broken { Some(y) => <bool as Wire>::wire_of(y), None => JsonModel::Null }),
{
    reveal_strlit("broken");
    assert("broken"@.len() == 6);
    reveal_strlit("collection");
    assert("collection"@.len() == 10);
    reveal_strlit("format");
    assert("format"@[0] != "broken"@[0]);
    reveal_strlit("duplicates");
    assert("duplicates"@.len() == 10);
    let acc0 = Seq::<(Seq<char>, JsonModel)>::empty();
    lemma_lookup_empty("broken"@);
    let acc1 = acc0 + opt_entry::<i64>("collection"@, x.collection);
    let acc2 = acc1 + entry::<ExportFormat>("format"@, x.format);
    let acc3 = acc2 + opt_entry::<bool>("broken"@, x.broken);
    let acc4 = acc3 + opt_entry::<bool>("duplicates"@, x.duplicates);
    lemma_lookup_then_opt_entry::<i64>(acc0, "collection"@, x.collection, "broken"@);
    lemma_lookup_then_entry::<ExportFormat>(acc1, "format"@, x.format, "broken"@);
    lemma_lookup_then_opt_entry::<bool>(acc2, "broken"@, x.broken, "broken"@);
    lemma_lookup_then_opt_entry::<bool>(acc3, "duplicates"@, x.duplicates, "broken"@);
}

/// The `duplicates` member of an encoded `ExportOptions`.
pub(crate) proof fn lemma_export_options_duplicates(x: ExportOptions)
    ensures
        ExportOptions::wire_of(x).field("duplicates"@) == Some(match x.duplicates { Some(y) => <bool as Wire>::wire_of(y), None => JsonModel::Null }),
{
    reveal_strlit("duplicates");
    assert("duplicates"@.len() == 10);
    reveal_strlit("collection");
    assert("collection"@[0] != "duplicates"@[0]);
    reveal_strlit("format");
    assert("format"@.len() == 6);
    reveal_strlit("broken");
    assert("broken"@.len() == 6);
    let acc0 = Seq::<(Seq<char>, JsonModel)>::empty();
    lemma_lookup_empty("duplicates"@);
    let acc1 = acc0 + opt_entry::<i64>("collection"@, x.collection);
    let acc2 = acc1 + entry::<ExportFormat>("format"@, x.format);
    let acc3 = acc2 + opt_entry::<bool>("broken"@, x.broken);
    let acc4 = acc3 + opt_entry::<bool>("duplicates"@, x.duplicates);
    lemma_lookup_then_opt_entry::<i64>(acc0, "collection"@, x.collection, "duplicates"@);
    lemma_lookup_then_entry::<ExportFormat>(acc1, "format"@, x.format, "duplicates"@);
    lemma_lookup_then_opt_entry::<bool>(acc2, "broken"@, x.broken, "duplicates"@);
    lemma_lookup_then_opt_entry::<bool>(acc3, "duplicates"@, x.duplicates, "duplicates"@);
}

/// The file formats bookmarks can be exported to.
#[derive(Debug, Clone, Copy, PartialEq, Eq, Structural)]
pub enum ExportFormat {
    Csv,
    Html,
    Pdf,
}

impl ExportFormat {
    /// The name of this value on the wire.
    pub open spec fn spec_wire_name(self) -> Seq<char> {
        match self {
            ExportFormat::Csv => "csv"@,
            ExportFormat::Html => "html"@,
            ExportFormat::Pdf => "pdf"@,
        }
    }

    /// The value named `s` on the wire, if any.
    pub open spec fn spec_from_wire_name(s: Seq<char>) -> Option<Self> {
        if s == "csv"@ {
            Some(ExportFormat::Csv)
        } else if s == "html"@ {
            Some(ExportFormat::Html)
        } else if s == "pdf"@ {
            Some(ExportFormat::Pdf)
        } else {
            None
        }
    }

    /// The name of this value on the wire.
    pub fn wire_name(&self) -> (r: &'static str)
        ensures
            r@ == self.spec_wire_name(),
    {
        match self {
            ExportFormat::Csv => "csv",
            ExportFormat::Html => "html",
            ExportFormat::Pdf => "pdf",
        }
    }

    /// The value named `s` on the wire, if any.
    pub fn from_wire_name(s: &str) -> (r: Option<Self>)
        ensures
            r == Self::spec_from_wire_name(s@),
    {
        if text_is(s, "csv") {
            Some(ExportFormat::Csv)
        } else if text_is(s, "html") {
            Some(ExportFormat::Html)
        } else if text_is(s, "pdf") {
            Some(ExportFormat::Pdf)
        } else {
            None
        }
    }
}

impl Wire for ExportFormat {
    open spec fn wire_ok(j: JsonModel) -> bool {
        j matches JsonModel::Str(s) && Self::spec_from_wire_name(s) is Some
    }

    open spec fn wire_is(j: JsonModel, x: ExportFormat) -> bool {
        j matches JsonModel::Str(s) && Self::spec_from_wire_name(s) == Some(x)
    }

    open spec fn wire_of(x: ExportFormat) -> JsonModel {
        JsonModel::Str(x.spec_wire_name())
    }

    fn decode(j: &Json) -> (r: Result<ExportFormat, String>) {
        match j {
            Json::Str(s) => match Self::from_wire_name(s.as_str()) {
                Some(v) => Ok(v),
                None => Err(String::from_str("unknown variant of ExportFormat")),
            },
            _ => Err(String::from_str("expected a string")),
        }
    }

    fn encode(&self) -> (r: Json) {
        Json::Str(String::from_str(self.wire_name()))
    }

    proof fn lemma_round_trip(x: Self) {
        reveal_strlit("csv");
        reveal_strlit("html");
        reveal_strlit("pdf");
        assert("csv"@.len() == 3);
        assert("html"@.len() == 4);
        assert("pdf"@.len() == 3);
        assert("csv"@[0] != "pdf"@[0]);
        match x {
            ExportFormat::Csv => {},
            ExportFormat::Html => {},
            ExportFormat::Pdf => {},
        }
    }
}

/// The progress of an export.
#[derive(Debug, Clone)]
pub struct ExportStatus {
    pub status: ProcessStatus,
    pub progress: Option<i32>,
    pub url: Option<String>,
    pub error: Option<String>,
}

impl Wire for ExportStatus {
    open spec fn wire_ok(j: JsonModel) -> bool {
        &&& j is Object
        &&& req_ok::<ProcessStatus>(j.field("status"@))
        &&& opt_ok::<i32>(j.field("progress"@))
        &&& opt_ok::<String>(j.field("url"@))
        &&& opt_ok::<String>(j.field("error"@))
    }

    open spec fn wire_is(j: JsonModel, x: ExportStatus) -> bool {
        &&& j is Object
        &&& req_is::<ProcessStatus>(j.field("status"@), x.status)
        &&& opt_is::<i32>(j.field("progress"@), x.progress)
        &&& opt_is::<String>(j.field("url"@), x.url)
        &&& opt_is::<String>(j.field("error"@), x.error)
    }

    open spec fn wire_of(x: ExportStatus) -> JsonModel {
        JsonModel::Object(
            Seq::empty()
                + entry::<ProcessStatus>("status"@, x.status)
                + opt_entry::<i32>("progress"@, x.progress)
                + opt_entry::<String>("url"@, x.url)
                + opt_entry::<String>("error"@, x.error)
        )
    }

    fn decode(j: &Json) -> (r: Result<ExportStatus, String>) {
        match expect_object(j) {
            Ok(()) => {},
            Err(e) => return Err(e),
        }
        let status = match decode_field::<ProcessStatus>(j, "status") {
            Ok(v) => v,
            Err(e) => return Err(e),
        };
        let progress = match decode_opt_field::<i32>(j, "progress") {
            Ok(v) => v,
            Err(e) => return Err(e),
        };
        let url = match decode_opt_field::<String>(j, "url") {
            Ok(v) => v,
            Err(e) => return Err(e),
        };
        let error = match decode_opt_field::<String>(j, "error") {
            Ok(v) => v,
            Err(e) => return Err(e),
        };
        Ok(ExportStatus { status, progress, url, error })
    }

    fn encode(&self) -> (r: Json) {
        let mut fields = no_fields();
        push_field::<ProcessStatus>(&mut fields, "status", &self.status);
        push_opt::<i32>(&mut fields, "progress", &self.progress);
        push_opt::<String>(&mut fields, "url", &self.url);
        push_opt::<String>(&mut fields, "error", &self.error);
        object(fields)
    }

    proof fn lemma_round_trip(x: Self) {
        lemma_export_status_status(x);
        <ProcessStatus as Wire>::lemma_round_trip(x.status);
        lemma_export_status_progress(x);
        lemma_opt_round_trip::<i32>(x.progress);
        lemma_export_status_url(x);
        lemma_opt_round_trip::<String>(x.url);
        lemma_export_status_error(x);
        lemma_opt_round_trip::<String>(x.error);
        let j = Self::wire_of(x);
        assert(req_ok::<ProcessStatus>(j.field("status"@)));
        assert(opt_ok::<i32>(j.field("progress"@)));
        assert(opt_ok::<String>(j.field("url"@)));
        assert(opt_ok::<String>(j.field("error"@)));
        assert(req_is::<ProcessStatus>(j.field("status"@), x.status));
        assert(opt_is::<i32>(j.field("progress"@), x.progress));
        assert(opt_is::<String>(j.field("url"@), x.url));
        assert(opt_is::<String>(j.field("error"@), x.error));
        assert forall|y: Self| #[trigger] Self::wire_is(j, y) implies Self::wire_of(y) == j by {
            assert(entry::<ProcessStatus>("status"@, y.status) == entry::<ProcessStatus>("status"@, x.status));
            assert(opt_entry::<i32>("progress"@, y.progress) == opt_entry::<i32>("progress"@, x.progress));
            assert(opt_entry::<String>("url"@, y.url) == opt_entry::<String>("url"@, x.url));
            assert(opt_entry::<String>("error"@, y.error) == opt_entry::<String>("error"@, x.error));
        }
    }
}

/// The `status` member of an encoded `ExportStatus`.
pub(crate) proof fn lemma_export_status_status(x: ExportStatus)
    ensures
        ExportStatus::wire_of(x).field("status"@) == Some(<ProcessStatus as Wire>::wire_of(x.status)),
{
    reveal_strlit("status");
    assert("status"@.len() == 6);
    reveal_strlit("progress");
    assert("progress"@.len() == 8);
    reveal_strlit("url");
    assert("url"@.len() == 3);
    reveal_strlit("error");
    assert("error"@.len() == 5);
    let acc0 = Seq::<(Seq<char>, JsonModel)>::empty();
    lemma_lookup_empty("status"@);
    let acc1 = acc0 + entry::<ProcessStatus>("status"@, x.status);
    let acc2 = acc1 + opt_entry::<i32>("progress"@, x.progress);
    let acc3 = acc2 + opt_entry::<String>("url"@, x.url);
    let acc4 = acc3 + opt_entry::<String>("error"@, x.error);
    lemma_lookup_then_entry::<ProcessStatus>(acc0, "status"@, x.status, "status"@);
    lemma_lookup_then_opt_entry::<i32>(acc1, "progress"@, x.progress, "status"@);
    lemma_lookup_then_opt_entry::<String>(acc2, "url"@, x.url, "status"@);
    lemma_lookup_then_opt_entry::<String>(acc3, "error"@, x.error, "status"@);
}

/// The `progress` member of an encoded `ExportStatus`.
pub(crate) proof fn lemma_export_status_progress(x: ExportStatus)
    ensures
        ExportStatus::wire_of(x).field("progress"@) == Some(match x.progress { Some(y) => <i32 as Wire>::wire_of(y), None => JsonModel::Null }),
{
    reveal_strlit("progress");
    assert("progress"@.len() == 8);
    reveal_strlit("status");
    assert("status"@.len() == 6);
    reveal_strlit("url");
    assert("url"@.len() == 3);
    reveal_strlit("error");
    assert("error"@.len() == 5);
    let acc0 = Seq::<(Seq<char>, JsonModel)>::empty();
    lemma_lookup_empty("progress"@);
    let acc1 = acc0 + entry::<ProcessStatus>("status"@, x.status);
    let acc2 = acc1 + opt_entry::<i32>("progress"@, x.progress);
    let acc3 = acc2 + opt_entry::<String>("url"@, x.url);
    let acc4 = acc3 + opt_entry::<String>("error"@, x.error);
    lemma_lookup_then_entry::<ProcessStatus>(acc0, "status"@, x.status, "progress"@);
    lemma_lookup_then_opt_entry::<i32>(acc1, "progress"@, x.progress, "progress"@);
    lemma_lookup_then_opt_entry::<String>(acc2, "url"@, x.url, "progress"@);
    lemma_lookup_then_opt_entry::<String>(acc3, "error"@, x.error, "progress"@);
}

/// The `url` member of an encoded `ExportStatus`.
pub(crate) proof fn lemma_export_status_url(x: ExportStatus)
    ensures
        ExportStatus::wire_of(x).field("url"@) == Some(match x.url { Some(y) => <String as Wire>::wire_of(y), None => JsonModel::Null }),
{
    reveal_strlit("url");
    assert("url"@.len() == 3);
    reveal_strlit("status");
    assert("status"@.len() == 6);
    reveal_strlit("progress");
    assert("progress"@.len() == 8);
    reveal_strlit("error");
    assert("error"@.len() == 5);
    let acc0 = Seq::<(Seq<char>, JsonModel)>::empty();
    lemma_lookup_empty("url"@);
    let acc1 = acc0 + entry::<ProcessStatus>("status"@, x.status);
    let acc2 = acc1 + opt_entry::<i32>("progress"@, x.progress);
    let acc3 = acc2 + opt_entry::<String>("url"@, x.url);
    let acc4 = acc3 + opt_entry::<String>("error"@, x.error);
    lemma_lookup_then_entry::<ProcessStatus>(acc0, "status"@, x.status, "url"@);
    lemma_lookup_then_opt_entry::<i32>(acc1, "progress"@, x.progress, "url"@);
    lemma_lookup_then_opt_entry::<String>(acc2, "url"@, x.url, "url"@);
    lemma_lookup_then_opt_entry::<String>(acc3, "error"@, x.error, "url"@);
}

/// The `error` member of an encoded `ExportStatus`.
pub(crate) proof fn lemma_export_status_error(x: ExportStatus)
    ensures
        ExportStatus::wire_of(x).field("error"@) == Some(match x.error { Some(y) => <String as Wire>::wire_of(y), None => JsonModel::Null }),
{
    reveal_strlit("error");
    assert("error"@.len() == 5);
    reveal_strlit("status");
    assert("status"@.len() == 6);
    reveal_strlit("progress");
    assert("progress"@.len() == 8);
    reveal_strlit("url");
    assert("url"@.len() == 3);
    let acc0 = Seq::<(Seq<char>, JsonModel)>::empty();
    lemma_lookup_empty("error"@);
    let acc1 = acc0 + entry::<ProcessStatus>("status"@, x.status);
    let acc2 = acc1 + opt_entry::<i32>("progress"@, x.progress);
    let acc3 = acc2 + opt_entry::<String>("url"@, x.url);
    let acc4 = acc3 + opt_entry::<String>("error"@, x.error);
    lemma_lookup_then_entry::<ProcessStatus>(acc0, "status"@, x.status, "error"@);
    lemma_lookup_then_opt_entry::<i32>(acc1, "progress"@, x.progress, "error"@);
    lemma_lookup_then_opt_entry::<String>(acc2, "url"@, x.url, "error"@);
    lemma_lookup_then_opt_entry::<String>(acc3, "error"@, x.error, "error"@);
}

/// The state of an import or export.
#[derive(Debug, Clone, Copy, PartialEq, Eq, Structural)]
pub enum ProcessStatus {
    InProgress,
    Ready,
    Error,
}

impl ProcessStatus {
    /// The name of this value on the wire.
    pub open spec fn spec_wire_name(self) -> Seq<char> {
        match self {
            ProcessStatus::InProgress => "in-progress"@,
            ProcessStatus::Ready => "ready"@,
            ProcessStatus::Error => "error"@,
        }
    }

    /// The value named `s` on the wire, if any.
    pub open spec fn spec_from_wire_name(s: Seq<char>) -> Option<Self> {
        if s == "in-progress"@ {
            Some(ProcessStatus::InProgress)
        } else if s == "ready"@ {
            Some(ProcessStatus::Ready)
        } else if s == "error"@ {
            Some(ProcessStatus::Error)
        } else {
            None
        }
    }

    /// The name of this value on the wire.
    pub fn wire_name(&self) -> (r: &'static str)
        ensures
            r@ == self.spec_wire_name(),
    {
        match self {
            ProcessStatus::InProgress => "in-progress",
            ProcessStatus::Ready => "ready",
            ProcessStatus::Error => "error",
        }
    }

    /// The value named `s` on the wire, if any.
    pub fn from_wire_name(s: &str) -> (r: Option<Self>)
        ensures
            r == Self::spec_from_wire_name(s@),
    {
        if text_is(s, "in-progress") {
            Some(ProcessStatus::InProgress)
        } else if text_is(s, "ready") {
            Some(ProcessStatus::Ready)
        } else if text_is(s, "error") {
            Some(ProcessStatus::Error)
        } else {
            None
        }
    }
}

impl Wire for ProcessStatus {
    open spec fn wire_ok(j: JsonModel) -> bool {
        j matches JsonModel::Str(s) && Self::spec_from_wire_name(s) is Some
    }

    open spec fn wire_is(j: JsonModel, x: ProcessStatus) -> bool {
        j matches JsonModel::Str(s) && Self::spec_from_wire_name(s) == Some(x)
    }

    open spec fn wire_of(x: ProcessStatus) -> JsonModel {
        JsonModel::Str(x.spec_wire_name())
    }

    fn decode(j: &Json) -> (r: Result<ProcessStatus, String>) {
        match j {
            Json::Str(s) => match Self::from_wire_name(s.as_str()) {
                Some(v) => Ok(v),
                None => Err(String::from_str("unknown variant of ProcessStatus")),
            },
            _ => Err(String::from_str("expected a string")),
        }
    }

    fn encode(&self) -> (r: Json) {
        Json::Str(String::from_str(self.wire_name()))
    }

    proof fn lemma_round_trip(x: Self) {
        reveal_strlit("error");
        reveal_strlit("in-progress");
        reveal_strlit("ready");
        assert("error"@.len() == 5);
        assert("in-progress"@.len() == 11);
        assert("ready"@.len() == 5);
        assert("error"@[0] != "ready"@[0]);
        match x {
            ProcessStatus::InProgress => {},
            ProcessStatus::Ready => {},
            ProcessStatus::Error => {},
        }
    }
}

impl ExportFormat {
    /// The export format named `name`; HTML when no name is given or the name is not a format.
    pub open spec fn spec_named_or_html(name: Option<Seq<char>>) -> ExportFormat {
        match name {
            Some(n) => match ExportFormat::spec_from_wire_name(n) {
                Some(f) => f,
                None => ExportFormat::Html,
            },
            None => ExportFormat::Html,
        }
    }

    /// The export format named `name`; HTML when no name is given or the name is not a format.
    pub fn named_or_html(name: Option<&str>) -> (r: ExportFormat)
        ensures
            r == ExportFormat::spec_named_or_html(
                match name {
                    Some(n) => Some(n@),
                    None => None,
                },
            ),
    {
        match name {
            Some(n) => match ExportFormat::from_wire_name(n) {
                Some(f) => f,
                None => ExportFormat::Html,
            },
            None => ExportFormat::Html,
        }
    }
}

} // verus!
