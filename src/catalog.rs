//! The resources and prompts that a protocol server built on the client offers.
use crate::wire::text_is;
use vstd::prelude::*;

verus! {

/// A readable resource: one listing of the account's data.
#[derive(Debug, Clone, Copy, PartialEq, Eq, Structural)]
pub enum ResourceKind {
    AllCollections,
    AllTags,
    AllHighlights,
    UserInfo,
    UserStats,
}

impl ResourceKind {
    /// The URI that names the resource.
    pub open spec fn spec_uri(self) -> Seq<char> {
        match self {
            ResourceKind::AllCollections => "raindrop://collections/all"@,
            ResourceKind::AllTags => "raindrop://tags/all"@,
            ResourceKind::AllHighlights => "raindrop://highlights/all"@,
            ResourceKind::UserInfo => "raindrop://user/info"@,
            ResourceKind::UserStats => "raindrop://user/stats"@,
        }
    }

    /// The resource named by `uri`, if any.
    pub open spec fn spec_from_uri(uri: Seq<char>) -> Option<ResourceKind> {
        if uri == "raindrop://collections/all"@ {
            Some(ResourceKind::AllCollections)
        } else if uri == "raindrop://tags/all"@ {
            Some(ResourceKind::AllTags)
        } else if uri == "raindrop://highlights/all"@ {
            Some(ResourceKind::AllHighlights)
        } else if uri == "raindrop://user/info"@ {
            Some(ResourceKind::UserInfo)
        } else if uri == "raindrop://user/stats"@ {
            Some(ResourceKind::UserStats)
        } else {
            None
        }
    }

    /// Every resource, in the order they are listed.
    pub open spec fn spec_all() -> Seq<ResourceKind> {
        seq![
            ResourceKind::AllCollections,
            ResourceKind::AllTags,
            ResourceKind::AllHighlights,
            ResourceKind::UserInfo,
            ResourceKind::UserStats,
        ]
    }

    /// Every resource, in the order they are listed.
    pub fn all() -> (r: Vec<ResourceKind>)
        ensures
            r@ == Self::spec_all(),
    {
        let r = vec![
            ResourceKind::AllCollections,
            ResourceKind::AllTags,
            ResourceKind::AllHighlights,
            ResourceKind::UserInfo,
            ResourceKind::UserStats,
        ];
        assert(r@ =~= Self::spec_all());
        r
    }

    /// The URI that names the resource.
    pub fn uri(&self) -> (r: &'static str)
        ensures
            r@ == self.spec_uri(),
    {
        match self {
            ResourceKind::AllCollections => "raindrop://collections/all",
            ResourceKind::AllTags => "raindrop://tags/all",
            ResourceKind::AllHighlights => "raindrop://highlights/all",
            ResourceKind::UserInfo => "raindrop://user/info",
            ResourceKind::UserStats => "raindrop://user/stats",
        }
    }

    /// The resource named by `uri`, if any.
    pub fn from_uri(uri: &str) -> (r: Option<ResourceKind>)
        ensures
            r == Self::spec_from_uri(uri@),
    {
        if text_is(uri, "raindrop://collections/all") {
            Some(ResourceKind::AllCollections)
        } else if text_is(uri, "raindrop://tags/all") {
            Some(ResourceKind::AllTags)
        } else if text_is(uri, "raindrop://highlights/all") {
            Some(ResourceKind::AllHighlights)
        } else if text_is(uri, "raindrop://user/info") {
            Some(ResourceKind::UserInfo)
        } else if text_is(uri, "raindrop://user/stats") {
            Some(ResourceKind::UserStats)
        } else {
            None
        }
    }

    /// A short title of the resource.
    pub open spec fn spec_title(self) -> Seq<char> {
        match self {
            ResourceKind::AllCollections => "All Collections"@,
            ResourceKind::AllTags => "All Tags"@,
            ResourceKind::AllHighlights => "All Highlights"@,
            ResourceKind::UserInfo => "User Info"@,
            ResourceKind::UserStats => "User Statistics"@,
        }
    }

    /// A short title of the resource.
    pub fn title(&self) -> (r: &'static str)
        ensures
            r@ == self.spec_title(),
    {
        match self {
            ResourceKind::AllCollections => "All Collections",
            ResourceKind::AllTags => "All Tags",
            ResourceKind::AllHighlights => "All Highlights",
            ResourceKind::UserInfo => "User Info",
            ResourceKind::UserStats => "User Statistics",
        }
    }

    /// What the resource holds.
    pub open spec fn spec_description(self) -> Seq<char> {
        match self {
            ResourceKind::AllCollections => "List of all Raindrop collections"@,
            ResourceKind::AllTags => "List of all tags across all bookmarks"@,
            ResourceKind::AllHighlights => "List of all highlights across all bookmarks"@,
            ResourceKind::UserInfo => "Current user account information"@,
            ResourceKind::UserStats => "User account statistics"@,
        }
    }

    /// What the resource holds.
    pub fn description(&self) -> (r: &'static str)
        ensures
            r@ == self.spec_description(),
    {
        match self {
            ResourceKind::AllCollections => "List of all Raindrop collections",
            ResourceKind::AllTags => "List of all tags across all bookmarks",
            ResourceKind::AllHighlights => "List of all highlights across all bookmarks",
            ResourceKind::UserInfo => "Current user account information",
            ResourceKind::UserStats => "User account statistics",
        }
    }
}

/// A prompt template offered to protocol clients.
#[derive(Debug, Clone, Copy, PartialEq, Eq, Structural)]
pub enum PromptKind {
    BookmarkSummary,
    OrganizeUnsorted,
    WeeklyDigest,
    TagSuggestions,
    DuplicateFinder,
}

impl PromptKind {
    /// The name that selects the prompt.
    pub open spec fn spec_name(self) -> Seq<char> {
        match self {
            PromptKind::BookmarkSummary => "bookmark-summary"@,
            PromptKind::OrganizeUnsorted => "organize-unsorted"@,
            PromptKind::WeeklyDigest => "weekly-digest"@,
            PromptKind::TagSuggestions => "tag-suggestions"@,
            PromptKind::DuplicateFinder => "duplicate-finder"@,
        }
    }

    /// The prompt selected by `name`, if any.
    pub open spec fn spec_from_name(name: Seq<char>) -> Option<PromptKind> {
        if name == "bookmark-summary"@ {
            Some(PromptKind::BookmarkSummary)
        } else if name == "organize-unsorted"@ {
            Some(PromptKind::OrganizeUnsorted)
        } else if name == "weekly-digest"@ {
            Some(PromptKind::WeeklyDigest)
        } else if name == "tag-suggestions"@ {
            Some(PromptKind::TagSuggestions)
        } else if name == "duplicate-finder"@ {
            Some(PromptKind::DuplicateFinder)
        } else {
            None
        }
    }

    /// The name that selects the prompt.
    pub fn name(&self) -> (r: &'static str)
        ensures
            r@ == self.spec_name(),
    {
        match self {
            PromptKind::BookmarkSummary => "bookmark-summary",
            PromptKind::OrganizeUnsorted => "organize-unsorted",
            PromptKind::WeeklyDigest => "weekly-digest",
            PromptKind::TagSuggestions => "tag-suggestions",
            PromptKind::DuplicateFinder => "duplicate-finder",
        }
    }

    /// The prompt selected by `name`, if any.
    pub fn from_name(name: &str) -> (r: Option<PromptKind>)
        ensures
            r == Self::spec_from_name(name@),
    {
        if text_is(name, "bookmark-summary") {
            Some(PromptKind::BookmarkSummary)
        } else if text_is(name, "organize-unsorted") {
            Some(PromptKind::OrganizeUnsorted)
        } else if text_is(name, "weekly-digest") {
            Some(PromptKind::WeeklyDigest)
        } else if text_is(name, "tag-suggestions") {
            Some(PromptKind::TagSuggestions)
        } else if text_is(name, "duplicate-finder") {
            Some(PromptKind::DuplicateFinder)
        } else {
            None
        }
    }
}

/// How many unsorted bookmarks the organizing prompt looks at when no limit is given.
pub const DEFAULT_PROMPT_LIMIT: i64 = 50;

/// The limit the organizing prompt uses: the one given, else the default,
/// kept to its low 32 bits as a signed number.
pub open spec fn spec_prompt_limit(limit: Option<i64>) -> i32 {
    match limit {
        Some(n) => n as i32,
        None => DEFAULT_PROMPT_LIMIT as i32,
    }
}

/// The limit the organizing prompt uses: the one given, else the default,
/// kept to its low 32 bits as a signed number.
pub fn prompt_limit(limit: Option<i64>) -> (r: i32)
    ensures
        r == spec_prompt_limit(limit),
{
    match limit {
        Some(n) => n as i32,
        None => DEFAULT_PROMPT_LIMIT as i32,
    }
}

} // verus!
