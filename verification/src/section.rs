//! The fixed set of feed sections.

use vstd::prelude::*;

verus! {

/// One of the content categories. Each has its own remote listing and its
/// own cache slot.
#[derive(Clone, Copy, Debug, PartialEq, Eq, Hash, Structural)]
pub enum Section {
    Top,
    Ask,
    Show,
    Jobs,
}

/// Number of sections.
pub const SECTION_COUNT: usize = 4;

impl Section {
    /// Position of the section in the fixed order Top, Ask, Show, Jobs.
    pub open spec fn ordinal(self) -> int {
        match self {
            Section::Top => 0,
            Section::Ask => 1,
            Section::Show => 2,
            Section::Jobs => 3,
        }
    }

    /// The section at a position of the fixed order.
    pub open spec fn at(i: int) -> Section {
        if i == 0 {
            Section::Top
        } else if i == 1 {
            Section::Ask
        } else if i == 2 {
            Section::Show
        } else {
            Section::Jobs
        }
    }

    /// Display name, as a sequence of characters.
    pub open spec fn name(self) -> Seq<char> {
        match self {
            Section::Top => "Top"@,
            Section::Ask => "Ask"@,
            Section::Show => "Show"@,
            Section::Jobs => "Jobs"@,
        }
    }

    /// Address of the section's listing of story identifiers.
    pub open spec fn listing_url(self) -> Seq<char> {
        match self {
            Section::Top => "https://hacker-news.firebaseio.com/v0/topstories.json"@,
            Section::Ask => "https://hacker-news.firebaseio.com/v0/askstories.json"@,
            Section::Show => "https://hacker-news.firebaseio.com/v0/showstories.json"@,
            Section::Jobs => "https://hacker-news.firebaseio.com/v0/jobstories.json"@,
        }
    }

    /// The section shown to the right of this one; the last wraps to the first.
    pub open spec fn successor(self) -> Section {
        Section::at((self.ordinal() + 1) % 4)
    }

    /// The section shown to the left of this one; the first wraps to the last.
    pub open spec fn predecessor(self) -> Section {
        Section::at((self.ordinal() + 3) % 4)
    }

    pub fn as_str(&self) -> (s: &'static str)
        ensures
            s@ == self.name(),
    {
        match self {
            Section::Top => "Top",
            Section::Ask => "Ask",
            Section::Show => "Show",
            Section::Jobs => "Jobs",
        }
    }

    pub fn get_api_url(&self) -> (url: String)
        ensures
            url@ == self.listing_url(),
    {
        match self {
            Section::Top => "https://hacker-news.firebaseio.com/v0/topstories.json".to_owned(),
            Section::Ask => "https://hacker-news.firebaseio.com/v0/askstories.json".to_owned(),
            Section::Show => "https://hacker-news.firebaseio.com/v0/showstories.json".to_owned(),
            Section::Jobs => "https://hacker-news.firebaseio.com/v0/jobstories.json".to_owned(),
        }
    }

    /// Position of the section, usable as an index into per-section tables.
    pub fn index(&self) -> (i: usize)
        ensures
            i == self.ordinal(),
            i < SECTION_COUNT,
    {
        match self {
            Section::Top => 0,
            Section::Ask => 1,
            Section::Show => 2,
            Section::Jobs => 3,
        }
    }

    /// All sections, in the fixed order.
    pub fn all() -> (v: Vec<Section>)
        ensures
            v@ == seq![Section::Top, Section::Ask, Section::Show, Section::Jobs],
    {
        let mut v: Vec<Section> = Vec::new();
        v.push(Section::Top);
        v.push(Section::Ask);
        v.push(Section::Show);
        v.push(Section::Jobs);
        v
    }

    pub fn next(&self) -> (s: Section)
        ensures
            s == self.successor(),
    {
        match self {
            Section::Top => Section::Ask,
            Section::Ask => Section::Show,
            Section::Show => Section::Jobs,
            Section::Jobs => Section::Top,
        }
    }

    pub fn previous(&self) -> (s: Section)
        ensures
            s == self.predecessor(),
    {
        match self {
            Section::Top => Section::Jobs,
            Section::Jobs => Section::Show,
            Section::Show => Section::Ask,
            Section::Ask => Section::Top,
        }
    }
}

/// Positions and sections correspond one to one.
pub proof fn lemma_ordinal_at(s: Section, i: int)
    ensures
        0 <= s.ordinal() < 4,
        Section::at(s.ordinal()) == s,
        0 <= i < 4 ==> Section::at(i).ordinal() == i,
{
}

/// Stepping right and then left, or left and then right, returns to the
/// section one started from.
pub proof fn lemma_next_previous(s: Section)
    ensures
        s.successor().predecessor() == s,
        s.predecessor().successor() == s,
        s.successor() != s,
{
}

} // verus!
