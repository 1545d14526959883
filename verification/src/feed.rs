//! One section's retrieval, as the exchange of requests and replies that it
//! is: first the section's listing of story identifiers, then the stories of
//! the first hundred of them, one by one. The first failure ends the
//! retrieval; no partial list is ever handed on.

use crate::orchestrator::FetchOutcome;
use crate::section::Section;
use crate::story::Story;
use crate::text::{decimal, u32_to_string};
use vstd::prelude::*;
use vstd::string::StringExecFns;

verus! {

/// Largest number of stories that one retrieval fetches.
pub const STORY_LIMIT: usize = 100;

/// Address of the story with identifier `id`.
pub open spec fn item_address(id: u32) -> Seq<char> {
    "https://hacker-news.firebaseio.com/v0/item/"@ + decimal(id as nat) + ".json"@
}

/// The identifiers that a retrieval fetches: the first hundred of the
/// listing, or all of it where it is shorter.
pub open spec fn wanted(listing: Seq<u32>) -> Seq<u32> {
    if listing.len() <= STORY_LIMIT {
        listing
    } else {
        listing.subrange(0, STORY_LIMIT as int)
    }
}

/// What a retrieval does next.
pub enum Retrieval {
    /// Request the given address and hand the reply to the collector.
    Get(Collector, String),
    /// The retrieval is over.
    Done(FetchOutcome),
}

/// A retrieval that waits for a story.
pub struct Collector {
    ids: Vec<u32>,
    stories: Vec<Story>,
}

impl Collector {
    /// The identifiers that the retrieval fetches, in order.
    pub closed spec fn ids(&self) -> Seq<u32> {
        self.ids@
    }

    /// The stories that have arrived, in order.
    pub closed spec fn stories(&self) -> Seq<Story> {
        self.stories@
    }

    /// Fewer stories have arrived than are wanted: one is being waited for.
    pub open spec fn wf(&self) -> bool {
        self.stories().len() < self.ids().len()
    }
}

/// Address of the story with identifier `id`.
pub fn item_url(id: u32) -> (url: String)
    ensures
        url@ == item_address(id),
{
    String::from_str("https://hacker-news.firebaseio.com/v0/item/").concat(
        u32_to_string(id).as_str(),
    ).concat(".json")
}

/// The first hundred identifiers of a listing, or all of a shorter one.
pub fn ids_to_fetch(listing: &Vec<u32>) -> (ids: Vec<u32>)
    ensures
        ids@ == wanted(listing@),
{
    let count = if listing.len() <= STORY_LIMIT {
        listing.len()
    } else {
        STORY_LIMIT
    };
    let mut ids: Vec<u32> = Vec::new();
    let mut i: usize = 0;
    while i < count
        invariant
            i <= count <= listing.len(),
            ids@ == listing@.subrange(0, i as int),
        decreases count - i,
    {
        ids.push(listing[i]);
        i += 1;
    }
    ids
}

/// The first request of the retrieval of `section`: the address of its
/// listing.
pub fn start(section: Section) -> (url: String)
    ensures
        url@ == section.listing_url(),
{
    section.get_api_url()
}

/// What follows the reply to the listing request. A failure ends the
/// retrieval as failed; an empty listing ends it with an empty list; else
/// the first wanted story is requested.
pub fn listing_arrived(reply: Result<Vec<u32>, String>) -> (next: Retrieval)
    ensures
        match reply {
            Err(reason) => next matches Retrieval::Done(FetchOutcome::Failed(r)) && r == reason,
            Ok(listing) => if listing@.len() == 0 {
                next matches Retrieval::Done(FetchOutcome::Ready(items)) && items@ == Seq::<
                    Story,
                >::empty()
            } else {
                next matches Retrieval::Get(collector, url) && collector.wf() && collector.ids()
                    == wanted(listing@) && collector.stories() == Seq::<Story>::empty() && url@
                    == item_address(listing@[0])
            },
        },
{
    match reply {
        Err(reason) => Retrieval::Done(FetchOutcome::Failed(reason)),
        Ok(listing) => {
            let ids = ids_to_fetch(&listing);
            if ids.len() == 0 {
                Retrieval::Done(FetchOutcome::Ready(Vec::new()))
            } else {
                let url = item_url(ids[0]);
                Retrieval::Get(Collector { ids, stories: Vec::new() }, url)
            }
        },
    }
}

impl Collector {
    /// What follows the reply to a story request. A failure ends the
    /// retrieval as failed and drops what had arrived. A story is appended;
    /// if it was the last wanted, the retrieval ends with the list, else the
    /// next story is requested.
    pub fn item_arrived(self, reply: Result<Story, String>) -> (next: Retrieval)
        requires
            self.wf(),
        ensures
            match reply {
                Err(reason) => next matches Retrieval::Done(FetchOutcome::Failed(r)) && r
                    == reason,
                Ok(story) => if self.stories().len() + 1 == self.ids().len() {
                    next matches Retrieval::Done(FetchOutcome::Ready(items)) && items@
                        == self.stories().push(story)
                } else {
                    next matches Retrieval::Get(collector, url) && collector.wf()
                        && collector.ids() == self.ids() && collector.stories()
                        == self.stories().push(story) && url@ == item_address(
                        self.ids()[self.stories().len() as int + 1],
                    )
                },
            },
    {
        match reply {
            Err(reason) => Retrieval::Done(FetchOutcome::Failed(reason)),
            Ok(story) => {
                let Collector { ids, mut stories } = self;
                stories.push(story);
                if stories.len() == ids.len() {
                    Retrieval::Done(FetchOutcome::Ready(stories))
                } else {
                    let url = item_url(ids[stories.len()]);
                    Retrieval::Get(Collector { ids, stories }, url)
                }
            },
        }
    }

    /// Number of stories that are still to arrive.
    pub fn remaining(&self) -> (n: usize)
        requires
            self.wf(),
        ensures
            n == self.ids().len() - self.stories().len(),
            n > 0,
    {
        self.ids.len() - self.stories.len()
    }
}

/// A retrieval asks for at most a hundred stories, and for all of a listing
/// that has no more.
pub proof fn lemma_wanted(listing: Seq<u32>)
    ensures
        wanted(listing).len() <= STORY_LIMIT,
        wanted(listing).len() <= listing.len(),
        listing.len() <= STORY_LIMIT ==> wanted(listing) == listing,
        forall|i: int| 0 <= i < wanted(listing).len() ==> wanted(listing)[i] == listing[i],
{
}

} // verus!
