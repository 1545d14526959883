//! One fetched content entry.

use vstd::prelude::*;

verus! {

/// A story as the feed delivers it. Once fetched it is never changed.
#[derive(Debug)]
pub struct Story {
    /// Identifier, unique within one section's listing.
    pub id: u32,
    pub title: String,
    /// External link, if the story has one.
    pub url: Option<String>,
    /// Free-text body, if the story has one.
    pub text: Option<String>,
    /// Author handle.
    pub by: String,
    pub score: i32,
}

impl Clone for Story {
    fn clone(&self) -> (copy: Story)
        ensures
            copy == *self,
    {
        Story {
            id: self.id,
            title: self.title.clone(),
            url: match &self.url {
                Some(u) => Some(u.clone()),
                None => None,
            },
            text: match &self.text {
                Some(t) => Some(t.clone()),
                None => None,
            },
            by: self.by.clone(),
            score: self.score,
        }
    }
}

/// An independent copy of a list of stories, in the same order.
pub fn clone_stories(stories: &Vec<Story>) -> (copy: Vec<Story>)
    ensures
        copy@ == stories@,
{
    let mut copy: Vec<Story> = Vec::new();
    let mut i: usize = 0;
    while i < stories.len()
        invariant
            i <= stories.len(),
            copy@ == stories@.subrange(0, i as int),
        decreases stories.len() - i,
    {
        copy.push(stories[i].clone());
        i += 1;
    }
    copy
}

} // verus!
