//! The application state: the stories on screen, the selection, the mode of
//! the interface, the cache, and the operations that move between them.

use crate::cache::SectionCache;
use crate::palette::{CommandPalette, PaletteView};
use crate::section::Section;
use crate::select::{all_positions, contains_position, flagged, flagged_positions, positions};
use crate::story::Story;
use crate::text::{
    folds_to_contain, is_substring, lowercase, matches_query, str_contains, str_to_lowercase,
};
use std::time::Instant;
use vstd::prelude::*;

verus! {

#[verifier::external_type_specification]
#[verifier::external_body]
pub struct ExInstant(Instant);

/// `Instant::now`: the present moment. Nothing is claimed of it.
#[verifier::external_body]
pub(crate) fn instant_now() -> Instant {
    Instant::now()
}

/// What the keyboard is driving.
#[derive(Clone, Copy, Debug, PartialEq, Eq, Structural)]
pub enum Mode {
    Normal,
    Menu,
    Summary,
    CommandPalette,
    Search,
}

/// Number of entries of the story menu.
pub const MENU_ENTRIES: usize = 3;

pub struct App {
    pub stories: Vec<Story>,
    pub selected_index: usize,
    pub show_menu: bool,
    pub menu_index: usize,
    pub mode: Mode,
    pub claude_summary: Option<String>,
    pub status_message: Option<(String, Instant)>,
    pub current_section: Section,
    pub scroll_offset: usize,
    pub app_name: String,
    pub cached_stories: SectionCache,
    pub command_palette: CommandPalette,
    pub search_query: String,
    pub filtered_stories: Vec<usize>,
}

/// The application state as mathematical values. The moment at which the
/// status message was set is left out.
pub struct AppView {
    pub stories: Seq<Story>,
    pub selected_index: nat,
    pub show_menu: bool,
    pub menu_index: nat,
    pub mode: Mode,
    pub summary: Option<Seq<char>>,
    pub status: Option<Seq<char>>,
    pub current_section: Section,
    pub scroll_offset: nat,
    pub app_name: Seq<char>,
    pub cache: Map<Section, Seq<Story>>,
    pub palette: PaletteView,
    pub search_query: Seq<char>,
    pub filtered_stories: Seq<usize>,
}

impl AppView {
    /// The selection is a story, or the first row where there is none; every
    /// listed position is a story; the menu row is a menu entry; the palette
    /// is well formed.
    pub open spec fn wf(self) -> bool {
        &&& (self.selected_index == 0 || self.selected_index < self.stories.len())
        &&& forall|k: int|
            0 <= k < self.filtered_stories.len() ==> (#[trigger] self.filtered_stories[k])
                < self.stories.len()
        &&& self.filtered_stories.len() <= self.stories.len()
        &&& self.menu_index < MENU_ENTRIES
        &&& self.palette.wf()
    }

    /// The state after `stories` replaced the list on screen: all of them
    /// listed, the first selected.
    pub open spec fn with_stories(self, stories: Seq<Story>) -> AppView {
        AppView {
            stories,
            filtered_stories: positions(stories.len()),
            selected_index: 0,
            ..self
        }
    }

    /// The state with `message` as status message.
    pub open spec fn with_status(self, message: Seq<char>) -> AppView {
        AppView { status: Some(message), ..self }
    }

    /// The state with the next story selected, the first after the last;
    /// unchanged where there are no stories.
    pub open spec fn moved_down(self) -> AppView {
        if self.stories.len() == 0 {
            self
        } else {
            AppView {
                selected_index: ((self.selected_index + 1) as int % (self.stories.len() as int)) as nat,
                ..self
            }
        }
    }

    /// The state with the previous story selected, the last before the
    /// first; unchanged where there are no stories.
    pub open spec fn moved_up(self) -> AppView {
        if self.stories.len() == 0 {
            self
        } else {
            AppView {
                selected_index: if self.selected_index == 0 {
                    (self.stories.len() - 1) as nat
                } else {
                    (self.selected_index - 1) as nat
                },
                ..self
            }
        }
    }

    /// The state scrolled the least that brings the selected story into a
    /// window of `height` rows.
    pub open spec fn scrolled_into_view(self, height: nat) -> AppView {
        AppView {
            scroll_offset: if self.selected_index < self.scroll_offset {
                self.selected_index
            } else if self.selected_index >= self.scroll_offset + height {
                (self.selected_index - height + 1) as nat
            } else {
                self.scroll_offset
            },
            ..self
        }
    }

    /// The state after the listing was computed anew from the search text.
    /// The selection stays if it is listed; else it moves to the first listed
    /// story, or to the first row where none is listed.
    pub open spec fn refiltered(self) -> AppView {
        let listed = story_selection(self.stories, self.search_query);
        AppView {
            filtered_stories: listed,
            selected_index: selection_after_filter(self.selected_index, listed),
            ..self
        }
    }
}

/// For each story, whether the lower-case form of its title contains
/// `lowered_query`.
pub open spec fn title_flags(stories: Seq<Story>, lowered_query: Seq<char>) -> Seq<bool> {
    Seq::new(stories.len(), |i: int| folds_to_contain(stories[i].title@, lowered_query))
}

/// The positions of the stories that a search text selects: all of them for
/// the empty text, else those whose title contains the text, case ignored.
pub open spec fn story_selection(stories: Seq<Story>, query: Seq<char>) -> Seq<usize> {
    if query.len() == 0 {
        positions(stories.len())
    } else {
        flagged(title_flags(stories, lowercase(query)), stories.len() as int)
    }
}

/// The selection after filtering: kept if it is listed, else the first listed
/// position, else the first row.
pub open spec fn selection_after_filter(selected: nat, listed: Seq<usize>) -> nat {
    if listed.contains(selected as usize) {
        selected
    } else if listed.len() > 0 {
        listed[0] as nat
    } else {
        0
    }
}

/// Whether a story is selected, given the lower-case forms of its title and
/// of the search text.
pub fn title_matches(lowered_title: &str, lowered_query: &str) -> (hit: bool)
    ensures
        hit == is_substring(lowered_query@, lowered_title@),
{
    str_contains(lowered_title, lowered_query)
}

impl View for App {
    type V = AppView;

    open spec fn view(&self) -> AppView {
        AppView {
            stories: self.stories@,
            selected_index: self.selected_index as nat,
            show_menu: self.show_menu,
            menu_index: self.menu_index as nat,
            mode: self.mode,
            summary: match self.claude_summary {
                Some(s) => Some(s@),
                None => None,
            },
            status: match self.status_message {
                Some(m) => Some(m.0@),
                None => None,
            },
            current_section: self.current_section,
            scroll_offset: self.scroll_offset as nat,
            app_name: self.app_name@,
            cache: self.cached_stories@,
            palette: self.command_palette@,
            search_query: self.search_query@,
            filtered_stories: self.filtered_stories@,
        }
    }
}

impl App {
    /// Whether the state is well formed. Every operation of the library
    /// keeps it so.
    pub open spec fn wf(&self) -> bool {
        self@.wf()
    }

    /// The state at start: no stories, the Top section, normal mode, an empty
    /// cache.
    pub fn new() -> (app: App)
        ensures
            app.wf(),
            app@.stories == Seq::<Story>::empty(),
            app@.selected_index == 0,
            !app@.show_menu,
            app@.menu_index == 0,
            app@.mode == Mode::Normal,
            app@.summary is None,
            app@.status is None,
            app@.current_section == Section::Top,
            app@.scroll_offset == 0,
            app@.app_name == "Hackertuah News"@,
            app@.cache == Map::<Section, Seq<Story>>::empty(),
            crate::palette::command_views(app@.palette.commands) == crate::palette::catalogue(),
            app@.palette.filtered == Seq::<usize>::empty(),
            app@.palette.query == Seq::<char>::empty(),
            app@.palette.selected == 0,
            app@.search_query == Seq::<char>::empty(),
            app@.filtered_stories == Seq::<usize>::empty(),
    {
        App {
            stories: Vec::new(),
            selected_index: 0,
            show_menu: false,
            menu_index: 0,
            mode: Mode::Normal,
            claude_summary: None,
            status_message: None,
            current_section: Section::Top,
            scroll_offset: 0,
            app_name: "Hackertuah News".to_owned(),
            cached_stories: SectionCache::new(),
            command_palette: CommandPalette::new(),
            search_query: String::new(),
            filtered_stories: Vec::new(),
        }
    }

    /// Whether the state is well formed, tested at run time.
    pub fn is_valid(&self) -> (ok: bool)
        ensures
            ok == self.wf(),
    {
        if !(self.selected_index == 0 || self.selected_index < self.stories.len()) {
            return false;
        }
        if self.filtered_stories.len() > self.stories.len() {
            return false;
        }
        if self.menu_index >= MENU_ENTRIES {
            return false;
        }
        let mut k: usize = 0;
        while k < self.filtered_stories.len()
            invariant
                k <= self.filtered_stories.len(),
                forall|i: int|
                    0 <= i < k ==> (#[trigger] self.filtered_stories@[i]) < self.stories@.len(),
            decreases self.filtered_stories.len() - k,
        {
            if self.filtered_stories[k] >= self.stories.len() {
                return false;
            }
            k += 1;
        }
        self.command_palette.is_valid()
    }

    /// Puts `stories` on screen, lists all of them and selects the first.
    pub fn set_stories(&mut self, stories: Vec<Story>)
        requires
            old(self).wf(),
        ensures
            final(self).wf(),
            final(self)@ == old(self)@.with_stories(stories@),
    {
        self.stories = stories;
        self.filtered_stories = all_positions(self.stories.len());
        self.selected_index = 0;
    }

    /// Selects the next story; after the last comes the first. Nothing
    /// changes where there are no stories.
    pub fn next_story(&mut self)
        requires
            old(self).wf(),
        ensures
            final(self).wf(),
            final(self)@ == old(self)@.moved_down(),
    {
        if self.stories.len() > 0 {
            self.selected_index = (self.selected_index + 1) % self.stories.len();
        }
    }

    /// Selects the previous story; before the first comes the last. Nothing
    /// changes where there are no stories.
    pub fn previous_story(&mut self)
        requires
            old(self).wf(),
        ensures
            final(self).wf(),
            final(self)@ == old(self)@.moved_up(),
    {
        if self.stories.len() > 0 {
            self.selected_index = match self.selected_index.checked_sub(1) {
                Some(i) => i,
                None => self.stories.len() - 1,
            };
        }
    }

    /// Replaces the status message.
    pub fn set_status_message(&mut self, message: String)
        ensures
            final(self)@ == old(self)@.with_status(message@),
    {
        self.status_message = Some((message, instant_now()));
    }

    /// Scrolls the least that brings the selected story into a window of
    /// `height` rows: up to the selection where it lies above the window,
    /// down until it is the last row where it lies below.
    pub fn ensure_story_visible(&mut self, height: usize)
        requires
            old(self).wf(),
        ensures
            final(self).wf(),
            final(self)@ == old(self)@.scrolled_into_view(height as nat),
    {
        assert(self.selected_index <= self.stories.len());
        if self.selected_index < self.scroll_offset {
            self.scroll_offset = self.selected_index;
        } else if self.selected_index - self.scroll_offset >= height {
            self.scroll_offset = self.selected_index - height + 1;
        }
    }

    /// Lists the stories that the search text selects. The selection stays
    /// if it is listed; else it moves to the first listed story, or to the
    /// first row where none is listed.
    pub fn filter_stories(&mut self)
        requires
            old(self).wf(),
        ensures
            final(self).wf(),
            final(self)@ == old(self)@.refiltered(),
    {
        if self.search_query.as_str().is_empty() {
            self.filtered_stories = all_positions(self.stories.len());
        } else {
            let lowered_query = str_to_lowercase(self.search_query.as_str());
            let mut flags: Vec<bool> = Vec::new();
            let mut i: usize = 0;
            while i < self.stories.len()
                invariant
                    i <= self.stories.len(),
                    flags.len() == i,
                    lowered_query@ == lowercase(self.search_query@),
                    forall|k: int|
                        0 <= k < i ==> flags[k] == title_flags(self.stories@, lowered_query@)[k],
                decreases self.stories.len() - i,
            {
                let lowered_title = str_to_lowercase(self.stories[i].title.as_str());
                flags.push(title_matches(lowered_title.as_str(), lowered_query.as_str()));
                i += 1;
            }
            assert(flags@ =~= title_flags(self.stories@, lowered_query@));
            self.filtered_stories = flagged_positions(&flags);
            proof {
                crate::select::lemma_flagged(flags@, flags.len() as int);
            }
        }
        if !contains_position(&self.filtered_stories, self.selected_index) {
            self.selected_index = if self.filtered_stories.len() > 0 {
                self.filtered_stories[0]
            } else {
                0
            };
        }
    }
}

/// With an empty search text every story is listed. With any other, the
/// listing is ascending and holds exactly the stories whose title contains
/// the text, case ignored.
pub proof fn lemma_story_selection(stories: Seq<Story>, query: Seq<char>)
    requires
        stories.len() <= usize::MAX,
    ensures
        query.len() == 0 ==> story_selection(stories, query) == positions(stories.len()),
        story_selection(stories, query).len() <= stories.len(),
        forall|j: int, k: int|
            0 <= j < k < story_selection(stories, query).len() ==> story_selection(
                stories,
                query,
            )[j] < story_selection(stories, query)[k],
        forall|k: int|
            0 <= k < story_selection(stories, query).len() ==> (#[trigger] story_selection(
                stories,
                query,
            )[k]) < stories.len(),
        query.len() > 0 ==> forall|i: int|
            0 <= i < stories.len() ==> (#[trigger] story_selection(stories, query).contains(
                i as usize,
            ) <==> matches_query(stories[i].title@, query)),
{
    if query.len() > 0 {
        let flags = title_flags(stories, lowercase(query));
        let chosen = flagged(flags, stories.len() as int);
        crate::select::lemma_flagged(flags, stories.len() as int);
        assert forall|i: int| 0 <= i < stories.len() implies (#[trigger] chosen.contains(
            i as usize,
        ) <==> flags[i]) by {
            if chosen.contains(i as usize) {
                let k = choose|k: int| 0 <= k < chosen.len() && chosen[k] == i as usize;
                assert(flags[chosen[k] as int]);
            }
            if flags[i] {
                let k = choose|k: int| 0 <= k < chosen.len() && #[trigger] chosen[k] == i;
                assert(chosen[k] == i as usize);
            }
        }
    }
}

} // verus!
