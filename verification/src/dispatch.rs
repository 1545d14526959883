//! The input dispatcher: what a key press does to the application state in
//! each mode of the interface, and what it asks the caller to do.

use crate::state::{App, AppView, Mode, MENU_ENTRIES};
use crate::palette::CommandKind;
use crate::section::Section;
use crate::select::{all_positions, positions};
use crate::text::{decimal, string_pop, string_push, u32_to_string};
use vstd::prelude::*;
use vstd::string::StringExecFns;

verus! {

/// The key of a key press.
#[derive(Clone, Copy, Debug, PartialEq, Eq, Structural)]
pub enum KeyCode {
    Char(char),
    Enter,
    Esc,
    Up,
    Down,
    Backspace,
    /// Any key that no mode reacts to.
    Other,
}

/// A key press: the key, and whether the control key was held.
#[derive(Clone, Copy, Debug, PartialEq, Eq, Structural)]
pub struct Key {
    pub code: KeyCode,
    pub ctrl: bool,
}

/// What a page that is opened in the browser shows.
#[derive(Clone, Copy, Debug, PartialEq, Eq, Structural)]
pub enum OpenTarget {
    /// The page that the story links to.
    Link,
    /// The discussion page, for a story without a link.
    Discussion,
    /// The discussion page, asked for as such.
    Comments,
}

/// What the caller is asked to do after a key press.
pub enum Effect {
    /// Nothing is asked for.
    Nothing,
    /// Leave the program.
    Quit,
    /// Load every section anew.
    LoadAll,
    /// Fetch one section. `explicit` says whether the user asked for a
    /// refresh or switched to a section that is not cached.
    Fetch { section: Section, explicit: bool },
    /// Open a page in the browser and report back how that went.
    Open { url: String, target: OpenTarget },
    /// Ask for a summary of a text and report back what came.
    Summarize { text: String },
}

/// An effect with its texts as character sequences.
pub enum EffectView {
    Nothing,
    Quit,
    LoadAll,
    Fetch { section: Section, explicit: bool },
    Open { url: Seq<char>, target: OpenTarget },
    Summarize { text: Seq<char> },
}

impl View for Effect {
    type V = EffectView;

    open spec fn view(&self) -> EffectView {
        match *self {
            Effect::Nothing => EffectView::Nothing,
            Effect::Quit => EffectView::Quit,
            Effect::LoadAll => EffectView::LoadAll,
            Effect::Fetch { section, explicit } => EffectView::Fetch { section, explicit },
            Effect::Open { url, target } => EffectView::Open { url: url@, target },
            Effect::Summarize { text } => EffectView::Summarize { text: text@ },
        }
    }
}

/// Address of the discussion page of the story with identifier `id`.
pub open spec fn discussion_url(id: u32) -> Seq<char> {
    "https://news.ycombinator.com/item?id="@ + decimal(id as nat)
}

/// The status message after the browser was asked to open a page.
pub open spec fn opened_text(target: OpenTarget, ok: bool) -> Seq<char> {
    match target {
        OpenTarget::Link => if ok {
            "Opened in browser"@
        } else {
            "Failed to open URL"@
        },
        OpenTarget::Discussion => if ok {
            "Opened discussion in browser"@
        } else {
            "Failed to open discussion"@
        },
        OpenTarget::Comments => if ok {
            "Opened comments in browser"@
        } else {
            "Failed to open comments"@
        },
    }
}

/// The status message that a palette command leaves when it switches to a
/// section.
pub open spec fn switching_text(section: Section) -> Seq<char> {
    match section {
        Section::Top => "Switching to Top stories..."@,
        Section::Ask => "Switching to Ask HN..."@,
        Section::Show => "Switching to Show HN..."@,
        Section::Jobs => "Switching to Jobs..."@,
    }
}

impl AppView {
    /// The request to open the selected story: its link, or its discussion
    /// page where it has no link; nothing where no story is selected.
    pub open spec fn open_story(self) -> EffectView {
        if self.selected_index < self.stories.len() {
            let story = self.stories[self.selected_index as int];
            match story.url {
                Some(url) => EffectView::Open { url: url@, target: OpenTarget::Link },
                None => EffectView::Open {
                    url: discussion_url(story.id),
                    target: OpenTarget::Discussion,
                },
            }
        } else {
            EffectView::Nothing
        }
    }

    /// The request to open the discussion page of the selected story; nothing
    /// where no story is selected.
    pub open spec fn open_discussion(self) -> EffectView {
        if self.selected_index < self.stories.len() {
            EffectView::Open {
                url: discussion_url(self.stories[self.selected_index as int].id),
                target: OpenTarget::Comments,
            }
        } else {
            EffectView::Nothing
        }
    }

    /// The request for a summary of the selected story's text, the empty
    /// text where it has none; nothing where no story is selected.
    pub open spec fn summary_request(self) -> EffectView {
        if self.selected_index < self.stories.len() {
            EffectView::Summarize {
                text: match self.stories[self.selected_index as int].text {
                    Some(t) => t@,
                    None => Seq::empty(),
                },
            }
        } else {
            EffectView::Nothing
        }
    }

    /// The cache-first rule applied to the current section: a cached section
    /// is served and nothing is fetched; for any other a fetch is asked for.
    pub open spec fn shown(self) -> (AppView, EffectView) {
        if self.cache.contains_key(self.current_section) {
            (self.served_from_cache(), EffectView::Nothing)
        } else {
            (self, EffectView::Fetch { section: self.current_section, explicit: false })
        }
    }

    /// The state after a switch to `section`, and what it asks for.
    pub open spec fn switched(self, section: Section) -> (AppView, EffectView) {
        (AppView { current_section: section, ..self }).shown()
    }

    /// The state with every story listed and the search text empty, in
    /// `mode`.
    pub open spec fn search_reset(self, mode: Mode) -> AppView {
        AppView {
            mode,
            search_query: Seq::empty(),
            filtered_stories: positions(self.stories.len()),
            ..self
        }
    }

    /// The state with the story menu open on its first entry.
    pub open spec fn menu_opened(self) -> AppView {
        AppView { show_menu: true, mode: Mode::Menu, menu_index: 0, ..self }
    }

    /// The state with the story menu closed.
    pub open spec fn menu_closed(self) -> AppView {
        AppView { show_menu: false, mode: Mode::Normal, ..self }
    }

    /// The state after the palette was left: normal mode, unless a command
    /// entered the search, and an empty palette search text.
    pub open spec fn palette_closed(self) -> AppView {
        AppView {
            mode: if self.mode == Mode::Search {
                Mode::Search
            } else {
                Mode::Normal
            },
            palette: self.palette.with_query(Seq::empty()),
            ..self
        }
    }

    /// What running a palette command does, before the palette is left.
    pub open spec fn run(self, kind: CommandKind) -> (AppView, EffectView) {
        match kind {
            CommandKind::OpenInBrowser => (self, self.open_story()),
            CommandKind::OpenComments => (self, self.open_discussion()),
            CommandKind::Summarize => (self.menu_opened(), EffectView::Nothing),
            CommandKind::Search => (self.search_reset(Mode::Search), EffectView::Nothing),
            CommandKind::SwitchToTop => self.with_status(switching_text(Section::Top)).switched(
                Section::Top,
            ),
            CommandKind::SwitchToAsk => self.with_status(switching_text(Section::Ask)).switched(
                Section::Ask,
            ),
            CommandKind::SwitchToShow => self.with_status(switching_text(Section::Show)).switched(
                Section::Show,
            ),
            CommandKind::SwitchToJobs => self.with_status(switching_text(Section::Jobs)).switched(
                Section::Jobs,
            ),
            CommandKind::Refresh => (
                self,
                EffectView::Fetch { section: self.current_section, explicit: true },
            ),
            CommandKind::RefreshAll => (self, EffectView::LoadAll),
            CommandKind::Quit => (self, EffectView::Quit),
        }
    }

    /// A key press in normal mode.
    pub open spec fn step_normal(self, key: Key) -> (AppView, EffectView) {
        match key.code {
            KeyCode::Char(c) => {
                if c == 'q' {
                    (self, EffectView::Quit)
                } else if c == 'c' && key.ctrl {
                    (self, EffectView::Quit)
                } else if c == 'k' && key.ctrl {
                    (
                        AppView {
                            mode: Mode::CommandPalette,
                            palette: self.palette.with_query(Seq::empty()).refiltered(),
                            ..self
                        },
                        EffectView::Nothing,
                    )
                } else if c == '/' {
                    (self.search_reset(Mode::Search), EffectView::Nothing)
                } else if c == 'j' {
                    (self.moved_down(), EffectView::Nothing)
                } else if c == 'k' {
                    (self.moved_up(), EffectView::Nothing)
                } else if c == 'R' {
                    (self, EffectView::LoadAll)
                } else if c == 'r' {
                    (self, EffectView::Fetch { section: self.current_section, explicit: true })
                } else if c == 'T' {
                    self.switched_if_other(Section::Top)
                } else if c == 'A' {
                    self.switched_if_other(Section::Ask)
                } else if c == 'S' {
                    self.switched_if_other(Section::Show)
                } else if c == 'J' {
                    self.switched_if_other(Section::Jobs)
                } else if c == 'o' {
                    (self.menu_opened(), EffectView::Nothing)
                } else if c == 'C' {
                    (self, self.open_discussion())
                } else if c == 'h' {
                    self.switched(self.current_section.predecessor())
                } else if c == 'l' {
                    self.switched(self.current_section.successor())
                } else {
                    (self, EffectView::Nothing)
                }
            },
            KeyCode::Down => (self.moved_down(), EffectView::Nothing),
            KeyCode::Up => (self.moved_up(), EffectView::Nothing),
            KeyCode::Enter => (self, self.open_story()),
            _ => (self, EffectView::Nothing),
        }
    }

    /// A switch to `section`, unless it is the current one already.
    pub open spec fn switched_if_other(self, section: Section) -> (AppView, EffectView) {
        if self.current_section != section {
            self.switched(section)
        } else {
            (self, EffectView::Nothing)
        }
    }

    /// The state with the next menu entry highlighted, the first after the
    /// last.
    pub open spec fn menu_down(self) -> AppView {
        AppView { menu_index: ((self.menu_index + 1) as int % (MENU_ENTRIES as int)) as nat, ..self }
    }

    /// The state with the previous menu entry highlighted, the last before
    /// the first.
    pub open spec fn menu_up(self) -> AppView {
        AppView {
            menu_index: if self.menu_index == 0 {
                (MENU_ENTRIES - 1) as nat
            } else {
                (self.menu_index - 1) as nat
            },
            ..self
        }
    }

    /// A key press while the story menu is open.
    pub open spec fn step_menu(self, key: Key) -> (AppView, EffectView) {
        match key.code {
            KeyCode::Esc => (self.menu_closed(), EffectView::Nothing),
            KeyCode::Enter => {
                if self.menu_index == 0 {
                    (self, self.summary_request())
                } else if self.menu_index == 1 {
                    (self.menu_closed(), self.open_story())
                } else {
                    (self.menu_closed(), EffectView::Nothing)
                }
            },
            KeyCode::Down => (self.menu_down(), EffectView::Nothing),
            KeyCode::Up => (self.menu_up(), EffectView::Nothing),
            KeyCode::Char(c) => {
                if c == 'j' {
                    (self.menu_down(), EffectView::Nothing)
                } else if c == 'k' {
                    (self.menu_up(), EffectView::Nothing)
                } else {
                    (self, EffectView::Nothing)
                }
            },
            _ => (self, EffectView::Nothing),
        }
    }

    /// A key press while a summary is shown.
    pub open spec fn step_summary(self, key: Key) -> (AppView, EffectView) {
        match key.code {
            KeyCode::Esc => (AppView { summary: None, mode: Mode::Normal, ..self }, EffectView::Nothing),
            _ => (self, EffectView::Nothing),
        }
    }

    /// A key press while the command palette is open.
    pub open spec fn step_palette(self, key: Key) -> (AppView, EffectView) {
        match key.code {
            KeyCode::Esc => (
                AppView {
                    mode: Mode::Normal,
                    palette: self.palette.with_query(Seq::empty()),
                    ..self
                },
                EffectView::Nothing,
            ),
            KeyCode::Char(c) => (
                AppView {
                    palette: self.palette.with_query(self.palette.query.push(c)).refiltered(),
                    ..self
                },
                EffectView::Nothing,
            ),
            KeyCode::Backspace => (
                AppView {
                    palette: self.palette.with_query(self.palette.shortened_query()).refiltered(),
                    ..self
                },
                EffectView::Nothing,
            ),
            KeyCode::Down => (
                AppView { palette: self.palette.moved_down(), ..self },
                EffectView::Nothing,
            ),
            KeyCode::Up => (AppView { palette: self.palette.moved_up(), ..self }, EffectView::Nothing),
            KeyCode::Enter => match self.palette.chosen() {
                Some(command) => {
                    let (after, effect) = self.run(command.kind);
                    (after.palette_closed(), effect)
                },
                None => (self.palette_closed(), EffectView::Nothing),
            },
            _ => (self, EffectView::Nothing),
        }
    }

    /// The search text without its last character.
    pub open spec fn shortened_query(self) -> Seq<char> {
        if self.search_query.len() == 0 {
            self.search_query
        } else {
            self.search_query.drop_last()
        }
    }

    /// A key press while the stories are searched.
    pub open spec fn step_search(self, key: Key) -> (AppView, EffectView) {
        match key.code {
            KeyCode::Esc => (self.search_reset(Mode::Normal), EffectView::Nothing),
            KeyCode::Char(c) => (
                (AppView { search_query: self.search_query.push(c), ..self }).refiltered(),
                EffectView::Nothing,
            ),
            KeyCode::Backspace => (
                (AppView { search_query: self.shortened_query(), ..self }).refiltered(),
                EffectView::Nothing,
            ),
            KeyCode::Enter => {
                if self.selected_index < self.filtered_stories.len() {
                    let picked = AppView {
                        selected_index: self.filtered_stories[self.selected_index as int] as nat,
                        ..self
                    };
                    (picked.search_reset(Mode::Normal), picked.open_story())
                } else {
                    (self.search_reset(Mode::Normal), EffectView::Nothing)
                }
            },
            KeyCode::Down => (
                if self.filtered_stories.len() > 0 {
                    AppView {
                        selected_index: ((self.selected_index + 1) as int % (
                        self.filtered_stories.len() as int)) as nat,
                        ..self
                    }
                } else {
                    self
                },
                EffectView::Nothing,
            ),
            KeyCode::Up => (
                if self.filtered_stories.len() > 0 {
                    AppView {
                        selected_index: if self.selected_index == 0 {
                            (self.filtered_stories.len() - 1) as nat
                        } else {
                            (self.selected_index - 1) as nat
                        },
                        ..self
                    }
                } else {
                    self
                },
                EffectView::Nothing,
            ),
            _ => (self, EffectView::Nothing),
        }
    }

    /// What a key press does: the state after it, and what it asks the
    /// caller to do.
    pub open spec fn step(self, key: Key) -> (AppView, EffectView) {
        match self.mode {
            Mode::Normal => self.step_normal(key),
            Mode::Menu => self.step_menu(key),
            Mode::Summary => self.step_summary(key),
            Mode::CommandPalette => self.step_palette(key),
            Mode::Search => self.step_search(key),
        }
    }

    /// The state after the browser was asked to open a page.
    pub open spec fn open_reported(self, target: OpenTarget, ok: bool) -> AppView {
        self.with_status(opened_text(target, ok))
    }

    /// The state after a summary arrived, or failed to.
    pub open spec fn summary_reported(self, outcome: Result<Seq<char>, Seq<char>>) -> AppView {
        match outcome {
            Ok(summary) => AppView { summary: Some(summary), mode: Mode::Summary, ..self },
            Err(reason) => self.with_status("Failed to get summary: "@ + reason),
        }
    }
}

/// The key that cancels a wait: `q`, with or without the control key.
pub open spec fn cancels(key: Key) -> bool {
    key.code == KeyCode::Char('q')
}

/// Whether `key` cancels a wait.
pub fn is_cancel_key(key: Key) -> (cancel: bool)
    ensures
        cancel == cancels(key),
{
    match key.code {
        KeyCode::Char(c) => c == 'q',
        _ => false,
    }
}

/// Address of the discussion page of the story with identifier `id`.
pub fn discussion_page(id: u32) -> (url: String)
    ensures
        url@ == discussion_url(id),
{
    String::from_str("https://news.ycombinator.com/item?id=").concat(u32_to_string(id).as_str())
}

/// The text of a summary outcome as character sequences.
pub open spec fn outcome_view(outcome: Result<String, String>) -> Result<Seq<char>, Seq<char>> {
    match outcome {
        Ok(s) => Ok(s@),
        Err(e) => Err(e@),
    }
}

impl App {
    /// The request to open the selected story in the browser: its link, or
    /// its discussion page where it has no link.
    pub fn open_current_story(&self) -> (effect: Effect)
        ensures
            effect@ == self@.open_story(),
    {
        if self.selected_index < self.stories.len() {
            let story = &self.stories[self.selected_index];
            match &story.url {
                Some(url) => Effect::Open { url: url.clone(), target: OpenTarget::Link },
                None => Effect::Open {
                    url: discussion_page(story.id),
                    target: OpenTarget::Discussion,
                },
            }
        } else {
            Effect::Nothing
        }
    }

    /// The request to open the discussion page of the selected story.
    pub fn open_comments(&self) -> (effect: Effect)
        ensures
            effect@ == self@.open_discussion(),
    {
        if self.selected_index < self.stories.len() {
            Effect::Open {
                url: discussion_page(self.stories[self.selected_index].id),
                target: OpenTarget::Comments,
            }
        } else {
            Effect::Nothing
        }
    }

    /// Notes how opening a page went.
    pub fn open_finished(&mut self, target: OpenTarget, ok: bool)
        ensures
            final(self)@ == old(self)@.open_reported(target, ok),
    {
        let message = match target {
            OpenTarget::Link => if ok {
                "Opened in browser"
            } else {
                "Failed to open URL"
            },
            OpenTarget::Discussion => if ok {
                "Opened discussion in browser"
            } else {
                "Failed to open discussion"
            },
            OpenTarget::Comments => if ok {
                "Opened comments in browser"
            } else {
                "Failed to open comments"
            },
        };
        self.set_status_message(String::from_str(message));
    }

    /// Takes over a summary, or notes why none came.
    pub fn summary_finished(&mut self, outcome: Result<String, String>)
        ensures
            final(self)@ == old(self)@.summary_reported(outcome_view(outcome)),
    {
        match outcome {
            Ok(summary) => {
                self.claude_summary = Some(summary);
                self.mode = Mode::Summary;
            },
            Err(reason) => {
                let message = String::from_str("Failed to get summary: ").concat(reason.as_str());
                self.set_status_message(message);
            },
        }
    }

    /// Makes `section` the current one and applies the cache-first rule.
    pub fn switch_section(&mut self, section: Section) -> (effect: Effect)
        requires
            old(self).wf(),
        ensures
            final(self).wf(),
            (final(self)@, effect@) == old(self)@.switched(section),
    {
        self.current_section = section;
        if self.serve_from_cache() {
            Effect::Nothing
        } else {
            Effect::Fetch { section, explicit: false }
        }
    }

    fn reset_search(&mut self, mode: Mode)
        requires
            old(self).wf(),
        ensures
            final(self).wf(),
            final(self)@ == old(self)@.search_reset(mode),
    {
        self.mode = mode;
        self.search_query = String::new();
        self.filtered_stories = all_positions(self.stories.len());
    }

    fn open_menu(&mut self)
        requires
            old(self).wf(),
        ensures
            final(self).wf(),
            final(self)@ == old(self)@.menu_opened(),
    {
        self.show_menu = true;
        self.mode = Mode::Menu;
        self.menu_index = 0;
    }

    fn close_menu(&mut self)
        requires
            old(self).wf(),
        ensures
            final(self).wf(),
            final(self)@ == old(self)@.menu_closed(),
    {
        self.show_menu = false;
        self.mode = Mode::Normal;
    }

    fn announce_switch(&mut self, section: Section)
        ensures
            final(self)@ == old(self)@.with_status(switching_text(section)),
    {
        let message = match section {
            Section::Top => "Switching to Top stories...",
            Section::Ask => "Switching to Ask HN...",
            Section::Show => "Switching to Show HN...",
            Section::Jobs => "Switching to Jobs...",
        };
        self.set_status_message(String::from_str(message));
    }

    /// Runs a palette command: changes the state as the command says and
    /// returns what the caller is to do.
    pub fn execute(&mut self, kind: CommandKind) -> (effect: Effect)
        requires
            old(self).wf(),
        ensures
            final(self).wf(),
            (final(self)@, effect@) == old(self)@.run(kind),
    {
        match kind {
            CommandKind::OpenInBrowser => self.open_current_story(),
            CommandKind::OpenComments => self.open_comments(),
            CommandKind::Summarize => {
                self.open_menu();
                Effect::Nothing
            },
            CommandKind::Search => {
                self.reset_search(Mode::Search);
                Effect::Nothing
            },
            CommandKind::SwitchToTop => {
                self.announce_switch(Section::Top);
                self.switch_section(Section::Top)
            },
            CommandKind::SwitchToAsk => {
                self.announce_switch(Section::Ask);
                self.switch_section(Section::Ask)
            },
            CommandKind::SwitchToShow => {
                self.announce_switch(Section::Show);
                self.switch_section(Section::Show)
            },
            CommandKind::SwitchToJobs => {
                self.announce_switch(Section::Jobs);
                self.switch_section(Section::Jobs)
            },
            CommandKind::Refresh => Effect::Fetch { section: self.current_section, explicit: true },
            CommandKind::RefreshAll => Effect::LoadAll,
            CommandKind::Quit => Effect::Quit,
        }
    }

    fn key_normal(&mut self, key: Key) -> (effect: Effect)
        requires
            old(self).wf(),
        ensures
            final(self).wf(),
            (final(self)@, effect@) == old(self)@.step_normal(key),
    {
        match key.code {
            KeyCode::Char(c) => {
                if c == 'q' {
                    Effect::Quit
                } else if c == 'c' && key.ctrl {
                    Effect::Quit
                } else if c == 'k' && key.ctrl {
                    self.mode = Mode::CommandPalette;
                    self.command_palette.clear_query();
                    self.command_palette.filter_commands();
                    Effect::Nothing
                } else if c == '/' {
                    self.reset_search(Mode::Search);
                    Effect::Nothing
                } else if c == 'j' {
                    self.next_story();
                    Effect::Nothing
                } else if c == 'k' {
                    self.previous_story();
                    Effect::Nothing
                } else if c == 'R' {
                    Effect::LoadAll
                } else if c == 'r' {
                    Effect::Fetch { section: self.current_section, explicit: true }
                } else if c == 'T' {
                    self.switch_if_other(Section::Top)
                } else if c == 'A' {
                    self.switch_if_other(Section::Ask)
                } else if c == 'S' {
                    self.switch_if_other(Section::Show)
                } else if c == 'J' {
                    self.switch_if_other(Section::Jobs)
                } else if c == 'o' {
                    self.open_menu();
                    Effect::Nothing
                } else if c == 'C' {
                    self.open_comments()
                } else if c == 'h' {
                    let target = self.current_section.previous();
                    self.switch_section(target)
                } else if c == 'l' {
                    let target = self.current_section.next();
                    self.switch_section(target)
                } else {
                    Effect::Nothing
                }
            },
            KeyCode::Down => {
                self.next_story();
                Effect::Nothing
            },
            KeyCode::Up => {
                self.previous_story();
                Effect::Nothing
            },
            KeyCode::Enter => self.open_current_story(),
            _ => Effect::Nothing,
        }
    }

    fn switch_if_other(&mut self, section: Section) -> (effect: Effect)
        requires
            old(self).wf(),
        ensures
            final(self).wf(),
            (final(self)@, effect@) == old(self)@.switched_if_other(section),
    {
        if self.current_section != section {
            self.switch_section(section)
        } else {
            Effect::Nothing
        }
    }

    fn menu_next(&mut self)
        requires
            old(self).wf(),
        ensures
            final(self).wf(),
            final(self)@ == old(self)@.menu_down(),
    {
        self.menu_index = (self.menu_index + 1) % MENU_ENTRIES;
    }

    fn menu_previous(&mut self)
        requires
            old(self).wf(),
        ensures
            final(self).wf(),
            final(self)@ == old(self)@.menu_up(),
    {
        self.menu_index = match self.menu_index.checked_sub(1) {
            Some(i) => i,
            None => MENU_ENTRIES - 1,
        };
    }

    fn request_summary(&self) -> (effect: Effect)
        ensures
            effect@ == self@.summary_request(),
    {
        if self.selected_index < self.stories.len() {
            let text = match &self.stories[self.selected_index].text {
                Some(t) => t.clone(),
                None => String::new(),
            };
            Effect::Summarize { text }
        } else {
            Effect::Nothing
        }
    }

    fn key_menu(&mut self, key: Key) -> (effect: Effect)
        requires
            old(self).wf(),
        ensures
            final(self).wf(),
            (final(self)@, effect@) == old(self)@.step_menu(key),
    {
        match key.code {
            KeyCode::Esc => {
                self.close_menu();
                Effect::Nothing
            },
            KeyCode::Enter => {
                if self.menu_index == 0 {
                    self.request_summary()
                } else if self.menu_index == 1 {
                    let effect = self.open_current_story();
                    self.close_menu();
                    effect
                } else {
                    self.close_menu();
                    Effect::Nothing
                }
            },
            KeyCode::Down => {
                self.menu_next();
                Effect::Nothing
            },
            KeyCode::Up => {
                self.menu_previous();
                Effect::Nothing
            },
            KeyCode::Char(c) => {
                if c == 'j' {
                    self.menu_next();
                } else if c == 'k' {
                    self.menu_previous();
                }
                Effect::Nothing
            },
            _ => Effect::Nothing,
        }
    }

    fn key_summary(&mut self, key: Key) -> (effect: Effect)
        requires
            old(self).wf(),
        ensures
            final(self).wf(),
            (final(self)@, effect@) == old(self)@.step_summary(key),
    {
        match key.code {
            KeyCode::Esc => {
                self.claude_summary = None;
                self.mode = Mode::Normal;
            },
            _ => {},
        }
        Effect::Nothing
    }

    fn close_palette(&mut self)
        requires
            old(self).wf(),
        ensures
            final(self).wf(),
            final(self)@ == old(self)@.palette_closed(),
    {
        match self.mode {
            Mode::Search => {},
            _ => {
                self.mode = Mode::Normal;
            },
        }
        self.command_palette.clear_query();
    }

    fn key_palette(&mut self, key: Key) -> (effect: Effect)
        requires
            old(self).wf(),
        ensures
            final(self).wf(),
            (final(self)@, effect@) == old(self)@.step_palette(key),
    {
        match key.code {
            KeyCode::Esc => {
                self.mode = Mode::Normal;
                self.command_palette.clear_query();
                Effect::Nothing
            },
            KeyCode::Char(c) => {
                self.command_palette.type_char(c);
                Effect::Nothing
            },
            KeyCode::Backspace => {
                self.command_palette.erase_char();
                Effect::Nothing
            },
            KeyCode::Down => {
                self.command_palette.next_command();
                Effect::Nothing
            },
            KeyCode::Up => {
                self.command_palette.previous_command();
                Effect::Nothing
            },
            KeyCode::Enter => {
                let chosen = match self.command_palette.get_selected_command() {
                    Some(command) => Some(command.kind),
                    None => None,
                };
                let effect = match chosen {
                    Some(kind) => self.execute(kind),
                    None => Effect::Nothing,
                };
                self.close_palette();
                effect
            },
            _ => Effect::Nothing,
        }
    }

    fn key_search(&mut self, key: Key) -> (effect: Effect)
        requires
            old(self).wf(),
        ensures
            final(self).wf(),
            (final(self)@, effect@) == old(self)@.step_search(key),
    {
        match key.code {
            KeyCode::Esc => {
                self.reset_search(Mode::Normal);
                Effect::Nothing
            },
            KeyCode::Char(c) => {
                string_push(&mut self.search_query, c);
                self.filter_stories();
                Effect::Nothing
            },
            KeyCode::Backspace => {
                let _ = string_pop(&mut self.search_query);
                self.filter_stories();
                Effect::Nothing
            },
            KeyCode::Enter => {
                let effect = if self.selected_index < self.filtered_stories.len() {
                    self.selected_index = self.filtered_stories[self.selected_index];
                    self.open_current_story()
                } else {
                    Effect::Nothing
                };
                self.reset_search(Mode::Normal);
                effect
            },
            KeyCode::Down => {
                if self.filtered_stories.len() > 0 {
                    assert(self.selected_index < self.stories.len());
                    self.selected_index = (self.selected_index + 1) % self.filtered_stories.len();
                }
                Effect::Nothing
            },
            KeyCode::Up => {
                if self.filtered_stories.len() > 0 {
                    self.selected_index = match self.selected_index.checked_sub(1) {
                        Some(i) => i,
                        None => self.filtered_stories.len() - 1,
                    };
                }
                Effect::Nothing
            },
            _ => Effect::Nothing,
        }
    }

    /// Handles a key press in the present mode: changes the state and
    /// returns what the caller is to do.
    pub fn handle_key(&mut self, key: Key) -> (effect: Effect)
        requires
            old(self).wf(),
        ensures
            final(self).wf(),
            (final(self)@, effect@) == old(self)@.step(key),
    {
        match self.mode {
            Mode::Normal => self.key_normal(key),
            Mode::Menu => self.key_menu(key),
            Mode::Summary => self.key_summary(key),
            Mode::CommandPalette => self.key_palette(key),
            Mode::Search => self.key_search(key),
        }
    }
}

/// A switch to a section asks for a fetch exactly when the section is not
/// cached. A cached section is served as it is cached, and the cache stays as
/// it was either way.
pub proof fn lemma_switch_is_cache_first(view: AppView, section: Section)
    ensures
        view.cache.contains_key(section) ==> view.switched(section).1 == EffectView::Nothing
            && view.switched(section).0.stories == view.cache[section]
            && view.switched(section).0.selected_index == 0,
        !view.cache.contains_key(section) ==> view.switched(section).1 == (EffectView::Fetch {
            section,
            explicit: false,
        }),
        view.switched(section).0.cache == view.cache,
        view.switched(section).0.current_section == section,
{
}

/// No key press in any mode writes the cache.
pub proof fn lemma_keys_keep_cache(view: AppView, key: Key)
    ensures
        view.step(key).0.cache == view.cache,
{
}

/// A key press asks for a fetch that is not an explicit refresh only for a
/// section that is not cached.
pub proof fn lemma_keys_fetch_only_uncached(view: AppView, key: Key)
    ensures
        view.step(key).1 matches EffectView::Fetch { section, explicit } ==> explicit
            || !view.cache.contains_key(section),
{
}

} // verus!
