//! The command palette: a fixed catalogue of commands, narrowed by a search
//! text that is matched against names and descriptions without regard to
//! case.

use crate::select::{all_positions, flagged, flagged_positions, positions};
use crate::text::{
    folds_to_contain, is_substring, lowercase, matches_query, str_contains, str_to_lowercase,
    string_pop, string_push,
};
use vstd::prelude::*;

verus! {

/// What a command does when it is run.
#[derive(Clone, Copy, Debug, PartialEq, Eq, Structural)]
pub enum CommandKind {
    OpenInBrowser,
    OpenComments,
    Summarize,
    Search,
    SwitchToTop,
    SwitchToAsk,
    SwitchToShow,
    SwitchToJobs,
    Refresh,
    RefreshAll,
    Quit,
}

/// A palette entry: what it does and how it is shown.
pub struct Command {
    pub kind: CommandKind,
    pub name: String,
    pub description: String,
}

/// A command with its texts as character sequences.
pub struct CommandView {
    pub kind: CommandKind,
    pub name: Seq<char>,
    pub description: Seq<char>,
}

impl View for Command {
    type V = CommandView;

    open spec fn view(&self) -> CommandView {
        CommandView { kind: self.kind, name: self.name@, description: self.description@ }
    }
}

/// The commands of the palette, in the order in which they are listed.
pub open spec fn catalogue() -> Seq<CommandView> {
    seq![
        CommandView {
            kind: CommandKind::OpenInBrowser,
            name: "Open in Browser"@,
            description: "Open the selected story in your default browser"@,
        },
        CommandView {
            kind: CommandKind::OpenComments,
            name: "Open Comments"@,
            description: "Open the comments for the selected story"@,
        },
        CommandView {
            kind: CommandKind::Summarize,
            name: "Summarize"@,
            description: "Get an AI summary of the selected story"@,
        },
        CommandView {
            kind: CommandKind::Search,
            name: "Search"@,
            description: "Filter stories by text"@,
        },
        CommandView {
            kind: CommandKind::SwitchToTop,
            name: "Switch to Top"@,
            description: "Switch to Top stories section"@,
        },
        CommandView {
            kind: CommandKind::SwitchToAsk,
            name: "Switch to Ask"@,
            description: "Switch to Ask HN section"@,
        },
        CommandView {
            kind: CommandKind::SwitchToShow,
            name: "Switch to Show"@,
            description: "Switch to Show HN section"@,
        },
        CommandView {
            kind: CommandKind::SwitchToJobs,
            name: "Switch to Jobs"@,
            description: "Switch to Jobs section"@,
        },
        CommandView {
            kind: CommandKind::Refresh,
            name: "Refresh"@,
            description: "Refresh the current section"@,
        },
        CommandView {
            kind: CommandKind::RefreshAll,
            name: "Refresh All"@,
            description: "Refresh all sections"@,
        },
        CommandView {
            kind: CommandKind::Quit,
            name: "Quit"@,
            description: "Exit the application"@,
        },
    ]
}

/// The commands as character sequences.
pub open spec fn command_views(commands: Seq<Command>) -> Seq<CommandView> {
    commands.map_values(|c: Command| c@)
}

/// For each command, whether the lower-case form of its name or of its
/// description contains `lowered_query`.
pub open spec fn match_flags(commands: Seq<Command>, lowered_query: Seq<char>) -> Seq<bool> {
    Seq::new(
        commands.len(),
        |i: int|
            folds_to_contain(commands[i].name@, lowered_query) || folds_to_contain(
                commands[i].description@,
                lowered_query,
            ),
    )
}

/// The positions of the commands that a search text selects: all of them for
/// the empty text, else those whose name or description contains the text,
/// case ignored.
pub open spec fn selection(commands: Seq<Command>, query: Seq<char>) -> Seq<usize> {
    if query.len() == 0 {
        positions(commands.len())
    } else {
        flagged(match_flags(commands, lowercase(query)), commands.len() as int)
    }
}

fn command(kind: CommandKind, name: &str, description: &str) -> (c: Command)
    ensures
        c@ == (CommandView { kind, name: name@, description: description@ }),
{
    Command { kind, name: name.to_owned(), description: description.to_owned() }
}

/// Whether a command is selected, given the lower-case forms of its name, of
/// its description and of the search text.
pub fn command_matches(lowered_name: &str, lowered_description: &str, lowered_query: &str) -> (hit:
    bool)
    ensures
        hit == (is_substring(lowered_query@, lowered_name@) || is_substring(
            lowered_query@,
            lowered_description@,
        )),
{
    str_contains(lowered_name, lowered_query) || str_contains(lowered_description, lowered_query)
}

pub struct CommandPalette {
    commands: Vec<Command>,
    filtered_commands: Vec<usize>,
    search_query: String,
    selected_index: usize,
}

/// The palette as mathematical values.
pub struct PaletteView {
    /// All commands, in listing order.
    pub commands: Seq<Command>,
    /// Positions of the commands that are listed at present.
    pub filtered: Seq<usize>,
    /// The search text.
    pub query: Seq<char>,
    /// Position of the highlighted row within the listed commands.
    pub selected: nat,
}

impl PaletteView {
    /// Every listed position names a command, and the highlighted row is a
    /// listed one, or the first where nothing is listed.
    pub open spec fn wf(self) -> bool {
        &&& forall|k: int|
            0 <= k < self.filtered.len() ==> (#[trigger] self.filtered[k]) < self.commands.len()
        &&& (self.selected == 0 || self.selected < self.filtered.len())
    }

    /// The palette after its listing was computed anew from the search text.
    pub open spec fn refiltered(self) -> PaletteView {
        PaletteView { filtered: selection(self.commands, self.query), selected: 0, ..self }
    }

    /// The palette with another search text, the listing left as it is.
    pub open spec fn with_query(self, query: Seq<char>) -> PaletteView {
        PaletteView { query, ..self }
    }

    /// The search text without its last character.
    pub open spec fn shortened_query(self) -> Seq<char> {
        if self.query.len() == 0 {
            self.query
        } else {
            self.query.drop_last()
        }
    }

    /// The palette with the next listed row highlighted, the first after the
    /// last; unchanged where nothing is listed.
    pub open spec fn moved_down(self) -> PaletteView {
        if self.filtered.len() == 0 {
            self
        } else {
            PaletteView {
                selected: ((self.selected + 1) as int % (self.filtered.len() as int)) as nat,
                ..self
            }
        }
    }

    /// The palette with the previous listed row highlighted, the last before
    /// the first; unchanged where nothing is listed.
    pub open spec fn moved_up(self) -> PaletteView {
        if self.filtered.len() == 0 {
            self
        } else {
            PaletteView {
                selected: if self.selected == 0 {
                    (self.filtered.len() - 1) as nat
                } else {
                    (self.selected - 1) as nat
                },
                ..self
            }
        }
    }

    /// The command in the highlighted row, if that row exists.
    pub open spec fn chosen(self) -> Option<Command> {
        if self.selected < self.filtered.len() {
            Some(self.commands[self.filtered[self.selected as int] as int])
        } else {
            None
        }
    }
}

impl View for CommandPalette {
    type V = PaletteView;

    closed spec fn view(&self) -> PaletteView {
        PaletteView {
            commands: self.commands@,
            filtered: self.filtered_commands@,
            query: self.search_query@,
            selected: self.selected_index as nat,
        }
    }
}

impl CommandPalette {
    /// Whether the palette is well formed. Every operation keeps it so.
    pub open spec fn wf(&self) -> bool {
        self@.wf()
    }

    /// The palette with its catalogue, nothing listed yet, an empty search
    /// text and the first row highlighted.
    pub fn new() -> (palette: CommandPalette)
        ensures
            palette.wf(),
            command_views(palette@.commands) == catalogue(),
            palette@.filtered == Seq::<usize>::empty(),
            palette@.query == Seq::<char>::empty(),
            palette@.selected == 0,
    {
        let mut commands: Vec<Command> = Vec::new();
        commands.push(
            command(
                CommandKind::OpenInBrowser,
                "Open in Browser",
                "Open the selected story in your default browser",
            ),
        );
        commands.push(
            command(
                CommandKind::OpenComments,
                "Open Comments",
                "Open the comments for the selected story",
            ),
        );
        commands.push(
            command(CommandKind::Summarize, "Summarize", "Get an AI summary of the selected story"),
        );
        commands.push(command(CommandKind::Search, "Search", "Filter stories by text"));
        commands.push(
            command(CommandKind::SwitchToTop, "Switch to Top", "Switch to Top stories section"),
        );
        commands.push(command(CommandKind::SwitchToAsk, "Switch to Ask", "Switch to Ask HN section"));
        commands.push(
            command(CommandKind::SwitchToShow, "Switch to Show", "Switch to Show HN section"),
        );
        commands.push(command(CommandKind::SwitchToJobs, "Switch to Jobs", "Switch to Jobs section"));
        commands.push(command(CommandKind::Refresh, "Refresh", "Refresh the current section"));
        commands.push(command(CommandKind::RefreshAll, "Refresh All", "Refresh all sections"));
        commands.push(command(CommandKind::Quit, "Quit", "Exit the application"));
        CommandPalette {
            commands,
            filtered_commands: Vec::new(),
            search_query: String::new(),
            selected_index: 0,
        }
    }

    /// Lists the commands that the search text selects and highlights the
    /// first row.
    pub fn filter_commands(&mut self)
        ensures
            final(self).wf(),
            final(self)@ == old(self)@.refiltered(),
    {
        if self.search_query.as_str().is_empty() {
            self.filtered_commands = all_positions(self.commands.len());
        } else {
            let lowered_query = str_to_lowercase(self.search_query.as_str());
            let mut flags: Vec<bool> = Vec::new();
            let mut i: usize = 0;
            while i < self.commands.len()
                invariant
                    i <= self.commands.len(),
                    flags.len() == i,
                    lowered_query@ == lowercase(self.search_query@),
                    forall|k: int|
                        0 <= k < i ==> flags[k] == match_flags(self.commands@, lowered_query@)[k],
                decreases self.commands.len() - i,
            {
                let lowered_name = str_to_lowercase(self.commands[i].name.as_str());
                let lowered_description = str_to_lowercase(self.commands[i].description.as_str());
                let hit = command_matches(
                    lowered_name.as_str(),
                    lowered_description.as_str(),
                    lowered_query.as_str(),
                );
                flags.push(hit);
                i += 1;
            }
            assert(flags@ =~= match_flags(self.commands@, lowered_query@));
            self.filtered_commands = flagged_positions(&flags);
            proof {
                crate::select::lemma_flagged(flags@, flags.len() as int);
            }
        }
        self.selected_index = 0;
    }

    /// Highlights the next listed row; after the last comes the first.
    /// Nothing changes where nothing is listed.
    pub fn next_command(&mut self)
        requires
            old(self).wf(),
        ensures
            final(self).wf(),
            final(self)@ == old(self)@.moved_down(),
    {
        if self.filtered_commands.len() > 0 {
            self.selected_index = (self.selected_index + 1) % self.filtered_commands.len();
        }
        assert(self@.filtered == old(self)@.filtered);
    }

    /// Highlights the previous listed row; before the first comes the last.
    /// Nothing changes where nothing is listed.
    pub fn previous_command(&mut self)
        requires
            old(self).wf(),
        ensures
            final(self).wf(),
            final(self)@ == old(self)@.moved_up(),
    {
        if self.filtered_commands.len() > 0 {
            self.selected_index = match self.selected_index.checked_sub(1) {
                Some(i) => i,
                None => self.filtered_commands.len() - 1,
            };
        }
    }

    /// The command in the highlighted row, if that row exists.
    pub fn get_selected_command(&self) -> (found: Option<&Command>)
        requires
            self.wf(),
        ensures
            match found {
                Some(c) => self@.chosen() == Some(*c),
                None => self@.chosen() is None,
            },
    {
        if self.selected_index < self.filtered_commands.len() {
            let idx = self.filtered_commands[self.selected_index];
            Some(&self.commands[idx])
        } else {
            None
        }
    }

    /// Whether the palette is well formed, tested at run time.
    pub fn is_valid(&self) -> (ok: bool)
        ensures
            ok == self.wf(),
    {
        let mut k: usize = 0;
        while k < self.filtered_commands.len()
            invariant
                k <= self.filtered_commands.len(),
                forall|i: int|
                    0 <= i < k ==> (#[trigger] self.filtered_commands@[i]) < self.commands@.len(),
            decreases self.filtered_commands.len() - k,
        {
            if self.filtered_commands[k] >= self.commands.len() {
                assert(!(self@.filtered[k as int] < self@.commands.len()));
                return false;
            }
            k += 1;
        }
        self.selected_index == 0 || self.selected_index < self.filtered_commands.len()
    }

    /// The search text.
    pub fn search_query(&self) -> (q: &String)
        ensures
            q@ == self@.query,
    {
        &self.search_query
    }

    /// Positions of the listed commands.
    pub fn filtered_commands(&self) -> (list: &Vec<usize>)
        ensures
            list@ == self@.filtered,
    {
        &self.filtered_commands
    }

    /// All commands.
    pub fn commands(&self) -> (list: &Vec<Command>)
        ensures
            list@ == self@.commands,
    {
        &self.commands
    }

    /// Position of the highlighted row.
    pub fn selected_index(&self) -> (i: usize)
        ensures
            i == self@.selected,
    {
        self.selected_index
    }

    /// Empties the search text. The listing stays as it is until it is
    /// filtered again.
    pub fn clear_query(&mut self)
        ensures
            final(self)@ == old(self)@.with_query(Seq::empty()),
    {
        self.search_query = String::new();
    }

    /// Appends a character to the search text and filters again.
    pub fn type_char(&mut self, c: char)
        ensures
            final(self).wf(),
            final(self)@ == old(self)@.with_query(old(self)@.query.push(c)).refiltered(),
    {
        string_push(&mut self.search_query, c);
        self.filter_commands();
    }

    /// Removes the last character of the search text, if there is one, and
    /// filters again.
    pub fn erase_char(&mut self)
        ensures
            final(self).wf(),
            final(self)@ == old(self)@.with_query(old(self)@.shortened_query()).refiltered(),
    {
        let _ = string_pop(&mut self.search_query);
        self.filter_commands();
    }
}

/// With an empty search text every command is listed. With any other, the
/// listing is ascending and holds exactly the commands whose name or
/// description contains the text, case ignored.
pub proof fn lemma_selection(commands: Seq<Command>, query: Seq<char>)
    requires
        commands.len() <= usize::MAX,
    ensures
        query.len() == 0 ==> selection(commands, query) == positions(commands.len()),
        forall|j: int, k: int|
            0 <= j < k < selection(commands, query).len() ==> selection(commands, query)[j]
                < selection(commands, query)[k],
        forall|k: int|
            0 <= k < selection(commands, query).len() ==> (#[trigger] selection(commands, query)[k])
                < commands.len(),
        query.len() > 0 ==> forall|i: int|
            0 <= i < commands.len() ==> (#[trigger] selection(commands, query).contains(i as usize)
                <==> matches_query(commands[i].name@, query) || matches_query(
                commands[i].description@,
                query,
            )),
{
    if query.len() > 0 {
        let flags = match_flags(commands, lowercase(query));
        let chosen = flagged(flags, commands.len() as int);
        crate::select::lemma_flagged(flags, commands.len() as int);
        assert forall|i: int| 0 <= i < commands.len() implies (#[trigger] chosen.contains(
            i as usize,
        ) <==> flags[i]) by {
            if chosen.contains(i as usize) {
                let k = choose|k: int| 0 <= k < chosen.len() && chosen[k] == i as usize;
                assert(flags[chosen[k] as int]);
            }
            if flags[i] {
                let k = choose|k: int| 0 <= k < chosen.len() && #[trigger] chosen[k] == i;
                assert(chosen[k] == i as usize);
            }
        }
    }
}

} // verus!
