//! What the screen shows, as plain rows of text: the section tabs, the
//! window of the story list, the menu, the palette and the search line.
//! Drawing them is the caller's part.

use crate::state::{App, AppView};
use crate::section::Section;
use crate::story::Story;
use crate::text::decimal;
use vstd::prelude::*;
use vstd::string::StringExecFns;

verus! {

/// A row of a list, and whether it is drawn highlighted.
pub struct Row {
    pub text: String,
    pub highlighted: bool,
}

/// A row with its text as a character sequence.
pub struct RowView {
    pub text: Seq<char>,
    pub highlighted: bool,
}

impl View for Row {
    type V = RowView;

    open spec fn view(&self) -> RowView {
        RowView { text: self.text@, highlighted: self.highlighted }
    }
}

/// The rows as character sequences.
pub open spec fn row_views(rows: Seq<Row>) -> Seq<RowView> {
    rows.map_values(|r: Row| r@)
}

/// A numeral set right in a field of two characters.
pub open spec fn padded(numeral: Seq<char>) -> Seq<char> {
    if numeral.len() < 2 {
        " "@ + numeral
    } else {
        numeral
    }
}

/// The decimal numeral of an integer, with a minus sign if it is negative.
pub open spec fn signed_decimal(n: int) -> Seq<char> {
    if n < 0 {
        "-"@ + decimal((-n) as nat)
    } else {
        decimal(n as nat)
    }
}

/// The line of the story that is listed as number `number`.
pub open spec fn story_text(number: nat, story: Story) -> Seq<char> {
    padded(decimal(number)) + ". "@ + story.title@ + " ["@ + signed_decimal(story.score as int)
        + "] ("@ + story.by@ + ")"@
}

/// `format!` of the standard library with `{:2}. {} [{}] ({})`: the number
/// right in a field of two, then title, score and author between the fixed
/// marks.
#[verifier::external_body]
pub(crate) fn format_story_line(number: usize, story: &Story) -> (line: String)
    ensures
        line@ == story_text(number as nat, *story),
{
    format!("{:2}. {} [{}] ({})", number, story.title, story.score, story.by)
}

/// The tab of a section: its name between two spaces.
pub open spec fn tab_text(section: Section) -> Seq<char> {
    " "@ + section.name() + " "@
}

/// The tabs of the four sections, the current one highlighted.
pub open spec fn tabs(current: Section) -> Seq<RowView> {
    Seq::new(4, |i: int| RowView { text: tab_text(Section::at(i)), highlighted: Section::at(i) == current })
}

/// The entries of the story menu.
pub open spec fn menu_texts() -> Seq<Seq<char>> {
    seq!["Summarize this post..."@, "Open this post....."@, "Close this menu"@]
}

/// The rows of the story menu, entry `index` highlighted.
pub open spec fn menu(index: nat) -> Seq<RowView> {
    Seq::new(3, |i: int| RowView { text: menu_texts()[i], highlighted: i == index })
}

impl AppView {
    /// First listed position that the window shows.
    pub open spec fn window_start(self) -> nat {
        if self.scroll_offset <= self.filtered_stories.len() {
            self.scroll_offset
        } else {
            self.filtered_stories.len()
        }
    }

    /// Number of rows that a window of `height` rows shows.
    pub open spec fn window_len(self, height: nat) -> nat {
        if self.filtered_stories.len() - self.window_start() <= height {
            (self.filtered_stories.len() - self.window_start()) as nat
        } else {
            height
        }
    }

    /// The row of listed position `k`: its number is `k + 1`, and it is
    /// highlighted if `k` is the selection.
    pub open spec fn story_row(self, k: int) -> RowView {
        RowView {
            text: story_text((k + 1) as nat, self.stories[self.filtered_stories[k] as int]),
            highlighted: k == self.selected_index,
        }
    }

    /// The rows of a window of `height` rows on the listed stories, from the
    /// scroll offset on.
    pub open spec fn window(self, height: nat) -> Seq<RowView> {
        Seq::new(self.window_len(height), |j: int| self.story_row(self.window_start() + j))
    }

    /// The search line: a slash and the search text.
    pub open spec fn search_line(self) -> Seq<char> {
        "/"@ + self.search_query
    }
}

/// The tabs of the four sections, the current one highlighted.
pub fn section_tabs(current: Section) -> (rows: Vec<Row>)
    ensures
        row_views(rows@) == tabs(current),
{
    let sections = Section::all();
    let mut rows: Vec<Row> = Vec::new();
    let mut i: usize = 0;
    while i < 4
        invariant
            i <= 4,
            sections@ == seq![Section::Top, Section::Ask, Section::Show, Section::Jobs],
            rows.len() == i,
            forall|k: int| 0 <= k < i ==> (#[trigger] rows[k])@ == tabs(current)[k],
        decreases 4 - i,
    {
        let section = sections[i];
        let text = String::from_str(" ").concat(section.as_str()).concat(" ");
        rows.push(Row { text, highlighted: section == current });
        i += 1;
    }
    rows
}

/// The rows of the story menu, entry `index` highlighted.
pub fn menu_rows(index: usize) -> (rows: Vec<Row>)
    ensures
        row_views(rows@) == menu(index as nat),
{
    let mut rows: Vec<Row> = Vec::new();
    rows.push(Row { text: String::from_str("Summarize this post..."), highlighted: index == 0 });
    rows.push(Row { text: String::from_str("Open this post....."), highlighted: index == 1 });
    rows.push(Row { text: String::from_str("Close this menu"), highlighted: index == 2 });
    rows
}

impl App {
    /// The rows of the story list that a window of `height` rows shows.
    pub fn visible_rows(&self, height: usize) -> (rows: Vec<Row>)
        requires
            self.wf(),
        ensures
            row_views(rows@) == self@.window(height as nat),
    {
        let listed = self.filtered_stories.len();
        let start = if self.scroll_offset <= listed {
            self.scroll_offset
        } else {
            listed
        };
        let count = if listed - start <= height {
            listed - start
        } else {
            height
        };
        let mut rows: Vec<Row> = Vec::new();
        let mut j: usize = 0;
        while j < count
            invariant
                self.wf(),
                j <= count,
                start + count <= listed,
                listed == self.filtered_stories.len(),
                start == self@.window_start(),
                count == self@.window_len(height as nat),
                rows.len() == j,
                forall|k: int| 0 <= k < j ==> (#[trigger] rows[k])@ == self@.story_row(start + k),
            decreases count - j,
        {
            let position = start + j;
            let story = &self.stories[self.filtered_stories[position]];
            rows.push(
                Row {
                    text: format_story_line(position + 1, story),
                    highlighted: position == self.selected_index,
                },
            );
            j += 1;
        }
        rows
    }

    /// The search line: a slash and the search text.
    pub fn search_box(&self) -> (line: String)
        ensures
            line@ == self@.search_line(),
    {
        String::from_str("/").concat(self.search_query.as_str())
    }
}

/// A window shows no more rows than it has and no more than are listed, and
/// after the list was scrolled to the selection, a selected listed story is
/// among them.
pub proof fn lemma_window(view: AppView, height: nat)
    requires
        height > 0,
        view.selected_index < view.filtered_stories.len(),
    ensures
        view.window(height).len() <= height,
        view.window(height).len() <= view.filtered_stories.len(),
        view.scrolled_into_view(height).window_start() <= view.selected_index
            < view.scrolled_into_view(height).window_start() + view.scrolled_into_view(
            height,
        ).window(height).len(),
{
}

} // verus!
