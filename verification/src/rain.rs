//! The integer side of the busy indicator: the grid of glyphs that rains
//! down the screen, and which glyph a cell shows for a given position of its
//! column's head. How fast the columns fall is the caller's arithmetic.

use vstd::prelude::*;
use vstd::string::StrSliceExecFns;

verus! {

/// Number of glyphs in a column.
pub const COLUMN_DEPTH: usize = 20;

/// The glyphs that the rain is made of.
pub open spec fn alphabet_text() -> Seq<char> {
    "ｱｲｳｴｵｶｷｸｹｺｻｼｽｾｿﾀﾁﾂﾃﾄﾅﾆﾇﾈﾉﾊﾋﾌﾍﾎﾏﾐﾑﾒﾓﾔﾕﾖﾗﾘﾙﾚﾛﾜﾝ1234567890"@
}

/// `Rng::gen_range` of rand on the thread's generator: some index below
/// `n`. Which one is left open.
#[verifier::external_body]
pub(crate) fn random_below(n: usize) -> (i: usize)
    requires
        n > 0,
    ensures
        i < n,
{
    rand::Rng::gen_range(&mut rand::thread_rng(), 0..n)
}

/// The glyphs that the rain is made of.
pub fn alphabet() -> (glyphs: Vec<char>)
    ensures
        glyphs@ == alphabet_text(),
{
    let text = "ｱｲｳｴｵｶｷｸｹｺｻｼｽｾｿﾀﾁﾂﾃﾄﾅﾆﾇﾈﾉﾊﾋﾌﾍﾎﾏﾐﾑﾒﾓﾔﾕﾖﾗﾘﾙﾚﾛﾜﾝ1234567890";
    let count = text.unicode_len();
    let mut glyphs: Vec<char> = Vec::new();
    let mut i: usize = 0;
    while i < count
        invariant
            i <= count,
            count == text@.len(),
            glyphs@ == text@.subrange(0, i as int),
        decreases count - i,
    {
        glyphs.push(text.get_char(i));
        i += 1;
    }
    glyphs
}

/// The glyph at `index` of `glyphs`.
pub fn pick(glyphs: &Vec<char>, index: usize) -> (glyph: char)
    requires
        index < glyphs.len(),
    ensures
        glyph == glyphs[index as int],
{
    glyphs[index]
}

/// A column of twenty glyphs, each drawn at random from `glyphs`.
pub fn random_column(glyphs: &Vec<char>) -> (column: Vec<char>)
    requires
        glyphs.len() > 0,
    ensures
        column.len() == COLUMN_DEPTH,
        forall|k: int| 0 <= k < column.len() ==> glyphs@.contains(#[trigger] column[k]),
{
    let mut column: Vec<char> = Vec::new();
    let mut k: usize = 0;
    while k < COLUMN_DEPTH
        invariant
            k <= COLUMN_DEPTH,
            glyphs.len() > 0,
            column.len() == k,
            forall|j: int| 0 <= j < column.len() ==> glyphs@.contains(#[trigger] column[j]),
        decreases COLUMN_DEPTH - k,
    {
        let index = random_below(glyphs.len());
        column.push(pick(glyphs, index));
        k += 1;
    }
    column
}

/// One random column for each of `width` screen columns.
pub fn glyph_grid(width: usize) -> (grid: Vec<Vec<char>>)
    ensures
        grid.len() == width,
        forall|x: int| 0 <= x < grid.len() ==> (#[trigger] grid[x]).len() == COLUMN_DEPTH,
        forall|x: int, k: int|
            0 <= x < grid.len() && 0 <= k < COLUMN_DEPTH ==> alphabet_text().contains(
                #[trigger] grid[x][k],
            ),
{
    let glyphs = alphabet();
    proof {
        reveal_strlit("ｱｲｳｴｵｶｷｸｹｺｻｼｽｾｿﾀﾁﾂﾃﾄﾅﾆﾇﾈﾉﾊﾋﾌﾍﾎﾏﾐﾑﾒﾓﾔﾕﾖﾗﾘﾙﾚﾛﾜﾝ1234567890");
    }
    let mut grid: Vec<Vec<char>> = Vec::new();
    let mut x: usize = 0;
    while x < width
        invariant
            x <= width,
            glyphs@ == alphabet_text(),
            glyphs.len() > 0,
            grid.len() == x,
            forall|i: int| 0 <= i < grid.len() ==> (#[trigger] grid[i]).len() == COLUMN_DEPTH,
            forall|i: int, k: int|
                0 <= i < grid.len() && 0 <= k < COLUMN_DEPTH ==> alphabet_text().contains(
                    #[trigger] grid[i][k],
                ),
        decreases width - x,
    {
        let column = random_column(&glyphs);
        grid.push(column);
        x += 1;
    }
    grid
}

/// What the cell in `row` of a column shows when the column's head stands
/// at `head`: at and above the head, the glyph whose index is the distance
/// to the head reduced to the column's depth; below the head, nothing.
pub open spec fn shown_glyph(row: int, head: int, depth: int) -> Option<int> {
    if row - head <= 0 {
        Some((row - head) % depth)
    } else {
        None
    }
}

/// The remainder of a negated number: nothing where the number is a
/// multiple of the divisor, else what the number's remainder lacks to the
/// divisor.
pub proof fn lemma_mod_of_negated(a: int, d: int)
    requires
        a >= 0,
        d > 0,
    ensures
        (-a) % d == if a % d == 0 {
            0
        } else {
            d - a % d
        },
{
    let q = a / d;
    let r = a % d;
    vstd::arithmetic::div_mod::lemma_fundamental_div_mod(a, d);
    if r == 0 {
        assert(-a == (-q) * d + 0) by (nonlinear_arith)
            requires
                a == d * q + r,
                r == 0,
        ;
        vstd::arithmetic::div_mod::lemma_fundamental_div_mod_converse(-a, d, -q, 0);
    } else {
        assert(-a == (-q - 1) * d + (d - r)) by (nonlinear_arith)
            requires
                a == d * q + r,
        ;
        vstd::arithmetic::div_mod::lemma_fundamental_div_mod_converse(-a, d, -q - 1, d - r);
    }
}

/// Index of the glyph that the cell in `row` shows, or `None` for a blank
/// cell. The column is not empty, and the distance from head to row is
/// within the range of `i32`.
pub fn glyph_index(row: u16, head: i32, depth: usize) -> (index: Option<usize>)
    requires
        0 < depth <= i32::MAX,
        row - head <= i32::MAX,
    ensures
        match index {
            Some(i) => shown_glyph(row as int, head as int, depth as int) == Some(i as int) && i
                < depth,
            None => shown_glyph(row as int, head as int, depth as int) is None,
        },
{
    let distance: i64 = row as i64 - head as i64;
    if distance <= 0 {
        let d: i64 = depth as i64;
        let ahead: i64 = -distance;
        let r: i64 = ahead % d;
        let i: i64 = if r == 0 {
            0
        } else {
            d - r
        };
        proof {
            lemma_mod_of_negated(ahead as int, d as int);
        }
        Some(i as usize)
    } else {
        None
    }
}

/// The text in the middle of the indicator: the notice, or as many blanks
/// while it blinks off.
pub fn loading_text(blink_on: bool) -> (text: &'static str)
    ensures
        text@ == if blink_on {
            "Loading..."@
        } else {
            "         "@
        },
{
    if blink_on {
        "Loading..."
    } else {
        "         "
    }
}

/// Whether the notice changes between shown and blank: more than half a
/// second has passed since it last did.
pub fn blink_due(since_toggle_ms: u128) -> (due: bool)
    ensures
        due == (since_toggle_ms > 500),
{
    since_toggle_ms > 500
}

} // verus!
