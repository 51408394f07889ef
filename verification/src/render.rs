//! Rendering a pixel grid as ASCII art: one text line per pixel row,
//! each pixel's ramp character emitted twice.

use vstd::prelude::*;
use crate::grid::PixelGrid;
use crate::ramp::{ramp_char, ramp_index, rendered_char, ramp_char_spec};

verus! {

/// One rendered pixel row: the ramp character of each luminance value
/// in row `r`, each emitted twice, left to right.
pub open spec fn line_of(g: PixelGrid, r: int) -> Seq<char> {
    Seq::new((2 * g.width as int) as nat, |j: int| rendered_char(g.pixel(r, j / 2)))
}

/// The full rendering of a grid: one line per pixel row.
pub open spec fn art_of(g: PixelGrid) -> Seq<Seq<char>> {
    Seq::new(g.height as nat, |r: int| line_of(g, r))
}

/// Whether `lines` is exactly the rendering of grid `g`: one line per
/// pixel row, each line twice as long as the grid is wide, and the
/// character at column `j` the ramp character of the pixel at column
/// `j / 2`.
pub open spec fn renders_to(g: PixelGrid, lines: Seq<Seq<char>>) -> bool {
    &&& lines.len() == g.height
    &&& forall|r: int| 0 <= r < g.height ==> (#[trigger] lines[r]).len() == 2 * g.width as int
    &&& forall|r: int, j: int|
        0 <= r < g.height && 0 <= j < 2 * g.width as int ==> #[trigger] lines[r][j]
            == rendered_char(g.pixel(r, j / 2))
}

/// The lines of a text, separated by single newlines.
pub open spec fn joined(lines: Seq<Seq<char>>) -> Seq<char>
    decreases lines.len(),
{
    if lines.len() == 0 {
        Seq::empty()
    } else if lines.len() == 1 {
        lines[0]
    } else {
        joined(lines.drop_last()) + seq!['\n'] + lines.last()
    }
}

/// Relies on `String::push`: appends the given character to the end of
/// the string.
#[verifier::external_body]
fn push_char(s: &mut String, c: char)
    ensures
        final(s)@ == old(s)@.push(c),
{
    s.push(c);
}

/// Renders a grid as ASCII art: exactly one line per pixel row, each of
/// length twice the grid's width, each pixel's ramp character doubled.
pub fn render(grid: &PixelGrid) -> (lines: Vec<String>)
    requires
        grid.wf(),
    ensures
        renders_to(*grid, lines.deep_view()),
{
    let n: usize = grid.pixels.len();
    let mut lines: Vec<String> = Vec::new();
    let mut r: u32 = 0;
    while r < grid.height
        invariant
            grid.wf(),
            n == grid.pixels@.len(),
            r <= grid.height,
            lines@.len() == r as int,
            forall|rr: int| 0 <= rr < r as int ==> (#[trigger] lines@[rr])@.len() == 2
                * grid.width as int,
            forall|rr: int, j: int|
                #![trigger lines@[rr]@[j]]
                0 <= rr < r as int && 0 <= j < 2 * grid.width as int ==> lines@[rr]@[j]
                    == rendered_char(grid.pixel(rr, j / 2)),
        decreases grid.height - r,
    {
        let mut line = String::new();
        let mut c: u32 = 0;
        while c < grid.width
            invariant
                grid.wf(),
                n == grid.pixels@.len(),
                r < grid.height,
                c <= grid.width,
                line@.len() == 2 * c as int,
                forall|j: int|
                    0 <= j < 2 * c as int ==> #[trigger] line@[j] == rendered_char(
                        grid.pixel(r as int, j / 2),
                    ),
            decreases grid.width - c,
        {
            proof {
                let ri = r as int;
                let ci = c as int;
                let w = grid.width as int;
                let h = grid.height as int;
                assert(ri * w + ci < w * h) by (nonlinear_arith)
                    requires
                        0 <= ri < h,
                        0 <= ci < w,
                ;
            }
            let idx: usize = (r as usize) * (grid.width as usize) + (c as usize);
            let ch = ramp_char(ramp_index(grid.pixels[idx]));
            push_char(&mut line, ch);
            push_char(&mut line, ch);
            proof {
                assert(line@[2 * c as int] == ch);
                assert(line@[2 * c as int + 1] == ch);
                assert((2 * c as int) / 2 == c as int);
                assert((2 * c as int + 1) / 2 == c as int);
            }
            c = c + 1;
        }
        lines.push(line);
        r = r + 1;
    }
    proof {
        let dv = lines.deep_view();
        assert(dv.len() == lines@.len());
        assert forall|rr: int| 0 <= rr < grid.height as int implies dv[rr] == (lines@[rr])@ by {}
        assert(renders_to(*grid, dv));
    }
    lines
}

/// Joins rendered lines with a single newline between them, with no
/// trailing newline.
pub fn join_lines(lines: &Vec<String>) -> (s: String)
    ensures
        s@ == joined(lines.deep_view()),
{
    let mut s = String::new();
    let mut i: usize = 0;
    proof {
        assert(lines.deep_view().take(0) =~= Seq::<Seq<char>>::empty());
    }
    while i < lines.len()
        invariant
            i <= lines@.len(),
            lines.deep_view().len() == lines@.len(),
            s@ == joined(lines.deep_view().take(i as int)),
        decreases lines@.len() - i,
    {
        if i > 0 {
            push_char(&mut s, '\n');
        }
        s.append(lines[i].as_str());
        proof {
            let dv = lines.deep_view();
            let pre = dv.take(i as int);
            let cur = dv.take(i as int + 1);
            assert(dv[i as int] == lines@[i as int]@);
            assert(cur.drop_last() =~= pre);
            assert(cur.last() == dv[i as int]);
            if i == 0 {
                assert(s@ =~= joined(cur));
            } else {
                assert(joined(cur) == joined(pre) + seq!['\n'] + dv[i as int]);
                assert(s@ =~= joined(cur));
            }
        }
        i = i + 1;
    }
    proof {
        assert(lines.deep_view().take(lines@.len() as int) =~= lines.deep_view());
    }
    s
}

/// Renders a grid as a single text: the rendered lines, separated by
/// single newlines.
pub fn render_text(grid: &PixelGrid) -> (s: String)
    requires
        grid.wf(),
    ensures
        s@ == joined(art_of(*grid)),
{
    let lines = render(grid);
    proof {
        let dv = lines.deep_view();
        assert forall|r: int| 0 <= r < grid.height as int implies dv[r] =~= line_of(*grid, r) by {
            assert forall|j: int| 0 <= j < 2 * grid.width as int implies dv[r][j] == line_of(
                *grid,
                r,
            )[j] by {}
        }
        assert(dv =~= art_of(*grid));
    }
    join_lines(&lines)
}

/// Every line of the rendering of a grid whose pixels are all of
/// luminance 0 consists solely of the densest ramp character, doubled.
pub proof fn lemma_render_all_dark(g: PixelGrid, lines: Seq<Seq<char>>)
    requires
        g.wf(),
        renders_to(g, lines),
        forall|r: int, c: int|
            0 <= r < g.height && 0 <= c < g.width ==> #[trigger] g.pixel(r, c) == 0u8,
    ensures
        forall|r: int, j: int|
            0 <= r < g.height && 0 <= j < 2 * g.width as int ==> #[trigger] lines[r][j]
                == ramp_char_spec(0),
{
    assert forall|r: int, j: int|
        0 <= r < g.height && 0 <= j < 2 * g.width as int implies #[trigger] lines[r][j]
        == ramp_char_spec(0) by {
        assert(0 <= j / 2 < g.width as int);
        assert(g.pixel(r, j / 2) == 0u8);
    }
}

/// Every line of the rendering of a grid whose pixels are all of
/// luminance 255 consists solely of the sparsest ramp character,
/// doubled.
pub proof fn lemma_render_all_bright(g: PixelGrid, lines: Seq<Seq<char>>)
    requires
        g.wf(),
        renders_to(g, lines),
        forall|r: int, c: int|
            0 <= r < g.height && 0 <= c < g.width ==> #[trigger] g.pixel(r, c) == 255u8,
    ensures
        forall|r: int, j: int|
            0 <= r < g.height && 0 <= j < 2 * g.width as int ==> #[trigger] lines[r][j]
                == ramp_char_spec(69),
{
    assert forall|r: int, j: int|
        0 <= r < g.height && 0 <= j < 2 * g.width as int implies #[trigger] lines[r][j]
        == ramp_char_spec(69) by {
        assert(0 <= j / 2 < g.width as int);
        assert(g.pixel(r, j / 2) == 255u8);
    }
}

} // verus!
