//! The overlay widget: a bordered, titled popup box painted over a
//! buffer of cells.
//!
//! The rendering surface is modelled as a [`Buffer`] of glyph/style
//! cells.  [`Popup::render`] paints a single-line border around the
//! given area, embeds the title in the top border, and word-wraps the
//! body text into the interior; text too long for the interior is
//! clipped, and cells the border and text do not cover keep their prior
//! contents.  The contract gives the painted buffer cell by cell:
//! [`spec_popup_cell`] says what every cell holds afterwards, so a
//! degenerate area provably writes nothing and the text provably never
//! escapes the interior.

use vstd::prelude::*;

use crate::wrap::views;
use crate::wrap::wrap;
use crate::wrap::wrap_spec;

verus! {

/// A visual style: a foreground and a background colour code.  The code
/// 0 is the terminal's default.
#[derive(Clone, Copy, PartialEq, Eq, Structural, Debug)]
pub struct Style {
    /// Foreground colour code.
    pub fg: u64,
    /// Background colour code.
    pub bg: u64,
}

impl Default for Style {
    /// The terminal's default colours.
    fn default() -> (s: Style)
        ensures
            s == (Style { fg: 0, bg: 0 }),
    {
        Style { fg: 0, bg: 0 }
    }
}

/// One cell of the rendering surface: a glyph and its style.
#[derive(Clone, Copy, PartialEq, Eq, Structural, Debug)]
pub struct Cell {
    /// The character shown in the cell.
    pub glyph: char,
    /// The cell's style.
    pub style: Style,
}

impl Default for Cell {
    /// A blank cell in the default style.
    fn default() -> (c: Cell)
        ensures
            c == (Cell { glyph: ' ', style: Style { fg: 0, bg: 0 } }),
    {
        Cell { glyph: ' ', style: Style { fg: 0, bg: 0 } }
    }
}

/// A rectangular region of the surface.
#[derive(Clone, Copy, PartialEq, Eq, Structural, Debug)]
pub struct Rect {
    /// Leftmost column.
    pub x: u16,
    /// Topmost row.
    pub y: u16,
    /// Width in columns; may be zero.
    pub width: u16,
    /// Height in rows; may be zero.
    pub height: u16,
}

/// The index of the cell at `(x, y)` within a row-major cell vector of
/// row width `w`.
pub proof fn lemma_cell_index_in_range(x: int, y: int, w: int, h: int)
    requires
        0 <= x < w,
        0 <= y < h,
    ensures
        0 <= y * w + x < w * h,
{
    assert(y * w + x < w * h) by (nonlinear_arith)
        requires
            0 <= x < w,
            0 <= y < h,
    ;
    assert(0 <= y * w + x) by (nonlinear_arith)
        requires
            0 <= x,
            0 <= y,
            0 < w,
    ;
}

/// Distinct coordinates give distinct row-major indices.
pub proof fn lemma_cell_index_injective(x1: int, y1: int, x2: int, y2: int, w: int)
    requires
        0 <= x1 < w,
        0 <= x2 < w,
        0 <= y1,
        0 <= y2,
        y1 * w + x1 == y2 * w + x2,
    ensures
        x1 == x2 && y1 == y2,
{
    assert(x1 == x2 && y1 == y2) by (nonlinear_arith)
        requires
            0 <= x1 < w,
            0 <= x2 < w,
            0 <= y1,
            0 <= y2,
            y1 * w + x1 == y2 * w + x2,
    ;
}

/// An in-memory rendering surface: a grid of cells, stored row-major.
#[derive(PartialEq, Eq, Debug)]
pub struct Buffer {
    /// Columns.
    pub width: u16,
    /// Rows.
    pub height: u16,
    /// The cells, row by row; holds exactly `width * height` cells.
    pub cells: Vec<Cell>,
}

impl Buffer {
    /// The cell vector holds exactly one cell per coordinate.
    pub open spec fn well_formed(self) -> bool {
        self.cells@.len() == self.width as int * self.height as int
    }

    /// The cell at `(x, y)`.
    pub open spec fn spec_cell(self, x: int, y: int) -> Cell {
        self.cells@[y * self.width as int + x]
    }

    /// A fresh surface with every cell equal to `fill`.
    pub fn new(width: u16, height: u16, fill: Cell) -> (b: Buffer)
        ensures
            b.well_formed(),
            b.width == width,
            b.height == height,
            forall|x: int, y: int|
                0 <= x < width && 0 <= y < height ==> b.spec_cell(x, y) == fill,
    {
        proof {
            assert(width as int * height as int <= 0xffff * 0xffff) by (nonlinear_arith)
                requires
                    width as int <= 0xffff,
                    height as int <= 0xffff,
            ;
            assert(0 <= width as int * height as int) by (nonlinear_arith)
                requires
                    0 <= width as int,
                    0 <= height as int,
            ;
        }
        let n: usize = (width as usize) * (height as usize);
        let mut cells: Vec<Cell> = Vec::new();
        let mut k: usize = 0;
        while k < n
            invariant
                k <= n,
                cells@.len() == k as int,
                forall|j: int| 0 <= j < k ==> cells@[j] == fill,
            decreases n - k,
        {
            cells.push(fill);
            k = k + 1;
        }
        let b = Buffer { width, height, cells };
        proof {
            assert forall|x: int, y: int|
                0 <= x < width && 0 <= y < height implies b.spec_cell(x, y) == fill by {
                lemma_cell_index_in_range(x, y, width as int, height as int);
            }
        }
        b
    }

    /// Read the cell at `(x, y)`.
    pub fn get(&self, x: u16, y: u16) -> (c: Cell)
        requires
            self.well_formed(),
            x < self.width,
            y < self.height,
        ensures
            c == self.spec_cell(x as int, y as int),
    {
        proof {
            lemma_cell_index_in_range(x as int, y as int, self.width as int, self.height as int);
            vstd::std_specs::vec::axiom_spec_len(&self.cells);
        }
        let idx: usize = (y as usize) * (self.width as usize) + (x as usize);
        self.cells[idx]
    }

    /// Write the cell at `(x, y)`; every other cell keeps its contents.
    pub fn set(&mut self, x: u16, y: u16, c: Cell)
        requires
            old(self).well_formed(),
            x < old(self).width,
            y < old(self).height,
        ensures
            final(self).well_formed(),
            final(self).width == old(self).width,
            final(self).height == old(self).height,
            final(self).spec_cell(x as int, y as int) == c,
            forall|i: int, j: int|
                0 <= i < old(self).width && 0 <= j < old(self).height && !(i == x as int && j
                    == y as int) ==> final(self).spec_cell(i, j) == old(self).spec_cell(i, j),
    {
        let ghost s0 = *self;
        proof {
            lemma_cell_index_in_range(x as int, y as int, self.width as int, self.height as int);
            vstd::std_specs::vec::axiom_spec_len(&self.cells);
        }
        let idx: usize = (y as usize) * (self.width as usize) + (x as usize);
        self.cells.set(idx, c);
        proof {
            assert forall|i: int, j: int|
                0 <= i < s0.width && 0 <= j < s0.height && !(i == x as int && j
                    == y as int) implies self.spec_cell(i, j) == s0.spec_cell(i, j) by {
                lemma_cell_index_in_range(i, j, s0.width as int, s0.height as int);
                if j * s0.width as int + i == y as int * s0.width as int + x as int {
                    lemma_cell_index_injective(i, j, x as int, y as int, s0.width as int);
                }
            }
        }
    }
}

/// The overlay widget: title, body text, and three independent styles.
///
/// An ephemeral value object: configured by the builder-style setters,
/// consumed by one [`Popup::render`] call.
#[derive(Debug)]
pub struct Popup {
    /// The title, embedded in the top border.
    pub title: Vec<char>,
    /// The body text, word-wrapped into the interior.
    pub content: Vec<char>,
    /// The style of the border glyphs.
    pub border_style: Style,
    /// The style of the title.
    pub title_style: Style,
    /// The style of the body text.
    pub style: Style,
}

impl Default for Popup {
    /// An empty popup: no title, no body, default styles.
    fn default() -> (p: Popup)
        ensures
            p.title@.len() == 0,
            p.content@.len() == 0,
            p.border_style == (Style { fg: 0, bg: 0 }),
            p.title_style == (Style { fg: 0, bg: 0 }),
            p.style == (Style { fg: 0, bg: 0 }),
    {
        Popup {
            title: Vec::new(),
            content: Vec::new(),
            border_style: Style { fg: 0, bg: 0 },
            title_style: Style { fg: 0, bg: 0 },
            style: Style { fg: 0, bg: 0 },
        }
    }
}

impl Popup {
    /// Set the title.
    pub fn title(self, title: Vec<char>) -> (p: Popup)
        ensures
            p.title == title,
            p.content == self.content,
            p.border_style == self.border_style,
            p.title_style == self.title_style,
            p.style == self.style,
    {
        Popup {
            title,
            content: self.content,
            border_style: self.border_style,
            title_style: self.title_style,
            style: self.style,
        }
    }

    /// Set the body text.
    pub fn content(self, content: Vec<char>) -> (p: Popup)
        ensures
            p.title == self.title,
            p.content == content,
            p.border_style == self.border_style,
            p.title_style == self.title_style,
            p.style == self.style,
    {
        Popup {
            title: self.title,
            content,
            border_style: self.border_style,
            title_style: self.title_style,
            style: self.style,
        }
    }

    /// Set the border style.
    pub fn border_style(self, border_style: Style) -> (p: Popup)
        ensures
            p.title == self.title,
            p.content == self.content,
            p.border_style == border_style,
            p.title_style == self.title_style,
            p.style == self.style,
    {
        Popup {
            title: self.title,
            content: self.content,
            border_style,
            title_style: self.title_style,
            style: self.style,
        }
    }

    /// Set the title style.
    pub fn title_style(self, title_style: Style) -> (p: Popup)
        ensures
            p.title == self.title,
            p.content == self.content,
            p.border_style == self.border_style,
            p.title_style == title_style,
            p.style == self.style,
    {
        Popup {
            title: self.title,
            content: self.content,
            border_style: self.border_style,
            title_style,
            style: self.style,
        }
    }

    /// Set the body style.
    pub fn style(self, style: Style) -> (p: Popup)
        ensures
            p.title == self.title,
            p.content == self.content,
            p.border_style == self.border_style,
            p.title_style == self.title_style,
            p.style == style,
    {
        Popup {
            title: self.title,
            content: self.content,
            border_style: self.border_style,
            title_style: self.title_style,
            style,
        }
    }
}

/// `(x, y)` lies within `area`.
pub open spec fn in_area(area: Rect, x: int, y: int) -> bool {
    area.x <= x < area.x + area.width && area.y <= y < area.y + area.height
}

/// `(x, y)` lies on the single-line border of `area`.
pub open spec fn on_border(area: Rect, x: int, y: int) -> bool {
    in_area(area, x, y) && (x == area.x || x == area.x + area.width - 1 || y == area.y || y
        == area.y + area.height - 1)
}

/// The box-drawing glyph of the border at `(x, y)`.
pub open spec fn border_glyph(area: Rect, x: int, y: int) -> char {
    let right = area.x + area.width - 1;
    let bottom = area.y + area.height - 1;
    if x == area.x && y == area.y {
        '┌'
    } else if x == right && y == area.y {
        '┐'
    } else if x == area.x && y == bottom {
        '└'
    } else if x == right && y == bottom {
        '┘'
    } else if y == area.y || y == bottom {
        '─'
    } else {
        '│'
    }
}

/// The cell painted on the border at `(x, y)`: a title character where
/// the title overlays the top border — it starts one cell in and is
/// clipped to the space between the corners — else the border glyph.
pub open spec fn spec_frame_cell(p: Popup, area: Rect, x: int, y: int) -> Cell {
    let t = x - (area.x + 1);
    if y == area.y && 0 <= t && t < p.title@.len() && t < area.width - 2 {
        Cell { glyph: p.title@[t], style: p.title_style }
    } else {
        Cell { glyph: border_glyph(area, x, y), style: p.border_style }
    }
}

/// The body text wrapped for the interior of `area`.
pub open spec fn interior_lines(p: Popup, area: Rect) -> Seq<Seq<char>> {
    wrap_spec(p.content@, area.width - 2)
}

/// The cell at `(x, y)` of the interior: a character of the wrapped
/// body text where one falls, else the prior contents of `b` — the
/// region is not cleared first, and text beyond the interior is
/// clipped, not scrolled.
pub open spec fn spec_interior_cell(p: Popup, area: Rect, b: Buffer, x: int, y: int) -> Cell {
    let c = x - (area.x + 1);
    let r = y - (area.y + 1);
    let lines = interior_lines(p, area);
    if r < lines.len() && c < lines[r].len() {
        Cell { glyph: lines[r][c], style: p.style }
    } else {
        b.spec_cell(x, y)
    }
}

/// What the cell at `(x, y)` holds after `p` is painted over `area` of
/// the buffer `b`: unchanged outside the area, the frame on the border,
/// the wrapped text or the prior contents inside.
pub open spec fn spec_popup_cell(p: Popup, area: Rect, b: Buffer, x: int, y: int) -> Cell {
    if !in_area(area, x, y) {
        b.spec_cell(x, y)
    } else if on_border(area, x, y) {
        spec_frame_cell(p, area, x, y)
    } else {
        spec_interior_cell(p, area, b, x, y)
    }
}

/// Law: a degenerate area — zero width or zero height — paints nothing:
/// every cell keeps its prior contents.
pub proof fn lemma_degenerate_area_paints_nothing(p: Popup, area: Rect, b: Buffer, x: int, y: int)
    requires
        area.width == 0 || area.height == 0,
    ensures
        spec_popup_cell(p, area, b, x, y) == b.spec_cell(x, y),
{
}

/// Law: the body text never escapes the interior.  However long the
/// content, a cell outside the area keeps its prior contents, and a
/// cell on the border shows the frame; two popups that differ only in
/// their content paint such cells alike.
pub proof fn lemma_text_confined_to_interior(
    p: Popup,
    q: Popup,
    area: Rect,
    b: Buffer,
    x: int,
    y: int,
)
    requires
        q.title@ == p.title@,
        q.border_style == p.border_style,
        q.title_style == p.title_style,
        q.style == p.style,
        !in_area(area, x, y) || on_border(area, x, y),
    ensures
        spec_popup_cell(p, area, b, x, y) == spec_popup_cell(q, area, b, x, y),
        !in_area(area, x, y) ==> spec_popup_cell(p, area, b, x, y) == b.spec_cell(x, y),
        on_border(area, x, y) ==> spec_popup_cell(p, area, b, x, y) == spec_frame_cell(
            p,
            area,
            x,
            y,
        ),
{
}

impl Popup {
    /// Paint the popup over `area` of `buf`.
    ///
    /// Always succeeds, whatever the area: the painted region is the
    /// intersection of `area` with the buffer, and every cell of the
    /// buffer afterwards is exactly [`spec_popup_cell`] of its
    /// coordinates.
    #[verifier::rlimit(50)]
    pub fn render(self, area: Rect, buf: &mut Buffer)
        requires
            old(buf).well_formed(),
        ensures
            final(buf).well_formed(),
            final(buf).width == old(buf).width,
            final(buf).height == old(buf).height,
            forall|x: int, y: int|
                0 <= x < old(buf).width && 0 <= y < old(buf).height ==> final(buf).spec_cell(x, y)
                    == spec_popup_cell(self, area, *old(buf), x, y),
    {
        let ghost buf0 = *buf;
        let iw: u16 = if area.width >= 2 {
            area.width - 2
        } else {
            0
        };
        let lines = wrap(&self.content, iw);
        proof {
            if area.width < 2 {
                assert(wrap_spec(self.content@, iw as int) =~~= wrap_spec(
                    self.content@,
                    area.width - 2,
                ));
            }
            assert(views(lines@) == interior_lines(self, area));
        }
        let bw: usize = buf.width as usize;
        let bh: usize = buf.height as usize;
        let ax: usize = area.x as usize;
        let ay: usize = area.y as usize;
        let aw: usize = area.width as usize;
        let ah: usize = area.height as usize;
        if aw == 0 || ah == 0 {
            return ;
        }
        let xe: usize = ax + aw;
        let ye: usize = ay + ah;
        let x1: usize = if xe < bw {
            xe
        } else {
            bw
        };
        let y1: usize = if ye < bh {
            ye
        } else {
            bh
        };
        let rgt: usize = ax + aw - 1;
        let bot: usize = ay + ah - 1;
        let mut y: usize = ay;
        while y < y1
            invariant
                buf.well_formed(),
                buf.width == buf0.width,
                buf.height == buf0.height,
                buf0.well_formed(),
                ay <= y,
                y as int <= y1 as int || y as int == ay as int,
                bw as int == buf0.width as int,
                bh as int == buf0.height as int,
                ax as int == area.x as int,
                ay as int == area.y as int,
                aw as int == area.width as int,
                ah as int == area.height as int,
                aw > 0,
                ah > 0,
                xe as int == ax as int + aw as int,
                ye as int == ay as int + ah as int,
                x1 as int == (if xe < bw {
                    xe as int
                } else {
                    bw as int
                }),
                y1 as int == (if ye < bh {
                    ye as int
                } else {
                    bh as int
                }),
                rgt as int == ax as int + aw as int - 1,
                bot as int == ay as int + ah as int - 1,
                views(lines@) == interior_lines(self, area),
                forall|i: int, j: int|
                    0 <= i < bw as int && 0 <= j < bh as int ==> #[trigger] buf.spec_cell(i, j)
                        == (if j < y as int {
                        spec_popup_cell(self, area, buf0, i, j)
                    } else {
                        buf0.spec_cell(i, j)
                    }),
            decreases y1 - y,
        {
            let mut x: usize = ax;
            while x < x1
                invariant
                    buf.well_formed(),
                    buf.width == buf0.width,
                    buf.height == buf0.height,
                    buf0.well_formed(),
                    ax <= x,
                    x as int <= x1 as int || x as int == ax as int,
                    ay <= y < y1,
                    bw as int == buf0.width as int,
                    bh as int == buf0.height as int,
                    ax as int == area.x as int,
                    ay as int == area.y as int,
                    aw as int == area.width as int,
                    ah as int == area.height as int,
                    aw > 0,
                    ah > 0,
                    xe as int == ax as int + aw as int,
                    ye as int == ay as int + ah as int,
                    x1 as int == (if xe < bw {
                        xe as int
                    } else {
                        bw as int
                    }),
                    y1 as int == (if ye < bh {
                        ye as int
                    } else {
                        bh as int
                    }),
                    rgt as int == ax as int + aw as int - 1,
                    bot as int == ay as int + ah as int - 1,
                    views(lines@) == interior_lines(self, area),
                    forall|i: int, j: int|
                        0 <= i < bw as int && 0 <= j < bh as int ==> #[trigger] buf.spec_cell(i, j)
                            == (if j < y as int || (j == y as int && i < x as int && ax as int
                            <= i) {
                            spec_popup_cell(self, area, buf0, i, j)
                        } else {
                            buf0.spec_cell(i, j)
                        }),
                decreases x1 - x,
            {
                let xi: u16 = x as u16;
                let yi: u16 = y as u16;
                if x == ax || x == rgt || y == ay || y == bot {
                    let is_title: bool = y == ay && aw >= 2 && x > ax && x - ax - 1
                        < self.title.len() && x - ax - 1 < aw - 2;
                    if is_title {
                        let t: usize = x - ax - 1;
                        let cell = Cell { glyph: self.title[t], style: self.title_style };
                        proof {
                            assert(spec_popup_cell(self, area, buf0, x as int, y as int) == cell);
                        }
                        buf.set(xi, yi, cell);
                    } else {
                        let g: char = if x == ax && y == ay {
                            '┌'
                        } else if x == rgt && y == ay {
                            '┐'
                        } else if x == ax && y == bot {
                            '└'
                        } else if x == rgt && y == bot {
                            '┘'
                        } else if y == ay || y == bot {
                            '─'
                        } else {
                            '│'
                        };
                        let cell = Cell { glyph: g, style: self.border_style };
                        proof {
                            assert(spec_popup_cell(self, area, buf0, x as int, y as int) == cell);
                        }
                        buf.set(xi, yi, cell);
                    }
                } else {
                    let r: usize = y - ay - 1;
                    let c: usize = x - ax - 1;
                    if r < lines.len() {
                        let line = &lines[r];
                        proof {
                            assert(views(lines@)[r as int] == lines@[r as int]@);
                        }
                        if c < line.len() {
                            let cell = Cell { glyph: line[c], style: self.style };
                            proof {
                                assert(spec_popup_cell(self, area, buf0, x as int, y as int)
                                    == cell);
                            }
                            buf.set(xi, yi, cell);
                        } else {
                            proof {
                                assert(spec_popup_cell(self, area, buf0, x as int, y as int)
                                    == buf0.spec_cell(x as int, y as int));
                            }
                        }
                    } else {
                        proof {
                            assert(spec_popup_cell(self, area, buf0, x as int, y as int)
                                == buf0.spec_cell(x as int, y as int));
                        }
                    }
                }
                x = x + 1;
            }
            proof {
                assert forall|i: int, j: int|
                    0 <= i < bw as int && 0 <= j < bh as int implies #[trigger] buf.spec_cell(i, j)
                    == (if j < y as int + 1 {
                    spec_popup_cell(self, area, buf0, i, j)
                } else {
                    buf0.spec_cell(i, j)
                }) by {
                    if j == y as int && (i < ax as int || i >= x1 as int) {
                        assert(!in_area(area, i, j) || i >= bw as int);
                        assert(buf.spec_cell(i, j) == buf0.spec_cell(i, j));
                    }
                }
            }
            y = y + 1;
        }
        proof {
            assert forall|i: int, j: int|
                0 <= i < buf0.width && 0 <= j < buf0.height implies buf.spec_cell(i, j)
                == spec_popup_cell(self, area, buf0, i, j) by {
                if j >= y as int {
                    assert(!in_area(area, i, j));
                }
            }
        }
    }
}

} // verus!
