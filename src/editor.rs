use vstd::prelude::*;

use crate::history::{after_clear, after_draw, after_redo, after_undo};
use crate::pixel::Pixel;
use crate::position::{snap, Position};

verus! {

/// The canvas size, the cell size and the active color.
#[derive(Debug)]
pub struct EditorSettings {
    pub canvas_height: u32,
    pub canvas_width: u32,
    pub pixel_color: String,
    pub pixel_height: u32,
    pub pixel_width: u32,
}

impl EditorSettings {
    /// An 800 by 640 canvas of 32 by 32 cells, painting in black.
    pub open spec fn is_default(&self) -> bool {
        &&& self.canvas_height == 640
        &&& self.canvas_width == 800
        &&& self.pixel_color@ == "#000000"@
        &&& self.pixel_height == 32
        &&& self.pixel_width == 32
    }
}

impl Default for EditorSettings {
    fn default() -> (r: Self)
        ensures
            r.is_default(),
    {
        proof {
            reveal_strlit("#000000");
        }
        EditorSettings {
            canvas_height: 640,
            canvas_width: 800,
            pixel_color: "#000000".to_owned(),
            pixel_height: 32,
            pixel_width: 32,
        }
    }
}

/// The history without the entries painted at `pos`, the others in order.
pub open spec fn without_position(pixels: Seq<Pixel>, pos: Position) -> Seq<Pixel> {
    pixels.filter(|p: Pixel| p.position != pos)
}

/// A filled rectangle: a cell's top-left corner, its size and its color.
#[derive(Clone, Debug, PartialEq)]
pub struct Fill {
    pub x: i64,
    pub y: i64,
    pub width: u32,
    pub height: u32,
    pub color: String,
}

/// A straight line segment of the grid.
#[derive(Clone, Copy, Debug, PartialEq, Eq, Structural)]
pub struct Line {
    pub from_x: u32,
    pub from_y: u32,
    pub to_x: u32,
    pub to_y: u32,
}

/// The vertical line at `x`, from the top to the bottom of a canvas of height `height`.
pub open spec fn vertical(x: int, height: u32) -> Line {
    Line { from_x: x as u32, from_y: 0, to_x: x as u32, to_y: height }
}

/// The horizontal line at `y`, across a canvas of width `width`.
pub open spec fn horizontal(y: int, width: u32) -> Line {
    Line { from_x: 0, from_y: y as u32, to_x: width, to_y: y as u32 }
}

/// The grid of a `width` by `height` canvas with `cw` by `ch` cells: a
/// vertical line at each multiple of `cw` up to the width, left to right, then
/// a horizontal line at each multiple of `ch` up to the height, top to bottom.
pub open spec fn grid_lines(width: u32, height: u32, cw: u32, ch: u32) -> Seq<Line>
    recommends
        cw > 0,
        ch > 0,
{
    Seq::new((width / cw + 1) as nat, |i: int| vertical(i * cw, height))
        + Seq::new((height / ch + 1) as nat, |j: int| horizontal(j * ch, width))
}

/// What the user did: picked a color, pressed a button, or pressed, moved or
/// right-clicked the pointer over the canvas.
#[derive(Debug)]
pub enum EditorMessage {
    ChangeColor(String),
    Clear,
    Context,
    Draw,
    Move { client_x: i32, client_y: i32, left: i32, top: i32 },
    Redo,
    Undo,
}

/// How much of the canvas has to be painted again after a message.
#[derive(Clone, Copy, Debug, PartialEq, Eq, Structural)]
pub enum Redraw {
    /// Nothing visible changed on the canvas.
    Nothing,
    /// Only the grid: the canvas is blank.
    Grid,
    /// The grid and then every cell of the history, in order.
    All,
}

/// Why an undo or a redo did nothing.
#[derive(Clone, Copy, Debug, PartialEq, Eq, Structural)]
pub enum EditorError {
    NoPixelsToUndo,
    NoPixelsToRedo,
}

/// The editor's state: the paint history, the undone entries, the cell under
/// the pointer and the settings.
#[derive(Debug)]
pub struct Editor {
    pub pixels: Vec<Pixel>,
    pub redo: Vec<Pixel>,
    pub position: Position,
    pub settings: EditorSettings,
}

impl Editor {
    /// Cells have a positive width and height.
    pub open spec fn wf(&self) -> bool {
        self.settings.pixel_width > 0 && self.settings.pixel_height > 0
    }

    /// The history and the redo list as a pair of sequences.
    pub open spec fn lists(&self) -> (Seq<Pixel>, Seq<Pixel>) {
        (self.pixels@, self.redo@)
    }

    /// A fresh editor: nothing drawn, nothing to redo, the pointer at the
    /// origin, default settings.
    pub fn create() -> (r: Editor)
        ensures
            r.wf(),
            r.pixels@.len() == 0,
            r.redo@.len() == 0,
            r.position == (Position { x: 0, y: 0 }),
            r.settings.is_default(),
    {
        Editor {
            pixels: Vec::new(),
            redo: Vec::new(),
            position: Position::default(),
            settings: EditorSettings::default(),
        }
    }

    /// Makes `color` the color of the cells drawn from now on.
    pub fn change_pixel_color(&mut self, color: String)
        ensures
            final(self).settings.pixel_color == color,
            final(self).settings.canvas_height == old(self).settings.canvas_height,
            final(self).settings.canvas_width == old(self).settings.canvas_width,
            final(self).settings.pixel_height == old(self).settings.pixel_height,
            final(self).settings.pixel_width == old(self).settings.pixel_width,
            final(self).lists() == old(self).lists(),
            final(self).position == old(self).position,
    {
        self.settings.pixel_color = color;
    }

    /// Empties the history; the redo list is kept.
    pub fn clear(&mut self)
        ensures
            final(self).lists() == after_clear(old(self).pixels@, old(self).redo@),
            final(self).position == old(self).position,
            final(self).settings == old(self).settings,
    {
        self.pixels = Vec::new();
        assert(self.lists() =~~= after_clear(old(self).pixels@, old(self).redo@));
    }

    /// Appends the cell under the pointer, in the active color, to the history.
    /// A new stroke starts a new branch of history: the redo list is emptied.
    pub fn draw_pixel(&mut self)
        ensures
            final(self).lists() == after_draw(
                old(self).pixels@,
                old(self).redo@,
                Pixel { color: old(self).settings.pixel_color, position: old(self).position },
            ),
            final(self).position == old(self).position,
            final(self).settings == old(self).settings,
    {
        let p = Pixel { color: self.settings.pixel_color.clone(), position: self.position };
        self.pixels.push(p);
        self.redo = Vec::new();
        assert(self.lists() =~~= after_draw(
            old(self).pixels@,
            old(self).redo@,
            Pixel { color: old(self).settings.pixel_color, position: old(self).position },
        ));
    }

    /// Moves the last entry of the history onto the redo list; fails, changing
    /// nothing, when the history is empty.
    pub fn undo(&mut self) -> (r: Result<(), EditorError>)
        ensures
            r is Ok <==> old(self).pixels@.len() > 0,
            r is Err ==> r == Err::<(), EditorError>(EditorError::NoPixelsToUndo),
            final(self).lists() == after_undo(old(self).pixels@, old(self).redo@),
            final(self).position == old(self).position,
            final(self).settings == old(self).settings,
    {
        match self.pixels.pop() {
            Some(p) => {
                self.redo.push(p);
                assert(self.lists() =~~= after_undo(old(self).pixels@, old(self).redo@));
                Ok(())
            },
            None => Err(EditorError::NoPixelsToUndo),
        }
    }

    /// Moves the last entry of the redo list back onto the history; fails,
    /// changing nothing, when there is nothing to redo.
    pub fn redo(&mut self) -> (r: Result<(), EditorError>)
        ensures
            r is Ok <==> old(self).redo@.len() > 0,
            r is Err ==> r == Err::<(), EditorError>(EditorError::NoPixelsToRedo),
            final(self).lists() == after_redo(old(self).pixels@, old(self).redo@),
            final(self).position == old(self).position,
            final(self).settings == old(self).settings,
    {
        match self.redo.pop() {
            Some(p) => {
                self.pixels.push(p);
                assert(self.lists() =~~= after_redo(old(self).pixels@, old(self).redo@));
                Ok(())
            },
            None => Err(EditorError::NoPixelsToRedo),
        }
    }

    /// Erases every entry painted at the cell under the pointer, keeping the
    /// order of the others; the redo list is kept.
    pub fn clear_pixel(&mut self)
        ensures
            final(self).pixels@ == without_position(old(self).pixels@, old(self).position),
            final(self).redo@ == old(self).redo@,
            final(self).position == old(self).position,
            final(self).settings == old(self).settings,
    {
        let ghost pred = |p: Pixel| p.position != self.position;
        proof {
            reveal(Seq::filter);
        }
        let mut kept: Vec<Pixel> = Vec::new();
        let mut i: usize = 0;
        while i < self.pixels.len()
            invariant
                i <= self.pixels@.len(),
                kept@ == self.pixels@.take(i as int).filter(pred),
                pred == (|p: Pixel| p.position != self.position),
            decreases self.pixels@.len() - i,
        {
            let p = &self.pixels[i];
            proof {
                reveal(Seq::filter);
                let next = self.pixels@.take(i as int + 1);
                assert(next.drop_last() =~= self.pixels@.take(i as int));
                assert(next.last() == self.pixels@[i as int]);
            }
            if p.position != self.position {
                kept.push(Pixel { color: p.color.clone(), position: p.position });
            }
            i = i + 1;
        }
        assert(self.pixels@.take(i as int) =~= self.pixels@);
        self.pixels = kept;
    }

    /// Moves the pointer to the cell under (`client_x`, `client_y`) on a canvas
    /// whose top-left corner is at (`left`, `top`).
    pub fn update_position(&mut self, client_x: i32, client_y: i32, left: i32, top: i32)
        requires
            old(self).wf(),
        ensures
            final(self).position == (Position {
                x: snap(client_x as int, left as int, old(self).settings.pixel_width as int) as i64,
                y: snap(client_y as int, top as int, old(self).settings.pixel_height as int) as i64,
            }),
            final(self).lists() == old(self).lists(),
            final(self).settings == old(self).settings,
    {
        let w = self.settings.pixel_width;
        let h = self.settings.pixel_height;
        self.position.update(client_x, client_y, left, top, w, h);
    }
}

impl Editor {
    /// Keeps the pointer's cell and the settings of `before`.
    pub open spec fn keeps_cursor_and_settings(&self, before: &Editor) -> bool {
        self.position == before.position && self.settings == before.settings
    }

    /// Handles one message and says what has to be repainted; an undo or redo
    /// with nothing to move fails and changes nothing.
    pub fn update(&mut self, message: EditorMessage) -> (r: Result<Redraw, EditorError>)
        requires
            old(self).wf(),
        ensures
            final(self).wf(),
            match message {
                EditorMessage::ChangeColor(c) => {
                    &&& final(self).settings.pixel_color == c
                    &&& final(self).settings.canvas_height == old(self).settings.canvas_height
                    &&& final(self).settings.canvas_width == old(self).settings.canvas_width
                    &&& final(self).settings.pixel_height == old(self).settings.pixel_height
                    &&& final(self).settings.pixel_width == old(self).settings.pixel_width
                    &&& final(self).lists() == old(self).lists()
                    &&& final(self).position == old(self).position
                    &&& r == Ok::<Redraw, EditorError>(Redraw::Nothing)
                },
                EditorMessage::Clear => {
                    &&& final(self).lists() == after_clear(old(self).pixels@, old(self).redo@)
                    &&& final(self).keeps_cursor_and_settings(old(self))
                    &&& r == Ok::<Redraw, EditorError>(Redraw::Grid)
                },
                EditorMessage::Context => {
                    &&& final(self).pixels@ == without_position(
                        old(self).pixels@,
                        old(self).position,
                    )
                    &&& final(self).redo@ == old(self).redo@
                    &&& final(self).keeps_cursor_and_settings(old(self))
                    &&& r == Ok::<Redraw, EditorError>(Redraw::All)
                },
                EditorMessage::Draw => {
                    &&& final(self).lists() == after_draw(
                        old(self).pixels@,
                        old(self).redo@,
                        Pixel { color: old(self).settings.pixel_color, position: old(self).position },
                    )
                    &&& final(self).keeps_cursor_and_settings(old(self))
                    &&& r == Ok::<Redraw, EditorError>(Redraw::All)
                },
                EditorMessage::Move { client_x, client_y, left, top } => {
                    &&& final(self).position == (Position {
                        x: snap(
                            client_x as int,
                            left as int,
                            old(self).settings.pixel_width as int,
                        ) as i64,
                        y: snap(
                            client_y as int,
                            top as int,
                            old(self).settings.pixel_height as int,
                        ) as i64,
                    })
                    &&& final(self).lists() == old(self).lists()
                    &&& final(self).settings == old(self).settings
                    &&& r == Ok::<Redraw, EditorError>(Redraw::Nothing)
                },
                EditorMessage::Redo => {
                    &&& final(self).lists() == after_redo(old(self).pixels@, old(self).redo@)
                    &&& final(self).keeps_cursor_and_settings(old(self))
                    &&& r == if old(self).redo@.len() > 0 {
                        Ok::<Redraw, EditorError>(Redraw::All)
                    } else {
                        Err(EditorError::NoPixelsToRedo)
                    }
                },
                EditorMessage::Undo => {
                    &&& final(self).lists() == after_undo(old(self).pixels@, old(self).redo@)
                    &&& final(self).keeps_cursor_and_settings(old(self))
                    &&& r == if old(self).pixels@.len() > 0 {
                        Ok::<Redraw, EditorError>(Redraw::All)
                    } else {
                        Err(EditorError::NoPixelsToUndo)
                    }
                },
            },
    {
        match message {
            EditorMessage::ChangeColor(color) => {
                self.change_pixel_color(color);
                Ok(Redraw::Nothing)
            },
            EditorMessage::Clear => {
                self.clear();
                Ok(Redraw::Grid)
            },
            EditorMessage::Context => {
                self.clear_pixel();
                Ok(Redraw::All)
            },
            EditorMessage::Draw => {
                self.draw_pixel();
                Ok(Redraw::All)
            },
            EditorMessage::Move { client_x, client_y, left, top } => {
                self.update_position(client_x, client_y, left, top);
                Ok(Redraw::Nothing)
            },
            EditorMessage::Redo => {
                match self.redo() {
                    Ok(()) => Ok(Redraw::All),
                    Err(e) => Err(e),
                }
            },
            EditorMessage::Undo => {
                match self.undo() {
                    Ok(()) => Ok(Redraw::All),
                    Err(e) => Err(e),
                }
            },
        }
    }

    /// The cells to fill when repainting, one per history entry, in history
    /// order: later entries are painted over earlier ones.
    pub fn draw(&self) -> (r: Vec<Fill>)
        ensures
            r@.len() == self.pixels@.len(),
            forall|i: int|
                0 <= i < r@.len() ==> (#[trigger] r@[i]) == (Fill {
                    x: self.pixels@[i].position.x,
                    y: self.pixels@[i].position.y,
                    width: self.settings.pixel_width,
                    height: self.settings.pixel_height,
                    color: self.pixels@[i].color,
                }),
    {
        let mut fills: Vec<Fill> = Vec::new();
        let mut i: usize = 0;
        while i < self.pixels.len()
            invariant
                i <= self.pixels@.len(),
                fills@.len() == i,
                forall|k: int|
                    0 <= k < i ==> (#[trigger] fills@[k]) == (Fill {
                        x: self.pixels@[k].position.x,
                        y: self.pixels@[k].position.y,
                        width: self.settings.pixel_width,
                        height: self.settings.pixel_height,
                        color: self.pixels@[k].color,
                    }),
            decreases self.pixels@.len() - i,
        {
            let p = &self.pixels[i];
            fills.push(
                Fill {
                    x: p.position.x,
                    y: p.position.y,
                    width: self.settings.pixel_width,
                    height: self.settings.pixel_height,
                    color: p.color.clone(),
                },
            );
            i = i + 1;
        }
        fills
    }

    /// The grid lines of the canvas, as `grid_lines` orders them.
    pub fn draw_grid(&self) -> (r: Vec<Line>)
        requires
            self.wf(),
        ensures
            r@ == grid_lines(
                self.settings.canvas_width,
                self.settings.canvas_height,
                self.settings.pixel_width,
                self.settings.pixel_height,
            ),
    {
        let width = self.settings.canvas_width;
        let height = self.settings.canvas_height;
        let cw = self.settings.pixel_width;
        let ch = self.settings.pixel_height;
        let ghost verticals = Seq::new((width / cw + 1) as nat, |i: int| vertical(i * cw, height));
        let ghost horizontals = Seq::new(
            (height / ch + 1) as nat,
            |j: int| horizontal(j * ch, width),
        );
        let mut lines: Vec<Line> = Vec::new();
        let mut x: u64 = 0;
        let mut n: u64 = 0;
        while x <= width as u64
            invariant
                x == n * cw,
                n <= width / cw + 1,
                x <= width + cw,
                n <= width / cw ==> x <= width,
                n == width / cw + 1 ==> x > width,
                lines@ =~= verticals.take(n as int),
                verticals == Seq::new((width / cw + 1) as nat, |i: int| vertical(i * cw, height)),
                cw > 0,
            decreases width as u64 + cw as u64 - x,
        {
            proof {
                lemma_step_bounds(n as int, cw as int, width as int);
            }
            lines.push(Line { from_x: x as u32, from_y: 0, to_x: x as u32, to_y: height });
            assert(verticals.take(n as int + 1) =~= verticals.take(n as int).push(
                vertical(x as int, height),
            ));
            x = x + cw as u64;
            n = n + 1;
        }
        assert(lines@ =~= verticals);
        let mut y: u64 = 0;
        let mut m: u64 = 0;
        while y <= height as u64
            invariant
                y == m * ch,
                m <= height / ch + 1,
                y <= height + ch,
                m <= height / ch ==> y <= height,
                m == height / ch + 1 ==> y > height,
                lines@ =~= verticals + horizontals.take(m as int),
                horizontals == Seq::new(
                    (height / ch + 1) as nat,
                    |j: int| horizontal(j * ch, width),
                ),
                ch > 0,
            decreases height as u64 + ch as u64 - y,
        {
            proof {
                lemma_step_bounds(m as int, ch as int, height as int);
            }
            lines.push(Line { from_x: 0, from_y: y as u32, to_x: width, to_y: y as u32 });
            assert(horizontals.take(m as int + 1) =~= horizontals.take(m as int).push(
                horizontal(y as int, width),
            ));
            y = y + ch as u64;
            m = m + 1;
        }
        assert(lines@ =~= verticals + horizontals);
        lines
    }
}

/// Facts about the `n`-th multiple of a step `c` against a bound `b`: it lies
/// within the bound exactly up to `b / c`, and the next one passes it at `b / c`.
proof fn lemma_step_bounds(n: int, c: int, b: int)
    requires
        c > 0,
        b >= 0,
        n >= 0,
        n * c <= b,
    ensures
        (n + 1) * c == n * c + c,
        n <= b / c,
        n + 1 <= b / c ==> (n + 1) * c <= b,
        n + 1 == b / c + 1 ==> (n + 1) * c > b,
{
    vstd::arithmetic::div_mod::lemma_fundamental_div_mod(b, c);
    vstd::arithmetic::div_mod::lemma_mod_pos_bound(b, c);
    let q = b / c;
    assert((n + 1) * c == n * c + c) by (nonlinear_arith);
    assert(n <= q) by (nonlinear_arith)
        requires
            b == c * q + b % c,
            0 <= b % c < c,
            n * c <= b,
            c > 0,
    ;
    assert(n + 1 <= q ==> (n + 1) * c <= b) by (nonlinear_arith)
        requires
            b == c * q + b % c,
            0 <= b % c < c,
            c > 0,
    ;
    assert(n + 1 == q + 1 ==> (n + 1) * c > b) by (nonlinear_arith)
        requires
            b == c * q + b % c,
            0 <= b % c < c,
            c > 0,
    ;
}

} // verus!
