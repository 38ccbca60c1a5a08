//! The viewport: projects the buffer onto the screen and owns the caret.

use crate::buffer::Buffer;
use crate::command::{Direction, EditorCommand};
use crate::terminal::{Position, Size, TermOp};
use vstd::prelude::*;
use vstd::string::*;
use vstd::view::View as _;

verus! {

/// `v - 1`, saturating at zero.
pub open spec fn dec_sat(v: usize) -> usize {
    if v > 0 {
        (v - 1) as usize
    } else {
        0
    }
}

/// `v + 1`, saturating at the machine limit.
pub open spec fn inc_sat(v: usize) -> usize {
    if v < usize::MAX {
        (v + 1) as usize
    } else {
        usize::MAX
    }
}

/// The smaller of two cell counts.
pub open spec fn min_usize(a: usize, b: usize) -> usize {
    if a < b {
        a
    } else {
        b
    }
}

/// The literal welcome banner text.
pub open spec fn welcome_message() -> Seq<char> {
    "hecto editor -- version 0.1.0"@
}

/// `n` spaces.
pub open spec fn spaces(n: int) -> Seq<char> {
    Seq::new(n as nat, |i: int| ' ')
}

/// A line capped at `width` columns: an over-long line is cut there, a
/// shorter one is kept as it is.
pub open spec fn truncated(line: Seq<char>, width: int) -> Seq<char> {
    if line.len() >= width {
        line.subrange(0, width)
    } else {
        line
    }
}

/// The banner row for a viewport `width` columns wide: the message centered
/// behind a leading placeholder, the whole row capped at `width`; the bare
/// placeholder when the message does not fit.
pub open spec fn welcome_text(width: int) -> Seq<char> {
    let msg = welcome_message();
    if width <= msg.len() {
        seq!['~']
    } else {
        let padding = (width - msg.len() + 1) / 2;
        truncated(seq!['~'] + spaces(padding - 1) + msg, width)
    }
}

/// What one screen row shows: the buffer line truncated to the viewport
/// width where the buffer has one, the welcome banner on the row a third
/// of the way down an empty buffer's viewport, a placeholder otherwise.
pub open spec fn row_text(buf: Seq<Seq<char>>, height: int, width: int, row: int) -> Seq<char> {
    if 0 <= row < buf.len() {
        truncated(buf[row], width)
    } else if row == height / 3 && buf.len() == 0 {
        welcome_text(width)
    } else {
        seq!['~']
    }
}

/// The three draw operations of screen row `r` stand at `ops[3r .. 3r+3]`:
/// position at the row head, clear the row, print the row's text.
pub open spec fn row_ops_at(
    buf: Seq<Seq<char>>,
    height: int,
    width: int,
    ops: Seq<TermOp>,
    r: int,
) -> bool {
    &&& ops[3 * r] == (TermOp::MoveCaretTo { pos: Position { x: 0, y: r as usize } })
    &&& ops[3 * r + 1] is ClearLine
    &&& (ops[3 * r + 2] matches TermOp::Print { text } && text@ == row_text(
        buf,
        height,
        width,
        r,
    ))
}

/// A full frame body for a `height x width` viewport over `buf`: exactly
/// three draw operations per screen row, each row as [`row_ops_at`] says.
pub open spec fn is_render_ops(
    buf: Seq<Seq<char>>,
    height: int,
    width: int,
    ops: Seq<TermOp>,
) -> bool {
    &&& ops.len() == 3 * height
    &&& forall|r: int| 0 <= r < height ==> #[trigger] row_ops_at(buf, height, width, ops, r)
}

/// The draw operations one `render` call on a viewport in state `v`
/// produces: none while no redraw is pending and none on a degenerate
/// viewport, a full frame body otherwise.
pub open spec fn is_view_frame(v: View, ops: Seq<TermOp>) -> bool {
    if !v.needs_redraw || v.size.height == 0 || v.size.width == 0 {
        ops.len() == 0
    } else {
        is_render_ops(v.buffer.view(), v.size.height as int, v.size.width as int, ops)
    }
}

/// The caret transition table: where a caret at `pos` lands after one
/// directional move on a viewport of size `bounds`.
///
/// Every transition changes a single axis; the vertical axis is clamped to
/// `[0, height-1]`, the horizontal to `[0, width-1]`, saturating rather than
/// wrapping.
pub open spec fn moved(pos: Position, direction: Direction, bounds: Size) -> Position {
    match direction {
        Direction::Up => Position { x: pos.x, y: dec_sat(pos.y) },
        Direction::Down => Position { x: pos.x, y: min_usize(dec_sat(bounds.height), inc_sat(pos.y)) },
        Direction::Left => Position { x: dec_sat(pos.x), y: pos.y },
        Direction::Right => Position { x: min_usize(dec_sat(bounds.width), inc_sat(pos.x)), y: pos.y },
        Direction::PageUp => Position { x: pos.x, y: 0 },
        Direction::PageDown => Position { x: pos.x, y: dec_sat(bounds.height) },
        Direction::Home => Position { x: 0, y: pos.y },
        Direction::End => Position { x: dec_sat(bounds.width), y: pos.y },
    }
}

/// How one non-quit command takes the viewport from `before` to `after`:
/// a move updates the caret against `bounds`, a resize replaces the stored
/// size and schedules a redraw; the buffer and the scroll offset never
/// change.
pub open spec fn view_step(before: View, after: View, command: EditorCommand, bounds: Size) -> bool {
    &&& after.buffer == before.buffer
    &&& after.screen_offset == before.screen_offset
    &&& (command matches EditorCommand::Move(d) ==> {
        &&& after.caret_position == moved(before.caret_position, d, bounds)
        &&& after.size == before.size
        &&& after.needs_redraw == before.needs_redraw
    })
    &&& (command matches EditorCommand::Resize(s) ==> {
        &&& after.size == s
        &&& after.needs_redraw
        &&& after.caret_position == before.caret_position
    })
}

/// The visible rectangle onto the buffer, with caret and redraw state.
pub struct View {
    pub buffer: Buffer,
    pub needs_redraw: bool,
    pub size: Size,
    pub caret_position: Position,
    pub screen_offset: Position,
}

impl View {
    /// A fresh viewport of the given size: empty default buffer, caret at
    /// the origin, a full redraw pending.
    pub fn from_size(size: Size) -> (v: View)
        ensures
            v.buffer.view().len() == 0,
            v.needs_redraw,
            v.size == size,
            v.caret_position == (Position { x: 0, y: 0 }),
            v.screen_offset == (Position { x: 0, y: 0 }),
    {
        View {
            buffer: Buffer::default(),
            needs_redraw: true,
            size,
            caret_position: Position::default(),
            screen_offset: Position::default(),
        }
    }

    /// The caret position in viewport coordinates.
    pub fn get_caret_position(&self) -> (p: Position)
        ensures
            p == self.caret_position,
    {
        self.caret_position
    }

    /// Adopt a new viewport size and schedule a full redraw.
    pub fn resize(&mut self, new_size: Size)
        ensures
            final(self).size == new_size,
            final(self).needs_redraw,
            final(self).buffer == old(self).buffer,
            final(self).caret_position == old(self).caret_position,
            final(self).screen_offset == old(self).screen_offset,
    {
        self.size = new_size;
        self.needs_redraw = true;
    }

    /// Replace the buffer with one loaded from `contents` and schedule a
    /// full redraw.
    pub fn load(&mut self, contents: &str)
        ensures
            final(self).buffer.view() == crate::buffer::spec_lines(contents@),
            final(self).needs_redraw,
            final(self).size == old(self).size,
            final(self).caret_position == old(self).caret_position,
            final(self).screen_offset == old(self).screen_offset,
    {
        self.buffer = Buffer::from_contents(contents);
        self.needs_redraw = true;
    }

    /// Apply one directional move to the caret.
    ///
    /// `bounds` is the viewport size in effect at the moment of the move,
    /// queried freshly by the caller rather than taken from `self.size`, so
    /// a terminal that shrank since the last frame clamps immediately.
    pub fn move_point(&mut self, direction: Direction, bounds: Size)
        ensures
            final(self).caret_position == moved(old(self).caret_position, direction, bounds),
            final(self).buffer == old(self).buffer,
            final(self).needs_redraw == old(self).needs_redraw,
            final(self).size == old(self).size,
            final(self).screen_offset == old(self).screen_offset,
    {
        let mut x = self.caret_position.x;
        let mut y = self.caret_position.y;
        let height = bounds.height;
        let width = bounds.width;
        match direction {
            Direction::Up => {
                y = y.saturating_sub(1);
            }
            Direction::Down => {
                let limit = height.saturating_sub(1);
                let next = y.saturating_add(1);
                y = if limit < next {
                    limit
                } else {
                    next
                };
            }
            Direction::Left => {
                x = x.saturating_sub(1);
            }
            Direction::Right => {
                let limit = width.saturating_sub(1);
                let next = x.saturating_add(1);
                x = if limit < next {
                    limit
                } else {
                    next
                };
            }
            Direction::PageUp => {
                y = 0;
            }
            Direction::PageDown => {
                y = height.saturating_sub(1);
            }
            Direction::Home => {
                x = 0;
            }
            Direction::End => {
                x = width.saturating_sub(1);
            }
        }
        self.caret_position = Position { x, y };
    }

    /// The centered welcome banner for a row `width` columns wide, or the
    /// bare placeholder when the message does not fit.
    pub fn build_welcome_message(width: usize) -> (r: String)
        ensures
            r@ == welcome_text(width as int),
    {
        let message = "hecto editor -- version 0.1.0";
        proof {
            reveal_strlit("hecto editor -- version 0.1.0");
        }
        let len = message.unicode_len();
        if width <= len {
            let r = placeholder_row();
            return r;
        }
        let padding = (width - len + 1) / 2;
        let mut full = placeholder_row();
        proof {
            assert(full@ =~= seq!['~'] + spaces(0));
        }
        let mut k: usize = 0;
        while k < padding - 1
            invariant
                k <= padding - 1,
                full@ == seq!['~'] + spaces(k as int),
            decreases padding - 1 - k,
        {
            full.append(" ");
            proof {
                reveal_strlit(" ");
                assert(spaces(k + 1) =~= spaces(k as int).push(' '));
                assert(full@ =~= seq!['~'] + spaces(k + 1));
            }
            k = k + 1;
        }
        full.append(message);
        proof {
            assert(full@ =~= seq!['~'] + spaces(padding - 1) + message@);
        }
        let full_len = full.unicode_len();
        if full_len >= width {
            let r = full.as_str().substring_char(0, width).to_owned();
            r
        } else {
            full
        }
    }

    /// Queue the three draw operations of one screen row: position at the
    /// head of row `at`, clear it, print `line`.
    pub fn render_line(at: usize, line: String, ops: &mut Vec<TermOp>)
        ensures
            final(ops)@ == old(ops)@ + seq![
                (TermOp::MoveCaretTo { pos: (Position { x: 0, y: at }) }),
                TermOp::ClearLine,
                (TermOp::Print { text: line }),
            ],
    {
        let ghost expected = ops@ + seq![
            (TermOp::MoveCaretTo { pos: (Position { x: 0, y: at }) }),
            TermOp::ClearLine,
            (TermOp::Print { text: line }),
        ];
        ops.push(TermOp::MoveCaretTo { pos: Position { x: 0, y: at } });
        ops.push(TermOp::ClearLine);
        ops.push(TermOp::Print { text: line });
        proof {
            assert(ops@ =~= expected);
        }
    }

    /// Produce the draw operations of one frame.
    ///
    /// A frame is skipped entirely — no operations at all — when no redraw
    /// is pending, and likewise on a degenerate viewport (zero rows or zero
    /// columns), which is not an error. Otherwise the frame carries exactly
    /// three operations for each of the `height` rows and the pending
    /// redraw is considered done.
    pub fn render(&mut self) -> (ops: Vec<TermOp>)
        ensures
            final(self).buffer == old(self).buffer,
            final(self).size == old(self).size,
            final(self).caret_position == old(self).caret_position,
            final(self).screen_offset == old(self).screen_offset,
            is_view_frame(*old(self), ops@),
            final(self).needs_redraw == (old(self).needs_redraw && (old(self).size.height == 0
                || old(self).size.width == 0)),
    {
        let mut ops: Vec<TermOp> = Vec::new();
        if !self.needs_redraw {
            return ops;
        }
        let height = self.size.height;
        let width = self.size.width;
        if height == 0 || width == 0 {
            return ops;
        }
        let vertical_center = height / 3;
        let mut row: usize = 0;
        while row < height
            invariant
                *self == *old(self),
                height == self.size.height,
                width == self.size.width,
                vertical_center == height / 3,
                height > 0,
                width > 0,
                row <= height,
                ops@.len() == 3 * row,
                forall|r: int|
                    0 <= r < row ==> #[trigger] row_ops_at(
                        self.buffer.view(),
                        height as int,
                        width as int,
                        ops@,
                        r,
                    ),
            decreases height - row,
        {
            let ghost prior = ops@;
            let text: String = match self.buffer.get_line(row) {
                Some(line) => truncate_to_width(line, width),
                None => {
                    if row == vertical_center && self.buffer.is_empty() {
                        Self::build_welcome_message(width)
                    } else {
                        placeholder_row()
                    }
                },
            };
            proof {
                assert(text@ == row_text(
                    self.buffer.view(),
                    height as int,
                    width as int,
                    row as int,
                ));
            }
            Self::render_line(row, text, &mut ops);
            proof {
                assert forall|r: int| 0 <= r < row + 1 implies #[trigger] row_ops_at(
                    self.buffer.view(),
                    height as int,
                    width as int,
                    ops@,
                    r,
                ) by {
                    if r < row {
                        assert(row_ops_at(
                            self.buffer.view(),
                            height as int,
                            width as int,
                            prior,
                            r,
                        ));
                        assert(ops@[3 * r] == prior[3 * r]);
                        assert(ops@[3 * r + 1] == prior[3 * r + 1]);
                        assert(ops@[3 * r + 2] == prior[3 * r + 2]);
                    } else {
                        assert(ops@[3 * r] == ops@[prior.len() as int]);
                        assert(ops@[3 * r + 1] == ops@[prior.len() as int + 1]);
                        assert(ops@[3 * r + 2] == ops@[prior.len() as int + 2]);
                    }
                }
            }
            row = row + 1;
        }
        self.needs_redraw = false;
        ops
    }

    /// Consume one non-quit command: a move updates the caret against the
    /// freshly queried `bounds`, a resize replaces the stored size.
    pub fn evaluate_event(&mut self, command: EditorCommand, bounds: Size)
        requires
            !(command is Quit),
        ensures
            view_step(*old(self), *final(self), command, bounds),
    {
        match command {
            EditorCommand::Move(direction) => self.move_point(direction, bounds),
            EditorCommand::Resize(size) => self.resize(size),
            EditorCommand::Quit => proof {
                assert(false);
            },
        }
    }
}

/// A row holding only the placeholder glyph.
fn placeholder_row() -> (r: String)
    ensures
        r@ == seq!['~'],
{
    proof {
        reveal_strlit("~");
    }
    let r = "~".to_owned();
    proof {
        assert(r@ =~= seq!['~']);
    }
    r
}

/// `line` capped at `width` columns.
fn truncate_to_width(line: &String, width: usize) -> (r: String)
    ensures
        r@ == truncated(line@, width as int),
{
    if line.unicode_len() >= width {
        line.as_str().substring_char(0, width).to_owned()
    } else {
        line.clone()
    }
}

/// Clamping invariant of the caret state machine: a move on a non-degenerate
/// viewport keeps an in-bounds caret in bounds.
pub proof fn lemma_move_in_bounds(pos: Position, direction: Direction, bounds: Size)
    requires
        bounds.height > 0,
        bounds.width > 0,
        pos.x < bounds.width,
        pos.y < bounds.height,
    ensures
        moved(pos, direction, bounds).x < bounds.width,
        moved(pos, direction, bounds).y < bounds.height,
{
}

/// What each row of a frame shows when the whole buffer fits on the
/// screen: a frame over a buffer of `N` lines on a viewport of `height >=
/// N` rows prints the buffer's `N` lines in order, each truncated to the
/// viewport width, and the placeholder glyph on every later row — except
/// the banner row of an empty buffer. Together with a frame's shape
/// ([`is_render_ops`]: three operations per row, the third printing
/// [`row_text`]), this pins every printed row.
pub proof fn lemma_render_rows(buf: Seq<Seq<char>>, height: int, width: int)
    requires
        buf.len() <= height,
    ensures
        forall|r: int|
            0 <= r < buf.len() ==> #[trigger] row_text(buf, height, width, r) == truncated(
                buf[r],
                width,
            ),
        forall|r: int|
            buf.len() <= r < height && !(r == height / 3 && buf.len() == 0)
                ==> #[trigger] row_text(buf, height, width, r) == seq!['~'],
{
}

/// The welcome banner row. When the message fits (`width` strictly greater
/// than the message length) the row begins with the placeholder glyph and
/// is never longer than the viewport width; it reaches the full viewport
/// width exactly when the width exceeds the message length by one, and is
/// otherwise the placeholder, the centering padding and the message. When
/// the message does not fit, the row is the bare placeholder.
pub proof fn lemma_welcome_banner(width: int)
    ensures
        width > welcome_message().len() ==> {
            &&& welcome_text(width)[0] == '~'
            &&& welcome_text(width).len() == vstd::math::min(
                width,
                (width - welcome_message().len() + 1) / 2 + welcome_message().len(),
            )
            &&& welcome_text(width).len() <= width
        },
        width == welcome_message().len() + 1 ==> welcome_text(width).len() == width,
        width <= welcome_message().len() ==> welcome_text(width) == seq!['~'],
{
    let msg = welcome_message();
    if width > msg.len() {
        let padding = (width - msg.len() + 1) / 2;
        assert(padding >= 1);
        let composed = seq!['~'] + spaces(padding - 1) + msg;
        assert(composed.len() == padding + msg.len());
        assert(composed[0] == '~');
        if composed.len() >= width {
            assert(welcome_text(width) == composed.subrange(0, width));
            assert(welcome_text(width)[0] == composed[0]);
        }
        if width == msg.len() + 1 {
            assert(padding == 1);
            assert(composed.len() == width);
        }
    }
}

/// `Home` zeroes the column; `End` then pins it to the last column,
/// whatever the column was before either move.
pub proof fn lemma_home_then_end(pos: Position, bounds: Size)
    requires
        bounds.width > 0,
    ensures
        moved(pos, Direction::Home, bounds).x == 0,
        moved(moved(pos, Direction::Home, bounds), Direction::End, bounds).x == bounds.width - 1,
        moved(moved(pos, Direction::Home, bounds), Direction::End, bounds).y == pos.y,
{
}

} // verus!
