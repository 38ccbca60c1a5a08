//! The editor: command dispatch over the viewport and the quit flag.

use crate::buffer::spec_lines;
use crate::command::{EditorCommand, InputEvent, KeyPhase, TranslateError};
use crate::command::spec_translate;
use crate::terminal::{Position, Size, TermOp};
use crate::view::{View, is_view_frame, view_step};
use vstd::prelude::*;
use vstd::view::View as _;

verus! {

/// Whether an event is one the editor acts on at all: a key press or a
/// resize notification. Key repeats and releases are dropped before
/// translation so that a stroke is never processed twice.
pub open spec fn should_evaluate(event: InputEvent) -> bool {
    ||| (event matches InputEvent::Key { phase, .. } && phase is Press)
    ||| event is Resize
}

/// The whole editor core: a viewport plus the session's quit flag.
pub struct Editor {
    pub should_quit: bool,
    pub view: View,
}

impl Editor {
    /// A fresh editor for a screen of the given size.
    pub fn new(size: Size) -> (e: Editor)
        ensures
            !e.should_quit,
            e.view.size == size,
            e.view.buffer.view().len() == 0,
            e.view.caret_position == (Position { x: 0, y: 0 }),
            e.view.needs_redraw,
    {
        Editor { should_quit: false, view: View::from_size(size) }
    }

    /// Load the full text of a source into the viewport's buffer.
    pub fn load(&mut self, contents: &str)
        ensures
            final(self).should_quit == old(self).should_quit,
            final(self).view.buffer.view() == spec_lines(contents@),
            final(self).view.needs_redraw,
            final(self).view.size == old(self).view.size,
            final(self).view.caret_position == old(self).view.caret_position,
            final(self).view.screen_offset == old(self).view.screen_offset,
    {
        self.view.load(contents);
    }

    /// Consume one raw event.
    ///
    /// An event outside the press/resize shape is silently dropped. A
    /// translated quit raises the quit flag; any other command is handed to
    /// the viewport, a move judged against the freshly queried `bounds`. A
    /// key-shaped event that translates to nothing is a translation error
    /// and changes nothing.
    pub fn evaluate_event(&mut self, event: InputEvent, bounds: Size) -> (r: Result<
        (),
        TranslateError,
    >)
        ensures
            !should_evaluate(event) ==> r is Ok && *final(self) == *old(self),
            should_evaluate(event) ==> (match spec_translate(event) {
                Some(command) => {
                    &&& r is Ok
                    &&& (command is Quit ==> final(self).should_quit && final(self).view == old(
                        self,
                    ).view)
                    &&& (!(command is Quit) ==> final(self).should_quit == old(self).should_quit
                        && view_step(old(self).view, final(self).view, command, bounds))
                },
                None => r is Err && *final(self) == *old(self),
            }),
    {
        let should = match &event {
            InputEvent::Key { phase: KeyPhase::Press, .. } => true,
            InputEvent::Resize(_) => true,
            _ => false,
        };
        if !should {
            return Ok(());
        }
        match EditorCommand::try_from_event(event) {
            Ok(command) => match command {
                EditorCommand::Quit => {
                    self.should_quit = true;
                    Ok(())
                },
                _ => {
                    self.view.evaluate_event(command, bounds);
                    Ok(())
                },
            },
            Err(err) => Err(err),
        }
    }

    /// Plan the terminal operations of one screen refresh: hide the caret,
    /// park it at the origin, draw the frame the viewport produces, put the
    /// caret back on its position, show it, and flush.
    pub fn refresh_screen(&mut self) -> (ops: Vec<TermOp>)
        ensures
            final(self).should_quit == old(self).should_quit,
            final(self).view.buffer == old(self).view.buffer,
            final(self).view.size == old(self).view.size,
            final(self).view.caret_position == old(self).view.caret_position,
            final(self).view.screen_offset == old(self).view.screen_offset,
            final(self).view.needs_redraw == (old(self).view.needs_redraw && (old(
                self,
            ).view.size.height == 0 || old(self).view.size.width == 0)),
            ops@.len() >= 5,
            ops@[0] is HideCaret,
            ops@[1] == (TermOp::MoveCaretTo { pos: (Position { x: 0, y: 0 }) }),
            is_view_frame(old(self).view, ops@.subrange(2, ops@.len() - 3)),
            ops@[ops@.len() - 3] == (TermOp::MoveCaretTo { pos: old(self).view.caret_position }),
            ops@[ops@.len() - 2] is ShowCaret,
            ops@[ops@.len() - 1] is Flush,
    {
        let mut ops: Vec<TermOp> = Vec::new();
        ops.push(TermOp::HideCaret);
        ops.push(TermOp::MoveCaretTo { pos: Position { x: 0, y: 0 } });
        let mut body = self.view.render();
        let ghost frame = body@;
        ops.append(&mut body);
        ops.push(TermOp::MoveCaretTo { pos: self.view.get_caret_position() });
        ops.push(TermOp::ShowCaret);
        ops.push(TermOp::Flush);
        proof {
            assert(ops@.subrange(2, ops@.len() - 3) =~= frame);
        }
        ops
    }
}

} // verus!
