//! Drawing commands and the buffer that collects one frame of them.
//!
//! The game never paints. It composes each frame as an ordered list of
//! commands, and whoever owns the terminal carries them out in that order.

use vstd::prelude::*;

verus! {

/// How a piece of text is shown.
#[derive(Clone, Copy, Debug, PartialEq, Eq, Structural)]
pub enum Style {
    Plain,
    /// Reverse video: foreground and background swapped.
    Reverse,
}

/// One instruction to the terminal.
#[derive(Clone, Debug, PartialEq, Eq)]
pub enum DrawCommand {
    ClearScreen,
    HideCursor,
    ShowCursor,
    /// Move the cursor to column `col` of row `row`.
    MoveTo { col: u16, row: u16 },
    /// Write `text` at the cursor in the given style.
    Text { style: Style, text: String },
}

/// What a drawing command says, with its text as a sequence of characters.
pub ghost enum DrawOp {
    ClearScreen,
    HideCursor,
    ShowCursor,
    MoveTo { col: u16, row: u16 },
    Text { style: Style, text: Seq<char> },
}

impl View for DrawCommand {
    type V = DrawOp;

    open spec fn view(&self) -> DrawOp {
        match *self {
            DrawCommand::ClearScreen => DrawOp::ClearScreen,
            DrawCommand::HideCursor => DrawOp::HideCursor,
            DrawCommand::ShowCursor => DrawOp::ShowCursor,
            DrawCommand::MoveTo { col, row } => DrawOp::MoveTo { col, row },
            DrawCommand::Text { style, text } => DrawOp::Text { style, text: text@ },
        }
    }
}

/// What a list of drawing commands says, command by command.
pub open spec fn ops(commands: Seq<DrawCommand>) -> Seq<DrawOp> {
    commands.map_values(|c: DrawCommand| c@)
}

/// The last frame of a session, which leaves the terminal tidy: clear the
/// screen, show the cursor again, and put it in the top left corner.
pub open spec fn closing_ops() -> Seq<DrawOp> {
    seq![DrawOp::ClearScreen, DrawOp::ShowCursor, DrawOp::MoveTo { col: 0, row: 0 }]
}

/// The frame buffer: the commands queued for the frame being composed.
#[derive(Clone, Debug, PartialEq, Eq)]
pub struct Output {
    pub content: Vec<DrawCommand>,
}

impl View for Output {
    type V = Seq<DrawOp>;

    open spec fn view(&self) -> Seq<DrawOp> {
        ops(self.content@)
    }
}

impl Output {
    /// An empty buffer.
    pub fn new() -> (output: Self)
        ensures
            output@ == Seq::<DrawOp>::empty(),
    {
        Self { content: Vec::new() }
    }

    /// Queues one command behind those already in the buffer.
    pub fn write(&mut self, command: DrawCommand)
        ensures
            final(self)@ == old(self)@.push(command@),
    {
        self.content.push(command);
    }

    /// Queues a move of the cursor.
    pub fn move_to(&mut self, col: u16, row: u16)
        ensures
            final(self)@ == old(self)@.push(DrawOp::MoveTo { col, row }),
    {
        self.write(DrawCommand::MoveTo { col, row });
    }

    /// Queues a piece of text.
    pub fn print(&mut self, style: Style, text: String)
        ensures
            final(self)@ == old(self)@.push(DrawOp::Text { style, text: text@ }),
    {
        self.write(DrawCommand::Text { style, text });
    }

    /// Queues the last frame of a session.
    pub fn close(&mut self)
        ensures
            final(self)@ == old(self)@ + closing_ops(),
    {
        self.write(DrawCommand::ClearScreen);
        self.write(DrawCommand::ShowCursor);
        self.move_to(0, 0);
        assert(self@ =~= old(self)@ + closing_ops());
    }

    /// Hands out the queued commands in the order they were queued and leaves
    /// the buffer empty for the next frame.
    pub fn flush(&mut self) -> (frame: Vec<DrawCommand>)
        ensures
            ops(frame@) == old(self)@,
            final(self)@ == Seq::<DrawOp>::empty(),
    {
        let mut frame: Vec<DrawCommand> = Vec::new();
        std::mem::swap(&mut frame, &mut self.content);
        frame
    }
}

} // verus!
