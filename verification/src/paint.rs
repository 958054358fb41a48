//! What a screen is made of: a list of strokes for a terminal to carry out
//! in order. The library computes the list; sending it is not its business.

use vstd::prelude::*;

verus! {

/// A terminal colour.
#[derive(Clone, Copy, Debug, PartialEq, Eq, Structural)]
pub enum Tint {
    Black,
    DarkGrey,
    White,
    Yellow,
    Green,
    Blue,
    Red,
}

/// How much of the terminal to clear.
#[derive(Clone, Copy, Debug, PartialEq, Eq, Structural)]
pub enum Wipe {
    All,
    CurrentLine,
    UntilNewLine,
}

/// One instruction to the terminal.
#[derive(Debug, PartialEq, Eq)]
pub enum Paint {
    /// Put the cursor at a column and a row.
    MoveTo(u16, u16),
    /// Write in this colour from here on.
    Foreground(Tint),
    /// Write on this colour from here on.
    Background(Tint),
    /// Back to the terminal's own colours.
    ResetColor,
    /// Clear a part of the terminal.
    Clear(Wipe),
    /// Hide the cursor.
    HideCursor,
    /// Show the cursor.
    ShowCursor,
    /// Write a text.
    Print(String),
    /// Write a text and end the line.
    PrintLine(String),
}

/// An instruction as the contracts see it: a text is its characters.
pub enum Stroke {
    MoveTo(u16, u16),
    Foreground(Tint),
    Background(Tint),
    ResetColor,
    Clear(Wipe),
    HideCursor,
    ShowCursor,
    Print(Seq<char>),
    PrintLine(Seq<char>),
}

impl View for Paint {
    type V = Stroke;

    open spec fn view(&self) -> Stroke {
        match self {
            Paint::MoveTo(column, row) => Stroke::MoveTo(*column, *row),
            Paint::Foreground(tint) => Stroke::Foreground(*tint),
            Paint::Background(tint) => Stroke::Background(*tint),
            Paint::ResetColor => Stroke::ResetColor,
            Paint::Clear(wipe) => Stroke::Clear(*wipe),
            Paint::HideCursor => Stroke::HideCursor,
            Paint::ShowCursor => Stroke::ShowCursor,
            Paint::Print(text) => Stroke::Print(text@),
            Paint::PrintLine(text) => Stroke::PrintLine(text@),
        }
    }
}

/// A list of instructions in the making.
pub struct Frame {
    paints: Vec<Paint>,
}

impl View for Frame {
    type V = Seq<Stroke>;

    closed spec fn view(&self) -> Seq<Stroke> {
        self.paints@.map_values(|paint: Paint| paint@)
    }
}

impl Frame {
    /// A frame without instructions.
    pub fn new() -> (frame: Frame)
        ensures
            frame@ == Seq::<Stroke>::empty(),
    {
        let frame = Frame { paints: Vec::new() };
        assert(frame@ =~= Seq::<Stroke>::empty());
        frame
    }

    /// Adds one instruction at the end.
    pub fn push(&mut self, paint: Paint)
        ensures
            final(self)@ == old(self)@.push(paint@),
    {
        self.paints.push(paint);
        assert(self@ =~= old(self)@.push(paint@));
    }

    /// Adds `Print` of a text.
    pub fn print(&mut self, text: &str)
        ensures
            final(self)@ == old(self)@.push(Stroke::Print(text@)),
    {
        self.push(Paint::Print(String::from_str(text)));
    }

    /// Adds `PrintLine` of a text.
    pub fn print_line(&mut self, text: &str)
        ensures
            final(self)@ == old(self)@.push(Stroke::PrintLine(text@)),
    {
        self.push(Paint::PrintLine(String::from_str(text)));
    }

    /// Adds the instructions of another frame at the end.
    pub fn append(&mut self, other: Frame)
        ensures
            final(self)@ == old(self)@ + other@,
    {
        let ghost added = other@;
        let mut other = other;
        self.paints.append(&mut other.paints);
        assert(self@ =~= old(self)@ + added);
    }

    /// The number of instructions.
    pub fn len(&self) -> (count: usize)
        ensures
            count == self@.len(),
    {
        self.paints.len()
    }

    /// The instructions, in order.
    pub fn into_paints(self) -> (paints: Vec<Paint>)
        ensures
            paints@.map_values(|paint: Paint| paint@) == self@,
    {
        self.paints
    }
}

} // verus!
