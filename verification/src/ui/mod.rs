//! The screen, as a list of instructions for whoever owns the terminal.

pub mod draw;

use vstd::prelude::*;

verus! {

/// The colours the game paints with.
#[derive(Clone, Copy, Debug, PartialEq, Eq, Structural)]
pub enum Color {
    Black,
    Red,
    Magenta,
    DarkGreen,
}

/// What can be shown in a cell.
#[derive(Clone, Copy, Debug, PartialEq, Eq, Structural)]
pub enum Glyph {
    /// The player, with the face that goes with its health.
    Player(char),
    Enemy,
    Wall,
    Collectible,
    /// The status line for a score, a health and a speed.
    Hud { score: u32, health: u8, speed: i32 },
}

/// One instruction to the terminal.
#[derive(Clone, Copy, Debug, PartialEq, Eq, Structural)]
pub enum Command {
    EnableRawMode,
    DisableRawMode,
    SetBackgroundColor(Color),
    ResetColor,
    Clear,
    Hide,
    Show,
    /// Puts the cursor at a column and a row.
    MoveTo(u16, u16),
    Print(Glyph),
}

/// The colour a glyph is painted in, for those that have one.
pub open spec fn paint(glyph: Glyph) -> Option<Color> {
    match glyph {
        Glyph::Player(_) => None,
        Glyph::Enemy => Some(Color::DarkGreen),
        Glyph::Wall => Some(Color::Magenta),
        Glyph::Collectible => Some(Color::Red),
        Glyph::Hud { .. } => None,
    }
}

/// The colour a glyph is painted in, for those that have one.
pub fn color_of(glyph: Glyph) -> (color: Option<Color>)
    ensures
        color == paint(glyph),
{
    match glyph {
        Glyph::Player(_) => None,
        Glyph::Enemy => Some(Color::DarkGreen),
        Glyph::Wall => Some(Color::Magenta),
        Glyph::Collectible => Some(Color::Red),
        Glyph::Hud { .. } => None,
    }
}

/// The instructions that make a terminal ready for the game.
pub open spec fn prepare_commands() -> Seq<Command> {
    seq![
        Command::EnableRawMode,
        Command::SetBackgroundColor(Color::Black),
        Command::Clear,
        Command::Hide,
    ]
}

/// The instructions that give the terminal back as it was.
pub open spec fn restore_commands() -> Seq<Command> {
    seq![
        Command::ResetColor,
        Command::Clear,
        Command::MoveTo(0, 0),
        Command::Show,
        Command::DisableRawMode,
    ]
}

/// The screen, as the list of instructions that wait to be carried out.
pub struct UI {
    pending: Vec<Command>,
}

impl View for UI {
    type V = Seq<Command>;

    /// The instructions that wait, oldest first.
    closed spec fn view(&self) -> Seq<Command> {
        self.pending@
    }
}

impl UI {
    /// A screen with nothing waiting.
    pub fn new() -> (ui: Self)
        ensures
            ui@ == Seq::<Command>::empty(),
    {
        Self { pending: Vec::new() }
    }

    /// Queues the instructions that make the terminal ready: raw mode, a
    /// black background, a clear screen, no cursor.
    pub fn prepare(&mut self)
        ensures
            final(self)@ == old(self)@ + prepare_commands(),
    {
        self.pending.push(Command::EnableRawMode);
        self.pending.push(Command::SetBackgroundColor(Color::Black));
        self.pending.push(Command::Clear);
        self.pending.push(Command::Hide);
    }

    /// Queues the instruction that clears the screen.
    pub fn clear(&mut self)
        ensures
            final(self)@ == old(self)@.push(Command::Clear),
    {
        self.pending.push(Command::Clear);
    }

    /// Queues the instructions that give the terminal back: colours reset,
    /// screen clear, cursor shown in the corner, raw mode left.
    pub fn restore(&mut self)
        ensures
            final(self)@ == old(self)@ + restore_commands(),
    {
        self.pending.push(Command::ResetColor);
        self.pending.push(Command::Clear);
        self.pending.push(Command::MoveTo(0, 0));
        self.pending.push(Command::Show);
        self.pending.push(Command::DisableRawMode);
    }

    /// Adds instructions behind those that wait.
    pub fn queue(&mut self, commands: Vec<Command>)
        ensures
            final(self)@ == old(self)@ + commands@,
    {
        let mut commands = commands;
        self.pending.append(&mut commands);
    }

    /// Hands over the instructions that wait, and leaves none.
    pub fn take(&mut self) -> (commands: Vec<Command>)
        ensures
            commands@ == old(self)@,
            final(self)@ == Seq::<Command>::empty(),
    {
        let mut commands: Vec<Command> = Vec::new();
        commands.append(&mut self.pending);
        commands
    }
}

} // verus!
