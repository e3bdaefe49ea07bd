//! The status line below the grid.

use crate::point::Point2d;
use crate::traits::Position;
use crate::ui::draw::Draw;
use crate::ui::Glyph;
use crate::unit::player::PlayerView;
use crate::unit::Player;
use vstd::prelude::*;

verus! {

/// The character of a decimal digit.
pub open spec fn digit(d: nat) -> char {
    if d == 0 {
        '0'
    } else if d == 1 {
        '1'
    } else if d == 2 {
        '2'
    } else if d == 3 {
        '3'
    } else if d == 4 {
        '4'
    } else if d == 5 {
        '5'
    } else if d == 6 {
        '6'
    } else if d == 7 {
        '7'
    } else if d == 8 {
        '8'
    } else {
        '9'
    }
}

/// A number written in decimal, without leading zeros.
pub open spec fn decimal(n: nat) -> Seq<char>
    decreases n,
{
    if n < 10 {
        seq![digit(n)]
    } else {
        decimal(n / 10).push(digit(n % 10))
    }
}

/// A text brought to at least `width` characters by spaces in front.
pub open spec fn pad_left(text: Seq<char>, width: nat) -> Seq<char> {
    if text.len() >= width {
        text
    } else {
        Seq::new((width - text.len()) as nat, |i: int| ' ') + text
    }
}

/// A speed rounded to tenths, halves away from zero, as a count of tenths
/// without its sign.
pub open spec fn tenths(speed: int) -> nat {
    if speed >= 0 {
        ((speed + 500) / 1_000) as nat
    } else {
        ((-speed + 500) / 1_000) as nat
    }
}

/// A speed written with one decimal place. A speed below zero keeps its
/// sign even where it rounds to zero.
pub open spec fn speed_text(speed: int) -> Seq<char> {
    let sign = if speed < 0 {
        seq!['-']
    } else {
        Seq::empty()
    };
    sign + decimal(tenths(speed) / 10) + seq!['.'] + decimal(tenths(speed) % 10)
}

/// The status line: the score and the health in a field of two
/// characters each, the speed in a field of four.
pub open spec fn status_line(score: u32, health: u8, speed: i32) -> Seq<char> {
    "//\\\\//\\\\//\\\\//\\\\//  SCORE: "@ + pad_left(decimal(score as nat), 2) + "  //  HEALTH: "@
        + pad_left(decimal(health as nat), 2) + "  \\\\  SPEED: "@ + pad_left(
        speed_text(speed as int),
        4,
    ) + "  \\\\//\\\\//\\\\//\\\\//\\\\"@
}

/// Calls `format!` once, on the text of the status line. The claim is
/// what the formatting rules of the standard library say: the literal text
/// as written, an unsigned number in decimal without leading zeros, `{:2}`
/// with spaces in front up to two characters, and a `&str` as it is.
#[verifier::external_body]
fn format_line(score: u32, health: u8, pad: &str, sign: &str, whole: u32, tenth: u32) -> (line:
    String)
    ensures
        line@ == "//\\\\//\\\\//\\\\//\\\\//  SCORE: "@ + pad_left(decimal(score as nat), 2)
            + "  //  HEALTH: "@ + pad_left(decimal(health as nat), 2) + "  \\\\  SPEED: "@ + pad@
            + sign@ + decimal(whole as nat) + seq!['.'] + decimal(tenth as nat)
            + "  \\\\//\\\\//\\\\//\\\\//\\\\"@,
{
    format!(
        "//\\\\//\\\\//\\\\//\\\\//  SCORE: {:2}  //  HEALTH: {:2}  \\\\  SPEED: {}{}{}.{}  \\\\//\\\\//\\\\//\\\\//\\\\",
        score,
        health,
        pad,
        sign,
        whole,
        tenth
    )
}

/// A number below ten is written with one digit, any other with more.
pub proof fn lemma_decimal_len(n: nat)
    ensures
        decimal(n).len() >= 1,
        n < 10 <==> decimal(n).len() == 1,
    decreases n,
{
    if n >= 10 {
        lemma_decimal_len(n / 10);
    }
}

/// The text of the status line for a score, a health and a speed.
pub fn hud_text(score: u32, health: u8, speed: i32) -> (text: String)
    ensures
        text@ == status_line(score, health, speed),
{
    let size: u32 = if speed >= 0 {
        speed as u32
    } else {
        (-(speed as i64)) as u32
    };
    let count: u32 = (size + 500) / 1_000;
    let whole: u32 = count / 10;
    let tenth: u32 = count % 10;
    let sign = if speed < 0 {
        "-"
    } else {
        ""
    };
    let pad = if speed >= 0 && whole < 10 {
        " "
    } else {
        ""
    };
    proof {
        reveal_strlit("-");
        reveal_strlit("");
        reveal_strlit(" ");
        lemma_decimal_len(whole as nat);
        lemma_decimal_len(tenth as nat);
    }
    format_line(score, health, pad, sign, whole, tenth)
}

/// What a status display is, as plain values.
pub struct HudView {
    pub score: u32,
    pub player: PlayerView,
    pub y_position: u16,
}

/// The status display: a line of text in the first column of a row.
pub struct Hud<'a> {
    score: u32,
    player: &'a Player,
    y_position: u16,
}

impl<'a> View for Hud<'a> {
    type V = HudView;

    closed spec fn view(&self) -> HudView {
        HudView { score: self.score, player: self.player@, y_position: self.y_position }
    }
}

impl<'a> Hud<'a> {
    /// The status display for a score and a player, in row `y_position`.
    pub fn new(score: u32, player: &'a Player, y_position: u16) -> (hud: Self)
        ensures
            hud@ == (HudView { score, player: player@, y_position }),
    {
        Self { score, player, y_position }
    }

    /// The text of the status line.
    pub fn text(&self) -> (text: String)
        ensures
            text@ == status_line(self@.score, self@.player.health, self@.player.speed),
    {
        hud_text(self.score, self.player.health(), self.player.speed())
    }
}

/// The status line always starts in the first column.
impl<'a> Position<u16> for Hud<'a> {
    open spec fn place(&self) -> Point2d<u16> {
        Point2d::<u16>::at(0, self@.y_position)
    }

    /// Only the row of `position` counts.
    open spec fn placed(&self, position: Point2d<u16>) -> HudView {
        HudView { y_position: position.y, ..self@ }
    }

    fn position(&self) -> (p: Point2d<u16>) {
        Point2d::new(0, self.y_position)
    }

    fn set_position(&mut self, position: Point2d<u16>) {
        self.y_position = position.y;
    }
}

impl<'a> Draw<u16> for Hud<'a> {
    open spec fn glyph(&self) -> Glyph {
        Glyph::Hud { score: self@.score, health: self@.player.health, speed: self@.player.speed }
    }

    fn symbol(&self) -> (g: Glyph) {
        Glyph::Hud { score: self.score, health: self.player.health(), speed: self.player.speed() }
    }
}

} // verus!
