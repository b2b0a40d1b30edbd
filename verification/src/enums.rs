//! Messages that drive a small drawing state, and the points of the compass.

use crate::decimal::{int_text, nat_text, push_int, push_nat};
use vstd::prelude::*;
use vstd::string::*;

verus! {

/// A position on the canvas.
#[derive(Debug, PartialEq, Eq, Structural, Clone, Copy)]
pub struct Point {
    pub x: u8,
    pub y: u8,
}

/// What can be sent to a [`State`].
#[derive(Debug)]
pub enum Message {
    /// Stop.
    Quit,
    /// Go to the point.
    Move(Point),
    /// Say the text.
    Write(String),
    /// Take the colour with these red, green and blue parts.
    ChangeColor(i32, i32, i32),
    /// Say the text.
    Echo(String),
}

impl Message {
    /// The message as a line of text. The lines of `Move` and `ChangeColor`
    /// end after the last number, without a closing bracket.
    pub open spec fn text(self) -> Seq<char> {
        match self {
            Message::Quit => "Quit"@,
            Message::Move(p) => "Move("@ + nat_text(p.x as nat) + " "@ + nat_text(p.y as nat),
            Message::Write(s) => "Write("@ + s@ + ")"@,
            Message::ChangeColor(r, g, b) => "ChangeColor("@ + int_text(r as int) + ", "@
                + int_text(g as int) + ", "@ + int_text(b as int),
            Message::Echo(s) => "Echo("@ + s@ + ")"@,
        }
    }

    /// The text that a [`State`] says when it gets the message, if any.
    pub open spec fn said(self) -> Option<String> {
        match self {
            Message::Write(s) => Some(s),
            Message::Echo(s) => Some(s),
            _ => None,
        }
    }

    /// Writes the message out as a line of text.
    pub fn fmt(&self) -> (line: String)
        ensures
            line@ == self.text(),
    {
        let mut line = String::new();
        match self {
            Message::ChangeColor(r, g, b) => {
                line.append("ChangeColor(");
                push_int(&mut line, *r);
                line.append(", ");
                push_int(&mut line, *g);
                line.append(", ");
                push_int(&mut line, *b);
            },
            Message::Move(p) => {
                line.append("Move(");
                push_nat(&mut line, p.x as u32);
                line.append(" ");
                push_nat(&mut line, p.y as u32);
            },
            Message::Quit => {
                line.append("Quit");
            },
            Message::Write(s) => {
                line.append("Write(");
                line.append(s.as_str());
                line.append(")");
            },
            Message::Echo(s) => {
                line.append("Echo(");
                line.append(s.as_str());
                line.append(")");
            },
        }
        assert(line@ =~= self.text());
        line
    }
}

/// What a colour channel keeps of a colour part: the part itself from 0 to
/// 255, and otherwise what is left of it after taking away or adding 256
/// often enough.
pub open spec fn channel(part: i32) -> u8 {
    (part as int % 256) as u8
}

/// Cuts a colour part down to a channel.
fn to_channel(part: i32) -> (kept: u8)
    ensures
        kept == channel(part),
{
    proof {
        let low: i32 = part & 0xff;
        assert(part as u8 == low as u8) by (bit_vector)
            requires
                low == part & 0xff,
        ;
        assert(0 <= low < 256) by (bit_vector)
            requires
                low == part & 0xff,
        ;
        assert((part - low) % 256 == 0) by (bit_vector)
            requires
                low == part & 0xff,
        ;
    }
    #[verifier::truncate]
    (part as u8)
}

/// What the messages act on: a colour, a position, and whether to stop.
#[derive(Debug)]
pub struct State {
    pub color: (u8, u8, u8),
    pub position: Point,
    pub quit: bool,
}

impl State {
    /// The state after the message was handled.
    pub open spec fn after(self, message: Message) -> State {
        match message {
            Message::ChangeColor(r, g, b) => State {
                color: (channel(r), channel(g), channel(b)),
                ..self
            },
            Message::Move(p) => State { position: p, ..self },
            Message::Quit => State { quit: true, ..self },
            Message::Write(_) => self,
            Message::Echo(_) => self,
        }
    }

    /// Takes the colour.
    pub fn change_color(&mut self, color: (u8, u8, u8))
        ensures
            *final(self) == (State { color, ..*old(self) }),
    {
        self.color = color;
    }

    /// Stops.
    pub fn quit(&mut self)
        ensures
            *final(self) == (State { quit: true, ..*old(self) }),
    {
        self.quit = true;
    }

    /// Goes to the point.
    pub fn move_position(&mut self, p: Point)
        ensures
            *final(self) == (State { position: p, ..*old(self) }),
    {
        self.position = p;
    }

    /// Handles one message and returns the text to say, if the message asks
    /// for any.
    pub fn process(&mut self, message: Message) -> (said: Option<String>)
        ensures
            *final(self) == old(self).after(message),
            said == message.said(),
    {
        match message {
            Message::ChangeColor(r, g, b) => {
                self.change_color((to_channel(r), to_channel(g), to_channel(b)));
                None
            },
            Message::Move(p) => {
                self.move_position(Point { x: p.x, y: p.y });
                None
            },
            Message::Quit => {
                self.quit();
                None
            },
            Message::Echo(s) => Some(s),
            Message::Write(s) => Some(s),
        }
    }
}

/// Three sample messages: to stop, to go to (1, 2), and to take the colour
/// yellow.
pub open spec fn samples() -> Seq<Message> {
    seq![Message::Quit, Message::Move(Point { x: 1, y: 2 }), Message::ChangeColor(255, 255, 0)]
}

/// Writes out the three sample messages, one line each.
pub fn exercise1() -> (lines: Vec<String>)
    ensures
        lines@.len() == samples().len(),
        forall|i: int| 0 <= i < lines@.len() ==> lines@[i]@ == samples()[i].text(),
{
    let msgs = [
        Message::Quit,
        Message::Move(Point { x: 1, y: 2 }),
        Message::ChangeColor(255, 255, 0),
    ];
    let mut lines: Vec<String> = Vec::new();
    let mut i: usize = 0;
    while i < 3
        invariant
            i <= 3,
            msgs@ == samples(),
            lines@.len() == i,
            forall|j: int| 0 <= j < i ==> lines@[j]@ == samples()[j].text(),
        decreases 3 - i,
    {
        lines.push(msgs[i].fmt());
        i += 1;
    }
    lines
}

/// A point of the compass.
#[derive(Debug, PartialEq, Eq, Structural, Clone, Copy)]
pub enum Direction {
    North,
    East,
    South,
    West,
}

impl Direction {
    /// The direction that faces this one.
    pub open spec fn facing(self) -> Direction {
        match self {
            Direction::North => Direction::South,
            Direction::East => Direction::West,
            Direction::South => Direction::North,
            Direction::West => Direction::East,
        }
    }

    /// Returns the direction that faces this one.
    pub fn opposite(&self) -> (facing: Direction)
        ensures
            facing == self.facing(),
    {
        match self {
            Direction::North => Direction::South,
            Direction::East => Direction::West,
            Direction::South => Direction::North,
            Direction::West => Direction::East,
        }
    }
}

/// Turning round twice faces the way one started, and turning round once
/// never does.
pub proof fn facing_is_an_involution(direction: Direction)
    ensures
        direction.facing().facing() == direction,
        direction.facing() != direction,
{
}

} // verus!
