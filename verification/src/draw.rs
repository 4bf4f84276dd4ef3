//! The description of a frame as a list of drawing steps, and its encoding as the control
//! sequences that a terminal understands.

use vstd::prelude::*;
use crate::text::decimal;

verus! {

/// One step of drawing a frame.
#[derive(Debug, PartialEq, Eq)]
pub enum DrawOp {
    /// Clear the whole screen.
    Clear,
    /// Put the cursor at column `x` of row `y`.
    MoveTo { x: u16, y: u16 },
    /// Switch to the background colour of the bars.
    Highlight,
    /// Switch colours and styles back to the terminal's own.
    Reset,
    /// Write a text at the cursor.
    Text(String),
}

/// A drawing step, as a mathematical value.
pub enum Draw {
    Clear,
    MoveTo { x: u16, y: u16 },
    Highlight,
    Reset,
    Text(Seq<char>),
}

impl View for DrawOp {
    type V = Draw;

    open spec fn view(&self) -> Draw {
        match self {
            DrawOp::Clear => Draw::Clear,
            DrawOp::MoveTo { x, y } => Draw::MoveTo { x: *x, y: *y },
            DrawOp::Highlight => Draw::Highlight,
            DrawOp::Reset => Draw::Reset,
            DrawOp::Text(text) => Draw::Text(text@),
        }
    }
}

impl DeepView for DrawOp {
    type V = Draw;

    open spec fn deep_view(&self) -> Draw {
        self@
    }
}

/// The sequence that clears the whole screen.
pub open spec fn clear_code() -> Seq<char> {
    "\x1b[2J"@
}

/// The sequence that switches colours and styles back.
pub open spec fn reset_code() -> Seq<char> {
    "\x1b[m"@
}

/// The sequence that switches to a blue background.
pub open spec fn blue_code() -> Seq<char> {
    "\x1b[48;5;4m"@
}

/// The sequence that puts the cursor at column `x` of row `y`: the row comes first.
pub open spec fn move_code(x: u16, y: u16) -> Seq<char> {
    "\x1b["@ + decimal(y as nat) + ";"@ + decimal(x as nat) + "H"@
}

/// The characters that one step sends to the terminal, where `highlight` is the sequence
/// that switches to the background colour of the bars.
pub open spec fn op_code(op: Draw, highlight: Seq<char>) -> Seq<char> {
    match op {
        Draw::Clear => clear_code(),
        Draw::MoveTo { x, y } => move_code(x, y),
        Draw::Highlight => highlight,
        Draw::Reset => reset_code(),
        Draw::Text(text) => text,
    }
}

/// The characters that the steps send to the terminal, one step after the other.
pub open spec fn frame_code(ops: Seq<Draw>, highlight: Seq<char>) -> Seq<char>
    decreases ops.len(),
{
    if ops.len() == 0 {
        Seq::empty()
    } else {
        frame_code(ops.drop_last(), highlight) + op_code(ops.last(), highlight)
    }
}

/// Whether the steps can be encoded: a move to column 0 of row 0 has no encoding.
pub open spec fn encodable(ops: Seq<Draw>) -> bool {
    forall|i: int| 0 <= i < ops.len() ==> ops[i] != (Draw::MoveTo { x: 0, y: 0 })
}

/// `termion::clear::All` is displayed as the sequence that clears the whole screen.
#[verifier::external_body]
fn clear_sequence() -> (s: String)
    ensures
        s@ == clear_code(),
{
    format!("{}", termion::clear::All)
}

/// `termion::cursor::Goto` is displayed as the sequence that moves the cursor: the escape
/// character and a bracket, the row, a semicolon, the column, and the letter H, both
/// numbers in decimal. It refuses the position (0, 0).
#[verifier::external_body]
fn move_sequence(x: u16, y: u16) -> (s: String)
    requires
        x != 0 || y != 0,
    ensures
        s@ == move_code(x, y),
{
    format!("{}", termion::cursor::Goto(x, y))
}

/// `termion::color::Bg` of `termion::color::Blue` is displayed as the sequence that
/// switches to a blue background, or as nothing: the crate writes no colour where the
/// environment asks for none.
#[verifier::external_body]
fn highlight_sequence() -> (s: String)
    ensures
        s@ == blue_code() || s@ == Seq::<char>::empty(),
{
    format!("{}", termion::color::Bg(termion::color::Blue))
}

/// `termion::style::Reset` is displayed as the sequence that switches colours and styles
/// back.
#[verifier::external_body]
fn reset_sequence() -> (s: String)
    ensures
        s@ == reset_code(),
{
    format!("{}", termion::style::Reset)
}

/// Encodes the steps of a frame, with `highlight` as the sequence for the background of
/// the bars. There is no encoding where a step moves the cursor to column 0 of row 0.
pub fn encode_with(ops: &Vec<DrawOp>, highlight: &str) -> (r: Option<String>)
    ensures
        r is Some <==> encodable(ops.deep_view()),
        r matches Some(s) ==> s@ == frame_code(ops.deep_view(), highlight@),
{
    let mut out = String::new();
    let mut i: usize = 0;
    while i < ops.len()
        invariant
            i <= ops.len(),
            encodable(ops.deep_view().take(i as int)),
            out@ == frame_code(ops.deep_view().take(i as int), highlight@),
        decreases ops.len() - i,
    {
        let ghost before = ops.deep_view().take(i as int);
        let ghost after = ops.deep_view().take(i + 1);
        proof {
            assert(after.drop_last() =~= before);
            assert(after.last() == ops[i as int]@);
        }
        match &ops[i] {
            DrawOp::Clear => {
                let code = clear_sequence();
                out.append(code.as_str());
            },
            DrawOp::MoveTo { x, y } => {
                if *x == 0 && *y == 0 {
                    assert(ops.deep_view()[i as int] == (Draw::MoveTo { x: 0, y: 0 }));
                    return None;
                }
                let code = move_sequence(*x, *y);
                out.append(code.as_str());
            },
            DrawOp::Highlight => {
                out.append(highlight);
            },
            DrawOp::Reset => {
                let code = reset_sequence();
                out.append(code.as_str());
            },
            DrawOp::Text(text) => {
                out.append(text.as_str());
            },
        }
        i = i + 1;
    }
    assert(ops.deep_view().take(ops.len() as int) =~= ops.deep_view());
    Some(out)
}

/// Encodes the steps of a frame for the terminal. The bars get a blue background, or none
/// where the environment asks for no colour. There is no encoding where a step moves the
/// cursor to column 0 of row 0.
pub fn encode(ops: &Vec<DrawOp>) -> (r: Option<String>)
    ensures
        r is Some <==> encodable(ops.deep_view()),
        r matches Some(s) ==> s@ == frame_code(ops.deep_view(), blue_code()) || s@ == frame_code(
            ops.deep_view(),
            Seq::empty(),
        ),
{
    let highlight = highlight_sequence();
    encode_with(ops, highlight.as_str())
}

} // verus!
