use vstd::prelude::*;
use vstd::string::*;

use crate::game::{apply_move, is_move_result, move_rejection, GameState, MoveError};
use crate::mark::{is_player, Mark, Outcome};

verus! {

/// The prompt shown before each line of input is read.
pub const PROMPT: &'static str = "Please enter your step";

/// The message shown for any refused input.
pub const INVALID_INPUT: &'static str = "Please enter a valid number";

/// Why a line of input names no playable position.
#[derive(Clone, Copy, Debug, PartialEq, Eq, Structural)]
pub enum ParseError {
    /// The text is not a non-negative decimal integer.
    Malformed,
    /// The number is greater than 8.
    OutOfRange,
}

/// Why a line of input did not become a move.
#[derive(Clone, Copy, Debug, PartialEq, Eq, Structural)]
pub enum StepError {
    Parse(ParseError),
    Move(MoveError),
}

/// An ASCII decimal digit.
pub open spec fn is_digit(c: char) -> bool {
    '0' <= c && c <= '9'
}

/// One or more decimal digits and nothing else.
pub open spec fn all_digits(s: Seq<char>) -> bool {
    s.len() > 0 && forall|i: int| 0 <= i < s.len() ==> is_digit(#[trigger] s[i])
}

/// The number that a string of decimal digits denotes.
pub open spec fn digits_value(s: Seq<char>) -> nat
    decreases s.len(),
{
    if s.len() == 0 {
        0
    } else {
        digits_value(s.drop_last()) * 10 + (s.last() as int - '0' as int) as nat
    }
}

/// The cell index that a line of input names, or why it names none.
pub open spec fn position_of(text: Seq<char>) -> Result<usize, ParseError> {
    if !all_digits(text) {
        Err(ParseError::Malformed)
    } else if digits_value(text) > 8 {
        Err(ParseError::OutOfRange)
    } else {
        Ok(digits_value(text) as usize)
    }
}

/// Reads a cell index from `text`, which holds a line of input without its
/// surrounding whitespace.
pub fn parse_position(text: &str) -> (r: Result<usize, ParseError>)
    ensures
        r == position_of(text@),
{
    let n = text.unicode_len();
    if n == 0 {
        return Err(ParseError::Malformed);
    }
    // `value` is the number read so far, held at 9 once it passes 8.
    let mut value: usize = 0;
    let mut i: usize = 0;
    while i < n
        invariant
            n == text@.len(),
            i <= n,
            forall|j: int| 0 <= j < i ==> is_digit(#[trigger] text@[j]),
            value == if digits_value(text@.take(i as int)) >= 9 {
                9
            } else {
                digits_value(text@.take(i as int))
            },
        decreases n - i,
    {
        let c = text.get_char(i);
        if !('0' <= c && c <= '9') {
            assert(!is_digit(text@[i as int]));
            return Err(ParseError::Malformed);
        }
        let d = (c as u32 - '0' as u32) as usize;
        assert(text@.take(i + 1).drop_last() =~= text@.take(i as int));
        if value < 9 {
            value = value * 10 + d;
            if value > 9 {
                value = 9;
            }
        }
        i += 1;
    }
    assert(text@.take(n as int) =~= text@);
    if value > 8 {
        Err(ParseError::OutOfRange)
    } else {
        Ok(value)
    }
}

/// Handles one line of input in a game that is still going on: the next
/// state, and the reason the line was refused, if it was. A refused line
/// leaves the state as it was.
pub fn play_input(state: GameState, text: &str) -> (r: (GameState, Option<StepError>))
    requires
        state.wf(),
        state.outcome is InProgress,
    ensures
        r.0.wf(),
        match position_of(text@) {
            Err(e) => r.0 == state && r.1 == Some(StepError::Parse(e)),
            Ok(p) => match move_rejection(state, p as int) {
                Some(e) => r.0 == state && r.1 == Some(StepError::Move(e)),
                None => r.1 is None && is_move_result(state, p as int, r.0),
            },
        },
{
    match parse_position(text) {
        Err(e) => (state, Some(StepError::Parse(e))),
        Ok(p) => match apply_move(state, p) {
            Err(e) => (state, Some(StepError::Move(e))),
            Ok(next) => (next, None),
        },
    }
}

/// The closing message of a decided game: `Draw`, `X wins` or `O wins`;
/// none while the game goes on.
pub fn announcement(outcome: Outcome) -> (r: Option<&'static str>)
    ensures
        outcome is InProgress <==> r is None,
        outcome is Draw ==> r->0@ == "Draw"@,
        outcome is FirstWins ==> r->0@ == "X wins"@,
        outcome is SecondWins ==> r->0@ == "O wins"@,
{
    match outcome {
        Outcome::InProgress => None,
        Outcome::Draw => Some("Draw"),
        Outcome::FirstWins => Some("X wins"),
        Outcome::SecondWins => Some("O wins"),
    }
}

/// The player who starts, from one fair binary draw: 0 gives the first player.
pub fn starting_player(draw: u32) -> (r: Mark)
    ensures
        r == if draw == 0 {
            Mark::First
        } else {
            Mark::Second
        },
        is_player(r),
{
    if draw == 0 {
        Mark::First
    } else {
        Mark::Second
    }
}

#[verifier::external_type_specification]
#[verifier::external_body]
pub struct ExThreadRng(rand::rngs::ThreadRng);

/// Relies on rand::thread_rng for the generator of this thread, seeded by
/// the system.
pub assume_specification[ rand::thread_rng ]() -> rand::rngs::ThreadRng;

/// Relies on rand::Rng::gen_range: a value drawn from `0..2` is 0 or 1.
#[verifier::external_body]
fn draw_below_two(rng: &mut rand::rngs::ThreadRng) -> (r: u32)
    ensures
        r < 2,
{
    rand::Rng::gen_range(rng, 0u32..2)
}

/// A new game with an empty board and a starting player drawn at random.
pub fn new_game() -> (r: GameState)
    ensures
        r.wf(),
        forall|i: int| 0 <= i < 9 ==> r.board@[i] == Mark::Empty,
        r.outcome == Outcome::InProgress,
{
    let mut rng = rand::thread_rng();
    let draw = draw_below_two(&mut rng);
    GameState::new(starting_player(draw))
}

} // verus!
