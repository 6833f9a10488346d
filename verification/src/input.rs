//! The input loop's state machine.
//!
//! The loop reads one byte at a time from standard input and dispatches on
//! its value: `a` prints a fixed line, `b` reports the size query's result,
//! `c` redraws the frame, a newline terminates the loop, any other byte
//! echoes its own decimal value, and a read error is ignored.

use vstd::prelude::*;
use crate::text::dec_rep;
use crate::text::u16_to_string;

verus! {

use vstd::string::StringExecFns;

/// Whether the input loop keeps running after a step.
#[derive(Clone, Copy, Debug, PartialEq, Eq, Structural)]
pub enum LoopState {
    Running,
    Terminated,
}

/// What one input step asks the surrounding loop to do.
#[derive(Clone, Copy, Debug, PartialEq, Eq, Structural)]
pub enum InputAction {
    /// Print the fixed greeting line.
    Greet,
    /// Print the result of a fresh size query.
    ReportSize,
    /// Perform one redraw.
    Redraw,
    /// Print the byte's own decimal value.
    Echo(u8),
    /// Print nothing: a read error, or the terminating newline.
    Nothing,
}

/// The transition of the input loop on one read: `None` stands for a read
/// error, which is silently ignored.
pub open spec fn step_spec(input: Option<u8>) -> (LoopState, InputAction) {
    match input {
        Some(97u8) => (LoopState::Running, InputAction::Greet),
        Some(98u8) => (LoopState::Running, InputAction::ReportSize),
        Some(99u8) => (LoopState::Running, InputAction::Redraw),
        Some(10u8) => (LoopState::Terminated, InputAction::Nothing),
        Some(b) => (LoopState::Running, InputAction::Echo(b)),
        None => (LoopState::Running, InputAction::Nothing),
    }
}

/// Dispatch one read from standard input.
pub fn loop_step(input: Option<u8>) -> (r: (LoopState, InputAction))
    ensures
        r == step_spec(input),
{
    match input {
        Some(b) => {
            if b == 97 {
                (LoopState::Running, InputAction::Greet)
            } else if b == 98 {
                (LoopState::Running, InputAction::ReportSize)
            } else if b == 99 {
                (LoopState::Running, InputAction::Redraw)
            } else if b == 10 {
                (LoopState::Terminated, InputAction::Nothing)
            } else {
                (LoopState::Running, InputAction::Echo(b))
            }
        },
        None => (LoopState::Running, InputAction::Nothing),
    }
}

/// Byte 97 and only byte 97 greets, byte 98 and only byte 98 reports the
/// size, byte 99 and only byte 99 triggers a redraw, byte 10 and only byte
/// 10 terminates the loop, and every other byte echoes its own value while
/// the loop keeps running.
pub proof fn lemma_input_dispatch(input: Option<u8>)
    ensures
        step_spec(input).1 == InputAction::Greet <==> input == Some(97u8),
        step_spec(input).1 == InputAction::ReportSize <==> input == Some(98u8),
        step_spec(input).1 == InputAction::Redraw <==> input == Some(99u8),
        step_spec(input).0 == LoopState::Terminated <==> input == Some(10u8),
        forall|b: u8|
            b != 97 && b != 98 && b != 99 && b != 10 ==> #[trigger] step_spec(Some(b)) == (
            LoopState::Running,
            InputAction::Echo(b),
            ),
{
}

/// The fixed line printed for input byte 97.
pub open spec fn greeting_text() -> Seq<char> {
    "AAAAAA!"@
}

/// The greeting line itself.
pub fn greeting() -> (r: &'static str)
    ensures
        r@ == greeting_text(),
{
    "AAAAAA!"
}

/// The line printed for a byte outside the recognized set: the text
/// `"You have hit: "` followed by the byte's decimal value.
pub open spec fn echo_text(b: nat) -> Seq<char> {
    "You have hit: "@ + dec_rep(b)
}

/// The echo line for one unrecognized byte.
pub fn echo_message(b: u8) -> (r: String)
    ensures
        r@ == echo_text(b as nat),
{
    let mut s = "You have hit: ".to_owned();
    let digits = u16_to_string(b as u16);
    s.append(digits.as_str());
    s
}

/// The line printed for input byte 98: the size query's outcome, a
/// successful one as `Ok((cols, rows))`, a failed one as `Err(text)` around
/// the query's error text.
pub open spec fn size_report_text(size: Result<(u16, u16), Seq<char>>) -> Seq<char> {
    match size {
        Ok(d) => "Ok(("@ + dec_rep(d.0 as nat) + ", "@ + dec_rep(d.1 as nat) + "))"@,
        Err(e) => "Err("@ + e + ")"@,
    }
}

/// Format the size query's outcome for input byte 98.
pub fn size_report(size: Result<(u16, u16), String>) -> (r: String)
    ensures
        size matches Ok(d) ==> r@ == size_report_text(Ok(d)),
        size matches Err(e) ==> r@ == size_report_text(Err(e@)),
{
    match size {
        Ok((cols, rows)) => {
            let mut s = "Ok((".to_owned();
            let col_digits = u16_to_string(cols);
            s.append(col_digits.as_str());
            s.append(", ");
            let row_digits = u16_to_string(rows);
            s.append(row_digits.as_str());
            s.append("))");
            proof {
                assert(s@ =~= size_report_text(Ok((cols, rows))));
            }
            s
        },
        Err(e) => {
            let mut s = "Err(".to_owned();
            s.append(e.as_str());
            s.append(")");
            proof {
                assert(s@ =~= size_report_text(Err::<(u16, u16), Seq<char>>(e@)));
            }
            s
        },
    }
}

} // verus!
