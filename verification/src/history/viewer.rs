use vstd::prelude::*;
use crate::parser::tokens::{eq_lit, parse_usize, parse_usize_spec};
use crate::utils::text::chars_of;

verus! {

/// What the history viewer tells the user before waiting for Enter.
#[derive(Copy, Clone, PartialEq, Eq, Structural, Debug)]
pub enum ViewerNotice {
    /// Enter was pressed on the last turn.
    LastTurn,
    /// There is no turn before the first.
    FirstTurn,
    /// A jump asked for a turn past the last one.
    InvalidTurn(usize),
    /// A jump was not followed by a number.
    ParseError,
    UnknownCommand,
}

/// What the history viewer does after a command.
#[derive(Copy, Clone, PartialEq, Eq, Structural, Debug)]
pub enum ViewerStep {
    /// Show the turn with this number.
    Show(usize),
    /// Keep the turn, tell the user something and wait for Enter.
    Notice(ViewerNotice),
    /// Close the viewer.
    Quit,
}

/// The viewer's answer to `command` (already trimmed and in lower case) when
/// it shows turn `current` of `count` turns: the commands are n(ext) or an
/// empty line, p(rev), f(irst), l(ast), q(uit) or exit, and `j <n>`.
pub open spec fn viewer_answer(current: usize, count: usize, command: Seq<char>) -> ViewerStep {
    if command == "n"@ || command == "next"@ || command.len() == 0 {
        if current + 1 < count {
            ViewerStep::Show((current + 1) as usize)
        } else if command.len() == 0 {
            ViewerStep::Notice(ViewerNotice::LastTurn)
        } else {
            ViewerStep::Show(current)
        }
    } else if command == "p"@ || command == "prev"@ {
        if current > 0 {
            ViewerStep::Show((current - 1) as usize)
        } else {
            ViewerStep::Notice(ViewerNotice::FirstTurn)
        }
    } else if command == "f"@ || command == "first"@ {
        ViewerStep::Show(0)
    } else if command == "l"@ || command == "last"@ {
        ViewerStep::Show((count - 1) as usize)
    } else if command == "q"@ || command == "quit"@ || command == "exit"@ {
        ViewerStep::Quit
    } else if command.len() >= 2 && command[0] == 'j' && command[1] == ' ' {
        match parse_usize_spec(command.skip(2)) {
            Some(t) => if t < count {
                ViewerStep::Show(t)
            } else {
                ViewerStep::Notice(ViewerNotice::InvalidTurn(t))
            },
            None => ViewerStep::Notice(ViewerNotice::ParseError),
        }
    } else {
        ViewerStep::Notice(ViewerNotice::UnknownCommand)
    }
}

/// Decides what the history viewer does with a command, given the turn it
/// shows and the number of turns it can show.
pub fn viewer_step(current: usize, count: usize, command: &str) -> (r: ViewerStep)
    requires
        current < count,
    ensures
        r == viewer_answer(current, count, command@),
{
    let c = chars_of(command);
    if eq_lit(&c, "n") || eq_lit(&c, "next") || c.len() == 0 {
        if current + 1 < count {
            ViewerStep::Show(current + 1)
        } else if c.len() == 0 {
            ViewerStep::Notice(ViewerNotice::LastTurn)
        } else {
            ViewerStep::Show(current)
        }
    } else if eq_lit(&c, "p") || eq_lit(&c, "prev") {
        if current > 0 {
            ViewerStep::Show(current - 1)
        } else {
            ViewerStep::Notice(ViewerNotice::FirstTurn)
        }
    } else if eq_lit(&c, "f") || eq_lit(&c, "first") {
        ViewerStep::Show(0)
    } else if eq_lit(&c, "l") || eq_lit(&c, "last") {
        ViewerStep::Show(count - 1)
    } else if eq_lit(&c, "q") || eq_lit(&c, "quit") || eq_lit(&c, "exit") {
        ViewerStep::Quit
    } else if c.len() >= 2 && c[0] == 'j' && c[1] == ' ' {
        let mut rest: Vec<char> = Vec::new();
        let mut i: usize = 2;
        while i < c.len()
            invariant
                2 <= i <= c.len(),
                rest@ == c@.subrange(2, i as int),
            decreases c.len() - i,
        {
            rest.push(c[i]);
            proof {
                assert(rest@ =~= c@.subrange(2, i + 1));
            }
            i = i + 1;
        }
        proof {
            assert(rest@ =~= c@.skip(2));
        }
        match parse_usize(&rest) {
            Some(t) => if t < count {
                ViewerStep::Show(t)
            } else {
                ViewerStep::Notice(ViewerNotice::InvalidTurn(t))
            },
            None => ViewerStep::Notice(ViewerNotice::ParseError),
        }
    } else {
        ViewerStep::Notice(ViewerNotice::UnknownCommand)
    }
}

/// The viewer never leaves the turns it can show: every turn it moves to is
/// one of them.
pub proof fn lemma_viewer_stays_in_range(current: usize, count: usize, command: Seq<char>)
    requires
        current < count,
    ensures
        viewer_answer(current, count, command) matches ViewerStep::Show(t) ==> t < count,
{
}

} // verus!
