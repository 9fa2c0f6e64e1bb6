//! A verified core for a button-deck automation daemon: each physical control
//! is bound to one finite state machine that reacts to initialisation, press
//! and poll events by running an external command, classifying its result,
//! optionally transitioning state and asking for the control's display to be
//! refreshed. The device and the external commands live outside this crate;
//! the engine here decides, and reports what must be drawn or run.

use vstd::prelude::*;

pub mod automata;
pub mod laws;
pub mod text;

pub use automata::Automata;
pub use automata::CmdResult;
pub use automata::Colour;
pub use automata::Display;
pub use automata::Event;
pub use automata::Exec;
pub use automata::ImageOptions;
pub use automata::Output;
pub use automata::State;

verus! {

/// Fatal failures of the core: a state name bound to no state, or more
/// automata than the device has controls.
#[derive(Clone, Copy, Debug, PartialEq, Eq, Structural)]
pub enum Error {
    InvalidState,
    TooManyAutomata,
}

/// The dispatches a round owes for its presses: `(i, Press)` for every index
/// whose press bit is set among the first `n`, in ascending index order.
pub open spec fn press_plan_spec(buttons: Seq<u8>, n: nat) -> Seq<(usize, Event)>
    decreases n,
{
    if n == 0 {
        Seq::empty()
    } else {
        let rest = press_plan_spec(buttons, (n - 1) as nat);
        if buttons[n - 1] != 0 {
            rest.push((((n - 1) as usize), Event::Press))
        } else {
            rest
        }
    }
}

/// The dispatches a poll pass owes: `(i, Poll)` for every index under `n`,
/// in ascending index order.
pub open spec fn poll_plan_spec(n: nat) -> Seq<(usize, Event)>
    decreases n,
{
    if n == 0 {
        Seq::empty()
    } else {
        poll_plan_spec((n - 1) as nat).push((((n - 1) as usize), Event::Poll))
    }
}

/// A collection of automata, one per control index in order.
#[derive(Debug, PartialEq)]
pub struct Automation {
    pub automata: Vec<Automata>,
}

impl Automation {
    /// Refuse to start where the automata outnumber the device's controls.
    pub fn check_capacity(&self, keys: u8) -> (r: Result<(), Error>)
        ensures
            r is Ok <==> self.automata@.len() <= keys as nat,
            r is Err ==> r == Result::<(), Error>::Err(Error::TooManyAutomata),
    {
        if self.automata.len() > keys as usize {
            Result::Err(Error::TooManyAutomata)
        } else {
            Result::Ok(())
        }
    }

    /// The dispatches one round of the main loop owes, in order: a press for
    /// every set press bit, ascending, then — where the poll interval has
    /// elapsed — a poll for every automaton, ascending. A round with no input
    /// batch dispatches no press.
    pub fn round_plan(&self, buttons: &Option<Vec<u8>>, poll_due: bool) -> (plan: Vec<
        (usize, Event),
    >)
        requires
            *buttons matches Some(b) ==> b@.len() >= self.automata@.len(),
        ensures
            plan@ == (match *buttons {
                Option::Some(b) => press_plan_spec(b@, self.automata@.len()),
                Option::None => Seq::<(usize, Event)>::empty(),
            }) + (if poll_due {
                poll_plan_spec(self.automata@.len())
            } else {
                Seq::<(usize, Event)>::empty()
            }),
    {
        let n = self.automata.len();
        let mut plan: Vec<(usize, Event)> = Vec::new();

        if let Option::Some(b) = buttons {
            let mut i: usize = 0;
            while i < n
                invariant
                    i <= n,
                    n == self.automata@.len(),
                    b@.len() >= n,
                    plan@ == press_plan_spec(b@, i as nat),
                decreases n - i,
            {
                if b[i] != 0 {
                    plan.push((i, Event::Press));
                }
                i += 1;
            }
        }

        if poll_due {
            let ghost presses = plan@;
            let mut i: usize = 0;
            while i < n
                invariant
                    i <= n,
                    n == self.automata@.len(),
                    plan@ == presses + poll_plan_spec(i as nat),
                decreases n - i,
            {
                plan.push((i, Event::Poll));
                i += 1;
            }
            proof {
                assert(plan@ == presses + poll_plan_spec(n as nat));
            }
        } else {
            proof {
                assert(plan@ =~= plan@ + Seq::<(usize, Event)>::empty());
            }
        }
        plan
    }
}

} // verus!
