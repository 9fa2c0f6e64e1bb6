//! The automaton core: states, actions, outcome classification and the
//! dispatch algorithm that drives one finite state machine.

use vstd::prelude::*;

use crate::text::contains_sub;
use crate::text::str_contains;
use crate::Error;

verus! {

/// The three triggers an automaton understands.
#[derive(Clone, Copy, Debug, PartialEq, Eq, Structural)]
pub enum Event {
    Init,
    Press,
    Poll,
}

/// Classification of one action run.
#[derive(Clone, Copy, Debug, PartialEq, Eq, Structural)]
pub enum Output {
    Success,
    Failure,
    Error,
}

/// A colour channel triple for a solid-colour display.
#[derive(Clone, Copy, Debug, PartialEq, Eq, Structural)]
pub struct Colour {
    pub r: u8,
    pub g: u8,
    pub b: u8,
}

/// Rendering options for an image display.
#[derive(Clone, Copy, Debug, PartialEq, Eq, Structural)]
pub struct ImageOptions {
    pub background: Option<Colour>,
    pub invert: bool,
}

/// What a control should show: a solid colour or an image file.
#[derive(Debug, PartialEq)]
pub enum Display {
    Colour(Colour),
    Image { file: String, options: ImageOptions },
}

/// What came back from running one external command.
///
/// `stdout` is the captured standard output decoded as text, or `None`
/// where it was not valid text.
#[derive(Debug, PartialEq)]
pub enum CmdResult {
    SpawnFailed,
    Finished { exit_ok: bool, stdout: Option<String> },
}

/// An action: an optional external command with its classification filters
/// and the transition table, one optional target per outcome kind.
#[derive(Debug, PartialEq)]
pub struct Exec {
    /// Command to be executed; absent means the action always succeeds.
    pub func: Option<String>,
    /// Command arguments.
    pub args: Vec<String>,
    /// If set, output lacking this substring downgrades a clean run to `Failure`.
    pub success_filter: Option<String>,
    /// If set, output containing this substring downgrades a clean run to `Failure`.
    pub failure_filter: Option<String>,
    /// State to change to on success.
    pub on_success: Option<String>,
    /// State to change to on failure.
    pub on_failure: Option<String>,
    /// State to change to on error.
    pub on_error: Option<String>,
}

impl Exec {
    /// How the filters judge decoded output from a clean exit.
    pub open spec fn filter_spec(self, out: Seq<char>) -> Output {
        if self.success_filter matches Some(f) && !contains_sub(out, f@) {
            Output::Failure
        } else if self.failure_filter matches Some(f) && contains_sub(out, f@) {
            Output::Failure
        } else {
            Output::Success
        }
    }

    /// The outcome of one run of this action: no bound command always
    /// succeeds; a spawn failure, unclean exit or undecodable output is an
    /// error; otherwise the filters decide.
    pub open spec fn classify_spec(self, run: CmdResult) -> Output {
        if self.func is None {
            Output::Success
        } else {
            match run {
                CmdResult::SpawnFailed => Output::Error,
                CmdResult::Finished { exit_ok, stdout } => {
                    if !exit_ok {
                        Output::Error
                    } else {
                        match stdout {
                            Option::None => Output::Error,
                            Option::Some(s) => self.filter_spec(s@),
                        }
                    }
                },
            }
        }
    }

    /// Classify what came back from running this action.
    pub fn classify(&self, run: &CmdResult) -> (o: Output)
        ensures
            o == self.classify_spec(*run),
    {
        if self.func.is_none() {
            return Output::Success;
        }
        match run {
            CmdResult::SpawnFailed => Output::Error,
            CmdResult::Finished { exit_ok, stdout } => {
                if !*exit_ok {
                    return Output::Error;
                }
                match stdout {
                    Option::None => Output::Error,
                    Option::Some(s) => {
                        if let Option::Some(f) = &self.success_filter {
                            if !str_contains(s.as_str(), f.as_str()) {
                                return Output::Failure;
                            }
                        }
                        if let Option::Some(f) = &self.failure_filter {
                            if str_contains(s.as_str(), f.as_str()) {
                                return Output::Failure;
                            }
                        }
                        Output::Success
                    },
                }
            },
        }
    }

    /// The transition target consulted for an outcome: exactly the one field
    /// matching the outcome kind, never a cascade.
    pub open spec fn target_for(self, o: Output) -> Option<String> {
        match o {
            Output::Success => self.on_success,
            Output::Failure => self.on_failure,
            Output::Error => self.on_error,
        }
    }

    /// Look up the transition target bound to an outcome.
    pub fn next_state(&self, o: &Output) -> (r: &Option<String>)
        ensures
            *r == self.target_for(*o),
    {
        match o {
            Output::Success => &self.on_success,
            Output::Failure => &self.on_failure,
            Output::Error => &self.on_error,
        }
    }
}

/// A named node: what to show while in it and what to do on press or poll.
#[derive(Debug, PartialEq)]
pub struct State {
    pub display: Option<Display>,
    /// On button press action.
    pub on_press: Option<Exec>,
    /// Periodic update action.
    pub on_poll: Option<Exec>,
}

/// The first state bound to `name`, scanning the entries in order.
pub open spec fn lookup_spec(entries: Seq<(String, State)>, name: Seq<char>) -> Option<State>
    decreases entries.len(),
{
    if entries.len() == 0 {
        Option::None
    } else if entries[0].0@ == name {
        Option::Some(entries[0].1)
    } else {
        lookup_spec(entries.drop_first(), name)
    }
}

/// Find the state bound to `name` among `entries`.
fn lookup<'a>(entries: &'a Vec<(String, State)>, name: &String) -> (r: Option<&'a State>)
    ensures
        match r {
            Option::Some(s) => lookup_spec(entries@, name@) == Option::Some(*s),
            Option::None => lookup_spec(entries@, name@) is None,
        },
{
    let n = entries.len();
    let mut i: usize = 0;
    proof {
        assert(entries@.skip(0) =~= entries@);
    }
    while i < n
        invariant
            i <= n,
            n == entries@.len(),
            lookup_spec(entries@, name@) == lookup_spec(entries@.skip(i as int), name@),
        decreases n - i,
    {
        if entries[i].0 == *name {
            proof {
                assert(entries@.skip(i as int)[0] == entries@[i as int]);
            }
            return Option::Some(&entries[i].1);
        }
        proof {
            assert(entries@.skip(i as int)[0] == entries@[i as int]);
            assert(entries@.skip(i as int).drop_first() =~= entries@.skip(i as int + 1));
        }
        i += 1;
    }
    proof {
        assert(entries@.skip(i as int) =~= Seq::<(String, State)>::empty());
    }
    Option::None
}

/// One finite state machine bound to a single control.
#[derive(Debug, PartialEq)]
pub struct Automata {
    /// Name of the current state.
    pub state: String,
    /// Initialisation action, run on `Event::Init` whatever the current state.
    pub on_init: Option<Exec>,
    /// The named states; names are unique, their order carries no meaning.
    pub states: Vec<(String, State)>,
}

/// The action an event selects: `Init` takes the automaton-level
/// initialisation action, `Press` and `Poll` the current state's binding.
pub open spec fn action_of(a: Automata, st: State, event: Event) -> Option<Exec> {
    match event {
        Event::Init => a.on_init,
        Event::Press => st.on_press,
        Event::Poll => st.on_poll,
    }
}

/// Everything one dispatch does: how the automaton after the call (`post`)
/// and the returned value relate to the automaton before it (`pre`) and to
/// the result of the external command. `Ok(true)` reports a transition, after
/// which the caller must render the new state's display.
pub open spec fn update_rel(
    pre: Automata,
    post: Automata,
    event: Event,
    run: CmdResult,
    r: Result<bool, Error>,
) -> bool {
    match lookup_spec(pre.states@, pre.state@) {
        Option::None => post == pre && r == Result::<bool, Error>::Err(Error::InvalidState),
        Option::Some(st) => match action_of(pre, st, event) {
            Option::None => post == pre && r == Result::<bool, Error>::Ok(false),
            Option::Some(e) => match e.target_for(e.classify_spec(run)) {
                Option::None => post == pre && r == Result::<bool, Error>::Ok(false),
                Option::Some(t) => {
                    &&& post.state@ == t@
                    &&& post.states == pre.states
                    &&& post.on_init == pre.on_init
                    &&& r == Result::<bool, Error>::Ok(true)
                },
            },
        },
    }
}

impl Automata {
    /// The named current state, or `InvalidState` where the name is bound to
    /// no state.
    pub fn get_state(&self) -> (r: Result<&State, Error>)
        ensures
            match r {
                Result::Ok(s) => lookup_spec(self.states@, self.state@) == Option::Some(*s),
                Result::Err(e) => {
                    &&& e == Error::InvalidState
                    &&& lookup_spec(self.states@, self.state@) is None
                },
            },
    {
        match lookup(&self.states, &self.state) {
            Option::Some(s) => Result::Ok(s),
            Option::None => Result::Err(Error::InvalidState),
        }
    }

    /// The action binding an event selects, resolved against the current
    /// state: the caller runs its command, then hands the result to `update`.
    pub fn action(&self, event: Event) -> (r: Result<&Option<Exec>, Error>)
        ensures
            match r {
                Result::Ok(e) => (lookup_spec(self.states@, self.state@) matches Option::Some(st)
                    && *e == action_of(*self, st, event)),
                Result::Err(err) => {
                    &&& err == Error::InvalidState
                    &&& lookup_spec(self.states@, self.state@) is None
                },
            },
    {
        let st = match lookup(&self.states, &self.state) {
            Option::Some(s) => s,
            Option::None => {
                return Result::Err(Error::InvalidState);
            },
        };
        match event {
            Event::Init => Result::Ok(&self.on_init),
            Event::Press => Result::Ok(&st.on_press),
            Event::Poll => Result::Ok(&st.on_poll),
        }
    }

    /// Dispatch one event given the result of the external command the
    /// selected action ran (`run` is ignored where no command is bound).
    /// Returns whether a transition occurred; after `Ok(true)` the caller
    /// must render the new current state.
    pub fn update(&mut self, event: Event, run: &CmdResult) -> (r: Result<bool, Error>)
        ensures
            update_rel(*old(self), *final(self), event, *run, r),
    {
        let st = match lookup(&self.states, &self.state) {
            Option::Some(s) => s,
            Option::None => {
                return Result::Err(Error::InvalidState);
            },
        };

        let action = match event {
            Event::Init => &self.on_init,
            Event::Press => &st.on_press,
            Event::Poll => &st.on_poll,
        };

        let e = match action {
            Option::Some(e) => e,
            Option::None => {
                return Result::Ok(false);
            },
        };

        let res = e.classify(run);

        let next = match e.next_state(&res) {
            Option::Some(s) => s,
            Option::None => {
                return Result::Ok(false);
            },
        };

        let next = next.clone();
        self.state = next;
        Result::Ok(true)
    }

    /// Dispatch the initialisation event.
    pub fn on_init(&mut self, run: &CmdResult) -> (r: Result<bool, Error>)
        ensures
            update_rel(*old(self), *final(self), Event::Init, *run, r),
    {
        self.update(Event::Init, run)
    }

    /// Dispatch a button press.
    pub fn on_press(&mut self, run: &CmdResult) -> (r: Result<bool, Error>)
        ensures
            update_rel(*old(self), *final(self), Event::Press, *run, r),
    {
        self.update(Event::Press, run)
    }

    /// Dispatch a periodic poll.
    pub fn on_poll(&mut self, run: &CmdResult) -> (r: Result<bool, Error>)
        ensures
            update_rel(*old(self), *final(self), Event::Poll, *run, r),
    {
        self.update(Event::Poll, run)
    }

    /// What the current state asks to have drawn: its display spec, absent
    /// where the state shows nothing. Resolving a current state bound to no
    /// state fails here, which is where a dangling transition target is
    /// finally caught.
    pub fn render(&self) -> (r: Result<&Option<Display>, Error>)
        ensures
            match r {
                Result::Ok(d) => {
                    lookup_spec(self.states@, self.state@) matches Option::Some(st)
                        && st.display == *d
                },
                Result::Err(e) => {
                    &&& e == Error::InvalidState
                    &&& lookup_spec(self.states@, self.state@) is None
                },
            },
    {
        let st = match lookup(&self.states, &self.state) {
            Option::Some(s) => s,
            Option::None => {
                return Result::Err(Error::InvalidState);
            },
        };
        Result::Ok(&st.display)
    }
}

} // verus!
