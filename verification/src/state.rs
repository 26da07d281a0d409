//! The control-zone lifecycle state machine.

use vstd::prelude::*;

use crate::error::CzError;
use crate::text::str_eq;

verus! {

/// Lifecycle state of a control zone, persisted as a one-line text file.
#[derive(Debug, Copy, Clone, PartialEq, Eq, Structural)]
pub enum State {
    Pending,
    Created,
    Running,
    Stopped,
    Zombied,
    Error,
}

impl Default for State {
    fn default() -> (r: Self)
        ensures
            r == State::Pending,
    {
        State::Pending
    }
}

/// The exact set of legal lifecycle transitions.  A same-state request is not
/// an edge; it is the distinct "stale" outcome of [`State::check_update`].
pub open spec fn transition_allowed(from: State, to: State) -> bool {
    ||| (from == State::Pending && to == State::Created)
    ||| (from == State::Created && to == State::Running)
    ||| (from == State::Running && to == State::Stopped)
    ||| (from == State::Running && to == State::Error)
    ||| (from == State::Stopped && to == State::Running)
    ||| (from == State::Stopped && to == State::Zombied)
    ||| (from == State::Created && to == State::Zombied)
}

impl State {
    /// Gatekeeper for every lifecycle transition.
    ///
    /// `Ok(true)` means the zone already is in the requested state (stale,
    /// no-op); `Ok(false)` means the transition is legal and should be
    /// carried out; any other request is refused.
    pub fn check_update(&self, new_state: State) -> (r: Result<bool, CzError>)
        ensures
            *self == new_state ==> r == Result::<bool, CzError>::Ok(true),
            *self != new_state && transition_allowed(*self, new_state) ==> r
                == Result::<bool, CzError>::Ok(false),
            *self != new_state && !transition_allowed(*self, new_state) ==> r
                == Result::<bool, CzError>::Err(
                CzError::IllegalTransition { from: *self, to: new_state },
            ),
    {
        if *self == new_state {
            return Ok(true);
        }
        match (self, new_state) {
            (State::Pending, State::Created) => Ok(false),
            (State::Created, State::Running) => Ok(false),
            (State::Running, State::Stopped) => Ok(false),
            (State::Running, State::Error) => Ok(false),
            (State::Stopped, State::Running) => Ok(false),
            (State::Stopped, State::Zombied) => Ok(false),
            (State::Created, State::Zombied) => Ok(false),
            _ => Err(CzError::IllegalTransition { from: *self, to: new_state }),
        }
    }
}

/// The display name of a state, the exact text of the state sidecar file.
pub open spec fn spec_state_text(s: State) -> Seq<char> {
    match s {
        State::Pending => "Pending"@,
        State::Created => "Created"@,
        State::Running => "Running"@,
        State::Stopped => "Stopped"@,
        State::Zombied => "Zombied"@,
        State::Error => "Error"@,
    }
}

/// The state a sidecar file's text names, if any.
pub open spec fn spec_state_parse(t: Seq<char>) -> Option<State> {
    if t == "Pending"@ {
        Some(State::Pending)
    } else if t == "Created"@ {
        Some(State::Created)
    } else if t == "Running"@ {
        Some(State::Running)
    } else if t == "Stopped"@ {
        Some(State::Stopped)
    } else if t == "Zombied"@ {
        Some(State::Zombied)
    } else if t == "Error"@ {
        Some(State::Error)
    } else {
        None
    }
}

impl State {
    /// The one-line text under which this state is persisted.
    pub fn to_text(&self) -> (r: String)
        ensures
            r@ == spec_state_text(*self),
    {
        match self {
            State::Pending => String::from_str("Pending"),
            State::Created => String::from_str("Created"),
            State::Running => String::from_str("Running"),
            State::Stopped => String::from_str("Stopped"),
            State::Zombied => String::from_str("Zombied"),
            State::Error => String::from_str("Error"),
        }
    }

    /// Reads a state back from its persisted text; any other text is
    /// refused.
    pub fn from_text(t: &str) -> (r: Result<State, CzError>)
        ensures
            r == match spec_state_parse(t@) {
                Some(s) => Result::<State, CzError>::Ok(s),
                None => Result::<State, CzError>::Err(CzError::InvalidState),
            },
    {
        if str_eq(t, "Pending") {
            Ok(State::Pending)
        } else if str_eq(t, "Created") {
            Ok(State::Created)
        } else if str_eq(t, "Running") {
            Ok(State::Running)
        } else if str_eq(t, "Stopped") {
            Ok(State::Stopped)
        } else if str_eq(t, "Zombied") {
            Ok(State::Zombied)
        } else if str_eq(t, "Error") {
            Ok(State::Error)
        } else {
            Err(CzError::InvalidState)
        }
    }
}

/// Persisting a state and reading the sidecar back always restores the same
/// state: the text encoding round-trips.
pub proof fn lemma_state_text_round_trip(s: State)
    ensures
        spec_state_parse(spec_state_text(s)) == Some(s),
{
    reveal_strlit("Pending");
    reveal_strlit("Created");
    reveal_strlit("Running");
    reveal_strlit("Stopped");
    reveal_strlit("Zombied");
    reveal_strlit("Error");
    assert("Created"@ != "Pending"@) by {
        assert("Created"@[0] != "Pending"@[0]);
    }
    assert("Running"@ != "Pending"@) by {
        assert("Running"@[0] != "Pending"@[0]);
    }
    assert("Running"@ != "Created"@) by {
        assert("Running"@[0] != "Created"@[0]);
    }
    assert("Stopped"@ != "Pending"@) by {
        assert("Stopped"@[0] != "Pending"@[0]);
    }
    assert("Stopped"@ != "Created"@) by {
        assert("Stopped"@[0] != "Created"@[0]);
    }
    assert("Stopped"@ != "Running"@) by {
        assert("Stopped"@[0] != "Running"@[0]);
    }
    assert("Zombied"@ != "Pending"@) by {
        assert("Zombied"@[0] != "Pending"@[0]);
    }
    assert("Zombied"@ != "Created"@) by {
        assert("Zombied"@[0] != "Created"@[0]);
    }
    assert("Zombied"@ != "Running"@) by {
        assert("Zombied"@[0] != "Running"@[0]);
    }
    assert("Zombied"@ != "Stopped"@) by {
        assert("Zombied"@[0] != "Stopped"@[0]);
    }
    assert("Error"@ != "Pending"@) by {
        assert("Error"@.len() != "Pending"@.len());
    }
    assert("Error"@ != "Created"@) by {
        assert("Error"@.len() != "Created"@.len());
    }
    assert("Error"@ != "Running"@) by {
        assert("Error"@.len() != "Running"@.len());
    }
    assert("Error"@ != "Stopped"@) by {
        assert("Error"@.len() != "Stopped"@.len());
    }
    assert("Error"@ != "Zombied"@) by {
        assert("Error"@.len() != "Zombied"@.len());
    }
}

} // verus!
