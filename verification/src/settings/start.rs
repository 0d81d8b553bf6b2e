//! The settings that decide how a server is started.
use crate::settings::store_format::{GameSettings, StoreView};
use crate::text::str_equal;
use vstd::prelude::*;
use vstd::string::StringExecFns;

verus! {

/// How a server is started: the combination of the `--create`, `--start-server`,
/// `--start-server-load-latest` and `--start-server-load-scenario` command line options.
#[derive(Clone, Copy, Debug, PartialEq, Eq, Structural)]
pub enum StartBehaviour {
    /// `--start-server-load-latest`.
    LoadLatest,
    /// `--start-server`.
    LoadFile,
    /// `--start-server-load-scenario`.
    LoadScenario,
    /// `--create`.
    Create,
}

/// The start settings.
#[derive(Debug, PartialEq, Eq)]
pub struct Start {
    /// The save or scenario name to use.
    pub save_name: String,
    /// The start behaviour.
    pub behaviour: StartBehaviour,
    /// Whether to start the server automatically.
    pub auto: bool,
}

/// The meaning of a [`Start`].
pub struct StartView {
    pub save_name: Seq<char>,
    pub behaviour: StartBehaviour,
    pub auto: bool,
}

impl View for Start {
    type V = StartView;

    open spec fn view(&self) -> StartView {
        StartView { save_name: self.save_name@, behaviour: self.behaviour, auto: self.auto }
    }
}

/// The name of a start behaviour, as it is stored.
pub open spec fn start_behaviour_name(b: StartBehaviour) -> Seq<char> {
    match b {
        StartBehaviour::LoadLatest => "LoadLatest"@,
        StartBehaviour::LoadFile => "LoadFile"@,
        StartBehaviour::LoadScenario => "LoadScenario"@,
        StartBehaviour::Create => "Create"@,
    }
}

/// The start behaviour with a stored name.
pub open spec fn start_behaviour_named(s: Seq<char>) -> Option<StartBehaviour> {
    if s == "LoadLatest"@ {
        Some(StartBehaviour::LoadLatest)
    } else if s == "LoadFile"@ {
        Some(StartBehaviour::LoadFile)
    } else if s == "LoadScenario"@ {
        Some(StartBehaviour::LoadScenario)
    } else if s == "Create"@ {
        Some(StartBehaviour::Create)
    } else {
        None
    }
}

/// Each start behaviour is stored under the name of its variant, and that name reads back as
/// the behaviour.
pub proof fn law_start_behaviour_name_roundtrip(b: StartBehaviour)
    ensures
        start_behaviour_name(StartBehaviour::LoadLatest) == "LoadLatest"@,
        start_behaviour_name(StartBehaviour::LoadFile) == "LoadFile"@,
        start_behaviour_name(StartBehaviour::LoadScenario) == "LoadScenario"@,
        start_behaviour_name(StartBehaviour::Create) == "Create"@,
        start_behaviour_named(start_behaviour_name(b)) == Some(b),
{
    reveal_strlit("LoadLatest");
    reveal_strlit("LoadFile");
    reveal_strlit("LoadScenario");
    reveal_strlit("Create");
    assert("LoadFile"@[4] != "LoadLatest"@[4]);
    assert("LoadScenario"@.len() != "LoadLatest"@.len());
    assert("LoadScenario"@.len() != "LoadFile"@.len());
    assert("Create"@.len() != "LoadLatest"@.len());
    assert("Create"@.len() != "LoadFile"@.len());
    assert("Create"@.len() != "LoadScenario"@.len());
}

impl Default for StartBehaviour {
    fn default() -> (r: Self)
        ensures
            r == StartBehaviour::LoadLatest,
    {
        StartBehaviour::LoadLatest
    }
}

impl StartBehaviour {
    /// The name of this start behaviour, as it is stored.
    pub fn to_string(&self) -> (r: String)
        ensures
            r@ == start_behaviour_name(*self),
    {
        let s = match self {
            StartBehaviour::LoadLatest => "LoadLatest",
            StartBehaviour::LoadFile => "LoadFile",
            StartBehaviour::LoadScenario => "LoadScenario",
            StartBehaviour::Create => "Create",
        };
        String::from_str(s)
    }

    /// The start behaviour with a stored name, if any.
    pub fn from_name(s: &str) -> (r: Option<StartBehaviour>)
        ensures
            r == start_behaviour_named(s@),
    {
        if str_equal(s, "LoadLatest") {
            Some(StartBehaviour::LoadLatest)
        } else if str_equal(s, "LoadFile") {
            Some(StartBehaviour::LoadFile)
        } else if str_equal(s, "LoadScenario") {
            Some(StartBehaviour::LoadScenario)
        } else if str_equal(s, "Create") {
            Some(StartBehaviour::Create)
        } else {
            None
        }
    }
}

impl Default for Start {
    fn default() -> (r: Self)
        ensures
            r@ == (StartView {
                save_name: Seq::empty(),
                behaviour: StartBehaviour::LoadLatest,
                auto: false,
            }),
    {
        Start { save_name: String::new(), behaviour: StartBehaviour::LoadLatest, auto: false }
    }
}

impl Start {
    /// Returns the start settings of a stored game's settings.
    pub fn from_store_format(store_format: &GameSettings) -> (r: Self)
        ensures
            r@ == (StartView {
                save_name: store_format@.save_name,
                behaviour: store_format@.start_behaviour,
                auto: store_format@.auto_start,
            }),
    {
        Start {
            save_name: store_format.save_name.clone(),
            behaviour: store_format.start_behaviour,
            auto: store_format.auto_start,
        }
    }

    /// Writes these start settings into a stored game's settings.
    pub fn to_store_format(&self, store_format: &mut GameSettings)
        ensures
            final(store_format)@ == (StoreView {
                save_name: self@.save_name,
                start_behaviour: self.behaviour,
                auto_start: self.auto,
                ..old(store_format)@
            }),
    {
        store_format.save_name = self.save_name.clone();
        store_format.start_behaviour = self.behaviour;
        store_format.auto_start = self.auto;
    }
}

} // verus!
