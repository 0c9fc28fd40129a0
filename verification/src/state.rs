use vstd::prelude::*;

verus! {

/// Mathematical view of the persistent record: the convert fraction as an
/// unsigned 128-bit integer and the owner identity as a character sequence.
pub struct StateModel {
    pub convert_fraction: u128,
    pub owner: Seq<char>,
}

/// The single persistent record of the module: the integer percentage of
/// collected rewards to auto-convert, and the identity of the one principal
/// allowed to mutate it or trigger collection.
#[derive(Debug, PartialEq, Eq)]
pub struct State {
    pub convert_fraction: u128,
    pub owner: String,
}

impl View for State {
    type V = StateModel;

    open spec fn view(&self) -> StateModel {
        StateModel { convert_fraction: self.convert_fraction, owner: self.owner@ }
    }
}

impl State {
    /// An owned copy of the record, field for field.
    pub fn duplicate(&self) -> (r: State)
        ensures
            r@ == self@,
    {
        State { convert_fraction: self.convert_fraction, owner: self.owner.clone() }
    }
}

/// The host's transactional byte-keyed store, as this module sees it: the one
/// record it ever keeps under its fixed well-known key, or nothing before
/// initialization. The host serializes invocations, so one call owns the
/// store for its whole duration.
pub struct Storage {
    state: Option<State>,
}

impl View for Storage {
    type V = Option<StateModel>;

    closed spec fn view(&self) -> Option<StateModel> {
        match self.state {
            Some(s) => Some(s@),
            None => None,
        }
    }
}

impl Storage {
    /// A store to which nothing has been written yet.
    pub fn new() -> (s: Storage)
        ensures
            s@ is None,
    {
        Storage { state: None }
    }

    /// Read under the fixed key: an owned copy of the record, if one has
    /// been written — the host's `get` hands out owned bytes the same way.
    pub fn load(&self) -> (r: Option<State>)
        ensures
            match r {
                Some(s) => self@ == Some(s@),
                None => self@ is None,
            },
    {
        match &self.state {
            Some(s) => Some(s.duplicate()),
            None => None,
        }
    }

    /// Write under the fixed key: overwrites whatever record was there.
    pub fn save(&mut self, s: State)
        ensures
            final(self)@ == Some(s@),
    {
        self.state = Some(s);
    }
}

} // verus!
