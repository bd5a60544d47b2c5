//! The environment of the analysis: what each reference leads to and how each
//! location has been referenced so far.

use crate::location::{Location, Selector};
use crate::location_map::LocationMap;
use crate::status::Status;
use vstd::prelude::*;

verus! {

/// The mathematical content of an environment at one point of the analysis.
pub struct Snapshot {
    /// The location that the reference stored at a location leads to.
    pub referents: Map<Location, Location>,
    /// The statuses recorded for a location, oldest first.
    pub statuses: Map<Location, Seq<Status>>,
}

impl Snapshot {
    /// The snapshot in which nothing is known.
    pub open spec fn empty() -> Snapshot {
        Snapshot { referents: Map::empty(), statuses: Map::empty() }
    }

    /// The canonical form of a location: every dereference of a location whose
    /// referent is known is replaced by that referent, innermost first.
    pub open spec fn canonical(self, location: Location) -> Location
        decreases location,
    {
        match location {
            Location::Local(_) => location,
            Location::Qualified { base, selector } => {
                let root = self.canonical(*base);
                if selector == Selector::Deref && self.referents.contains_key(root) {
                    self.referents[root]
                } else {
                    Location::Qualified { base: Box::new(root), selector }
                }
            },
        }
    }

    /// Two locations alias when they have the same canonical form.
    pub open spec fn aliases(self, first: Location, second: Location) -> bool {
        self.canonical(first) == self.canonical(second)
    }

    /// The record of `location`, if it has one.
    pub open spec fn status_at(self, location: Location) -> Option<Seq<Status>> {
        if self.statuses.contains_key(location) {
            Some(self.statuses[location])
        } else {
            None
        }
    }

    /// The statuses recorded for `location`, oldest first; none where it has no record.
    pub open spec fn recorded(self, location: Location) -> Seq<Status> {
        match self.status_at(location) {
            Some(statuses) => statuses,
            None => Seq::empty(),
        }
    }

    /// The snapshot after `status` has been appended to the record of `location`.
    pub open spec fn record(self, location: Location, status: Status) -> Snapshot {
        Snapshot {
            referents: self.referents,
            statuses: self.statuses.insert(location, self.recorded(location).push(status)),
        }
    }

    /// The snapshot after the reference stored at `holder` has been made to lead to `referent`.
    pub open spec fn bind(self, holder: Location, referent: Location) -> Snapshot {
        Snapshot { referents: self.referents.insert(holder, referent), statuses: self.statuses }
    }
}

/// The state that the analysis keeps along one path through the program.
pub struct Environment {
    referents: LocationMap<Location>,
    records: LocationMap<Vec<Status>>,
}

impl View for Environment {
    type V = Snapshot;

    closed spec fn view(&self) -> Snapshot {
        Snapshot {
            referents: self.referents@,
            statuses: self.records@.map_values(|statuses: Vec<Status>| statuses@),
        }
    }
}

impl Environment {
    /// The environment in which nothing is known.
    pub fn new() -> (environment: Environment)
        ensures
            environment@ == Snapshot::empty(),
    {
        let environment = Environment { referents: LocationMap::new(), records: LocationMap::new() };
        assert(environment@.statuses =~= Map::empty());
        environment
    }

    /// The location that the reference stored at `holder` leads to, if it is known.
    pub fn referent_of(&self, holder: &Location) -> (found: Option<&Location>)
        ensures
            found.is_some() == self@.referents.contains_key(*holder),
            found matches Some(referent) ==> *referent == self@.referents[*holder],
    {
        self.referents.get(holder)
    }

    /// Makes the reference stored at `holder` lead to `referent`.
    ///
    /// Dereferences are resolved through the canonical form of their base, so
    /// `holder` is found again only if it is canonical.
    pub fn bind_reference(&mut self, holder: Location, referent: Location)
        ensures
            final(self)@ == old(self)@.bind(holder, referent),
    {
        self.referents.insert(holder, referent);
    }

    /// The canonical form of `location`.
    pub fn canonicalize(&self, location: &Location) -> (canonical: Location)
        ensures
            canonical == self@.canonical(*location),
        decreases *location,
    {
        match location {
            Location::Local(ordinal) => Location::Local(*ordinal),
            Location::Qualified { base, selector } => {
                let root = self.canonicalize(base);
                match selector {
                    Selector::Deref => match self.referents.get(&root) {
                        Some(referent) => referent.clone(),
                        None => Location::Qualified { base: Box::new(root), selector: *selector },
                    },
                    _ => Location::Qualified { base: Box::new(root), selector: *selector },
                }
            },
        }
    }

    /// The statuses recorded for `location`, oldest first, if it has a record.
    pub fn status_at(&self, location: &Location) -> (found: Option<&Vec<Status>>)
        ensures
            match found {
                Some(statuses) => self@.status_at(*location) == Some(statuses@),
                None => self@.status_at(*location).is_none(),
            },
    {
        self.records.get(location)
    }

    /// Appends `status` to the record of `location`, which is created if there is none.
    pub fn update_status_at(&mut self, location: Location, status: Status)
        ensures
            final(self)@ == old(self)@.record(location, status),
    {
        let mut statuses = match self.records.remove(&location) {
            Some(statuses) => statuses,
            None => Vec::new(),
        };
        statuses.push(status);
        self.records.insert(location, statuses);
        assert(self@.statuses =~= old(self)@.record(location, status).statuses);
    }
}

impl Clone for Environment {
    /// An environment of its own with the same content, for a path of the
    /// analysis that forks off.
    fn clone(&self) -> (copy: Environment)
        ensures
            copy@ == self@,
    {
        let copy = Environment { referents: self.referents.clone(), records: self.records.clone() };
        assert(copy@.referents =~= self@.referents);
        assert(copy@.statuses =~= self@.statuses);
        copy
    }
}

} // verus!
