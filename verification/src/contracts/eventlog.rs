//! Conditions for searching the event log of a contract.

use crate::types::ident::ScHname;
use vstd::prelude::*;

verus! {

/// The condition that `value` sets: none for zero, the value otherwise.
pub open spec fn nonzero(value: i64) -> Option<i64> {
    if value == 0 {
        None
    } else {
        Some(value)
    }
}

/// A parameter of an event search.
#[derive(Clone, Copy, Debug, PartialEq, Eq, Structural)]
pub enum FilterParam {
    /// The maximum number of records to return.
    MaxLastRecords,
    /// The latest timestamp to return.
    ToTs,
    /// The earliest timestamp to return.
    FromTs,
}

impl FilterParam {
    /// Returns the key under which the parameter is handed to the event log.
    pub fn key(self) -> (key: &'static str)
        ensures
            key@ == match self {
                FilterParam::MaxLastRecords => "maxLastRecords"@,
                FilterParam::ToTs => "toTs"@,
                FilterParam::FromTs => "fromTs"@,
            },
    {
        match self {
            FilterParam::MaxLastRecords => "maxLastRecords",
            FilterParam::ToTs => "toTs",
            FilterParam::FromTs => "fromTs",
        }
    }
}

/// A simple wrapper around the core event log contract, for the events of
/// one contract.
#[derive(Clone, Copy, Debug, PartialEq)]
pub struct EventLog(ScHname);

impl EventLog {
    /// The hash name of the contract whose events are looked at.
    pub closed spec fn spec_hname(&self) -> Seq<u8> {
        self.0@
    }

    /// Creates a new `EventLog` for the contract specified by `hname`.
    pub fn from_hname(hname: ScHname) -> (log: Self)
        ensures
            log.spec_hname() == hname@,
    {
        Self(hname)
    }

    /// Returns the hash name of the contract whose events are looked at.
    pub fn hname(&self) -> (hname: ScHname)
        ensures
            hname@ == self.spec_hname(),
    {
        self.0
    }

    /// Returns the name of the contract.
    pub fn name() -> (name: &'static str)
        ensures
            name@ == "eventlog"@,
    {
        "eventlog"
    }

    /// Returns the description of the contract.
    pub fn description() -> (text: &'static str)
        ensures
            text@ == "Event log Contract"@,
    {
        "Event log Contract"
    }

    /// Returns the conditions that a search for `filter` sends beside the
    /// hash name of the contract, in the order in which they are set.
    pub fn filter(&self, filter: EventFilter) -> (params: Vec<(FilterParam, i64)>)
        ensures
            params@ == filter.spec_params(),
    {
        filter.params()
    }
}

/// A set of conditions used for event filtering. A condition is either
/// absent or a number other than zero.
#[derive(Clone, Copy, Debug)]
pub struct EventFilter {
    ftime: Option<i64>,
    ttime: Option<i64>,
    count: Option<i64>,
}

impl EventFilter {
    #[verifier::type_invariant]
    spec fn no_zero(self) -> bool {
        self.ftime != Some(0i64) && self.ttime != Some(0i64) && self.count != Some(0i64)
    }

    /// The `from` timestamp, if one is set.
    pub closed spec fn from_ts(self) -> Option<i64> {
        self.ftime
    }

    /// The `to` timestamp, if one is set.
    pub closed spec fn to_ts(self) -> Option<i64> {
        self.ttime
    }

    /// The maximum number of records, if one is set.
    pub closed spec fn max_records(self) -> Option<i64> {
        self.count
    }

    /// The parameters that the filter sets, in the order in which they are
    /// handed over: the maximum number of records, the `to` timestamp, the
    /// `from` timestamp, each only where it is set.
    pub open spec fn spec_params(self) -> Seq<(FilterParam, i64)> {
        let count = match self.max_records() {
            Some(value) => seq![(FilterParam::MaxLastRecords, value)],
            None => Seq::<(FilterParam, i64)>::empty(),
        };
        let to = match self.to_ts() {
            Some(value) => seq![(FilterParam::ToTs, value)],
            None => Seq::<(FilterParam, i64)>::empty(),
        };
        let from = match self.from_ts() {
            Some(value) => seq![(FilterParam::FromTs, value)],
            None => Seq::<(FilterParam, i64)>::empty(),
        };
        count + to + from
    }

    /// Creates a new `EventFilter`.
    pub fn new() -> (filter: Self)
        ensures
            filter.from_ts().is_none(),
            filter.to_ts().is_none(),
            filter.max_records().is_none(),
    {
        Self { ftime: None, ttime: None, count: None }
    }

    /// Sets the `from` timestamp (default: 0).
    pub fn from(self, value: i64) -> (filter: Self)
        ensures
            filter.from_ts() == nonzero(value),
            filter.to_ts() == self.to_ts(),
            filter.max_records() == self.max_records(),
    {
        proof {
            use_type_invariant(self);
        }
        Self { ftime: if value == 0 { None } else { Some(value) }, ttime: self.ttime, count: self.count }
    }

    /// Sets the `to` timestamp (default: now).
    pub fn to(self, value: i64) -> (filter: Self)
        ensures
            filter.from_ts() == self.from_ts(),
            filter.to_ts() == nonzero(value),
            filter.max_records() == self.max_records(),
    {
        proof {
            use_type_invariant(self);
        }
        Self { ftime: self.ftime, ttime: if value == 0 { None } else { Some(value) }, count: self.count }
    }

    /// Sets the maximum number of records to return (default: 50).
    pub fn count(self, value: i64) -> (filter: Self)
        ensures
            filter.from_ts() == self.from_ts(),
            filter.to_ts() == self.to_ts(),
            filter.max_records() == nonzero(value),
    {
        proof {
            use_type_invariant(self);
        }
        Self { ftime: self.ftime, ttime: self.ttime, count: if value == 0 { None } else { Some(value) } }
    }

    /// Returns the parameters that the filter adds to a search, in the order
    /// in which they are set.
    pub fn params(&self) -> (params: Vec<(FilterParam, i64)>)
        ensures
            params@ == self.spec_params(),
            forall|i: int| 0 <= i < params@.len() ==> (#[trigger] params@[i]).1 != 0,
    {
        proof {
            use_type_invariant(self);
        }
        let mut params: Vec<(FilterParam, i64)> = Vec::new();
        if let Some(value) = self.count {
            params.push((FilterParam::MaxLastRecords, value));
        }
        if let Some(value) = self.ttime {
            params.push((FilterParam::ToTs, value));
        }
        if let Some(value) = self.ftime {
            params.push((FilterParam::FromTs, value));
        }
        assert(params@ =~= self.spec_params());
        params
    }
}

impl Default for EventFilter {
    fn default() -> (filter: Self)
        ensures
            filter.from_ts().is_none(),
            filter.to_ts().is_none(),
            filter.max_records().is_none(),
    {
        EventFilter::new()
    }
}

} // verus!
