//! The rows in which a metastore keeps indexes and splits, and what is read
//! off a split's row without decoding its metadata.

use std::ops::RangeInclusive;
use vstd::prelude::*;

verus! {

/// The row of an index.
#[derive(Debug)]
pub struct Index {
    /// Index ID. It identifies the index when the metastore is queried.
    pub index_id: String,
    /// The index's metadata as JSON.
    pub index_metadata_json: String,
}

/// The row of a split.
#[derive(Debug)]
pub struct Split {
    /// Split ID.
    pub split_id: String,
    /// The state of the split: the one attribute of a split that changes.
    pub split_state: String,
    /// If the index has a timestamp field, the least timestamp in the split.
    pub start_time_range: Option<i64>,
    /// If the index has a timestamp field, the greatest timestamp in the
    /// split.
    pub end_time_range: Option<i64>,
    /// Tags by which groups of splits are found.
    pub tags: Vec<String>,
    /// The split's metadata and footer offsets as JSON.
    pub split_metadata_json: String,
    /// ID of the index the split belongs to.
    pub index_id: String,
}

/// Where a split is in its life.
#[derive(Clone, Copy, Debug, PartialEq, Eq, Structural)]
pub enum SplitState {
    /// The split is newly created.
    New,
    /// The split is almost ready; some of its files may be in storage.
    Staged,
    /// The split is ready and published.
    Published,
    /// The split is scheduled for deletion.
    ScheduledForDeletion,
}

impl SplitState {
    /// The state that a name stands for, if it is the name of a state.
    pub open spec fn named(name: Seq<char>) -> Option<SplitState> {
        if name == "New"@ {
            Some(SplitState::New)
        } else if name == "Staged"@ {
            Some(SplitState::Staged)
        } else if name == "Published"@ {
            Some(SplitState::Published)
        } else if name == "ScheduledForDeletion"@ {
            Some(SplitState::ScheduledForDeletion)
        } else {
            None
        }
    }

    /// Reads a state from its name.
    pub fn from_name(name: &String) -> (state: Option<SplitState>)
        ensures
            state == Self::named(name@),
    {
        if *name == String::from_str("New") {
            Some(SplitState::New)
        } else if *name == String::from_str("Staged") {
            Some(SplitState::Staged)
        } else if *name == String::from_str("Published") {
            Some(SplitState::Published)
        } else if *name == String::from_str("ScheduledForDeletion") {
            Some(SplitState::ScheduledForDeletion)
        } else {
            None
        }
    }
}

impl std::str::FromStr for SplitState {
    type Err = &'static str;

    fn from_str(input: &str) -> (state: Result<SplitState, &'static str>)
        ensures
            match SplitState::named(input@) {
                Some(named) => state == Ok::<SplitState, &'static str>(named),
                None => state is Err,
            },
    {
        match SplitState::from_name(&input.to_owned()) {
            Some(state) => Ok(state),
            None => Err("Unknown split state"),
        }
    }
}

impl Split {
    /// The time range of the split, where the row has both of its ends.
    pub open spec fn time_range(self) -> Option<(i64, i64)> {
        match (self.start_time_range, self.end_time_range) {
            (Some(start), Some(end)) => Some((start, end)),
            _ => None,
        }
    }

    /// Makes the time range from the two ends in the row. There is none
    /// unless the row has both.
    pub fn get_time_range(&self) -> (range: Option<RangeInclusive<i64>>)
        ensures
            match self.time_range() {
                Some((start, end)) => range matches Some(r) && r@.start == start && r@.end == end
                    && !r@.exhausted,
                None => range is None,
            },
    {
        match self.start_time_range {
            Some(start_time_range) => match self.end_time_range {
                Some(end_time_range) => Some(RangeInclusive::new(start_time_range, end_time_range)),
                None => None,
            },
            None => None,
        }
    }

    /// Reads the split's state from the row. There is none if the row does
    /// not name a state.
    pub fn get_split_state(&self) -> (state: Option<SplitState>)
        ensures
            state == SplitState::named(self.split_state@),
    {
        SplitState::from_name(&self.split_state)
    }
}

} // verus!
