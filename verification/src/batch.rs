//! A batch of rows: one row per label, taken in the order of the labels
//! until one fails.

use vstd::prelude::*;
use crate::row::{finish_row, replay_spec, Scramble, ScrambleError, ScrambleRow};

verus! {

/// The failure that ended a batch: the place of the label in the request
/// and what went wrong.
#[derive(Clone, Copy, Debug, PartialEq, Eq, Structural)]
pub struct BatchFailure {
    pub index: usize,
    pub error: ScrambleError,
}

/// A batch at work: the labels that were asked for, the rows finished so
/// far and the failure that ended the batch, if one did.
#[derive(Clone, Debug, PartialEq, Eq)]
pub struct Batch {
    pub labels: Vec<String>,
    pub rows: Vec<ScrambleRow>,
    pub failure: Option<BatchFailure>,
}

impl Batch {
    /// The rows stand in the order of the labels, each under its label, and
    /// a failure names the label after the last finished row.
    pub open spec fn well_formed(&self) -> bool {
        &&& self.rows@.len() <= self.labels@.len()
        &&& forall|i: int|
            0 <= i < self.rows@.len() ==> (#[trigger] self.rows@[i]).label@ == self.labels@[i]@
        &&& self.failure is Some ==> self.failure->0.index == self.rows@.len() && self.rows@.len()
            < self.labels@.len()
    }

    /// Every finished row has a text that leads from the solved board to
    /// the row's board, and a picture.
    pub open spec fn all_faithful(&self) -> bool {
        forall|i: int| 0 <= i < self.rows@.len() ==> (#[trigger] self.rows@[i]).faithful()
    }

    /// The place of the label that is due: the one after the last finished
    /// row, unless the batch has failed or every label has its row.
    pub open spec fn next_index_spec(&self) -> Option<usize> {
        if self.failure is None && self.rows@.len() < self.labels@.len() {
            Some(self.rows@.len() as usize)
        } else {
            None
        }
    }

    /// A batch for the given labels with nothing done yet.
    pub fn new(labels: Vec<String>) -> (r: Batch)
        ensures
            r.labels == labels,
            r.rows@.len() == 0,
            r.failure is None,
            r.well_formed(),
            r.all_faithful(),
    {
        Batch { labels, rows: Vec::new(), failure: None }
    }

    /// Whether the rows stand under their labels and a failure names the
    /// label that is due.
    pub fn check_well_formed(&self) -> (r: bool)
        ensures
            r == self.well_formed(),
    {
        let n: usize = self.rows.len();
        if n > self.labels.len() {
            return false;
        }
        let mut i: usize = 0;
        while i < n
            invariant
                n == self.rows@.len(),
                n <= self.labels@.len(),
                i <= n,
                forall|j: int|
                    0 <= j < i ==> (#[trigger] self.rows@[j]).label@ == self.labels@[j]@,
            decreases n - i,
        {
            if !(self.rows[i].label == self.labels[i]) {
                return false;
            }
            i += 1;
        }
        match self.failure {
            Some(failure) => failure.index == n && n < self.labels.len(),
            None => true,
        }
    }

    /// The place of the label that is due.
    pub fn next_index(&self) -> (r: Option<usize>)
        ensures
            r == self.next_index_spec(),
            r is Some ==> r->0 == self.rows@.len(),
    {
        if self.failure.is_none() && self.rows.len() < self.labels.len() {
            Some(self.rows.len())
        } else {
            None
        }
    }

    /// Whether every label has its row.
    pub fn is_complete(&self) -> (r: bool)
        ensures
            r == (self.failure is None && self.rows@.len() >= self.labels@.len()),
    {
        self.failure.is_none() && self.rows.len() >= self.labels.len()
    }

    /// Takes the scramble and the picture for the label that is due. With a
    /// picture that is not empty the row is appended under that label;
    /// without one the batch ends in a `RenderError` at that label. The
    /// rows finished before stay as they are, and a batch with no label
    /// due takes nothing.
    pub fn add(&mut self, scramble: Scramble, rendered: Option<String>)
        requires
            old(self).well_formed(),
        ensures
            final(self).well_formed(),
            final(self).labels == old(self).labels,
            final(self).rows@.len() >= old(self).rows@.len(),
            final(self).rows@.take(old(self).rows@.len() as int) == old(self).rows@,
            old(self).next_index_spec() is None ==> *final(self) == *old(self),
            old(self).next_index_spec() is Some ==> match rendered {
                Some(graphic) if graphic@.len() > 0 => {
                    &&& final(self).failure is None
                    &&& final(self).rows@.len() == old(self).rows@.len() + 1
                    &&& final(self).rows@.last().label@ == old(self).labels@[old(
                        self,
                    ).rows@.len() as int]@
                    &&& final(self).rows@.last().scramble_text@ == scramble.text@
                    &&& final(self).rows@.last().graphic@ == graphic@
                    &&& final(self).rows@.last().state@ == scramble.state@
                },
                _ => {
                    &&& final(self).rows@ == old(self).rows@
                    &&& final(self).failure is Some
                    &&& final(self).failure->0.index == old(self).rows@.len()
                    &&& final(self).failure->0.error == ScrambleError::RenderError
                },
            },
            old(self).all_faithful() && replay_spec(scramble.text@) == Some(scramble.state@)
                ==> final(self).all_faithful(),
    {
        match self.next_index() {
            None => {
                assert(self.rows@.take(self.rows@.len() as int) =~= self.rows@);
            },
            Some(index) => {
                let label: String = self.labels[index].clone();
                match finish_row(label, scramble, rendered) {
                    Ok(row) => {
                        self.rows.push(row);
                    },
                    Err(error) => {
                        self.failure = Some(BatchFailure { index, error });
                    },
                }
                assert(self.rows@.take(old(self).rows@.len() as int) =~= old(self).rows@);
            },
        }
    }

    /// Ends the batch with a failure at the label that is due. The rows
    /// finished before stay as they are, and a batch with no label due
    /// takes nothing.
    pub fn fail(&mut self, error: ScrambleError)
        requires
            old(self).well_formed(),
        ensures
            final(self).well_formed(),
            final(self).labels == old(self).labels,
            final(self).rows == old(self).rows,
            old(self).next_index_spec() is None ==> *final(self) == *old(self),
            old(self).next_index_spec() is Some ==> {
                &&& final(self).failure is Some
                &&& final(self).failure->0.index == old(self).rows@.len()
                &&& final(self).failure->0.error == error
            },
    {
        match self.next_index() {
            None => {},
            Some(index) => {
                self.failure = Some(BatchFailure { index, error });
            },
        }
    }

    /// Takes back the last row because it could not be handed over: the
    /// batch ends in a `SinkError` at the label of that row, and the rows
    /// before it stay as they are. A batch that has failed, or has no row,
    /// is left as it is.
    pub fn reject_last(&mut self)
        requires
            old(self).well_formed(),
        ensures
            final(self).well_formed(),
            final(self).labels == old(self).labels,
            old(self).failure is None && old(self).rows@.len() > 0 ==> {
                &&& final(self).rows@ == old(self).rows@.drop_last()
                &&& final(self).failure is Some
                &&& final(self).failure->0.index == old(self).rows@.len() - 1
                &&& final(self).failure->0.error == ScrambleError::SinkError
            },
            !(old(self).failure is None && old(self).rows@.len() > 0) ==> *final(self) == *old(
                self,
            ),
            old(self).all_faithful() ==> final(self).all_faithful(),
    {
        if self.failure.is_none() && self.rows.len() > 0 {
            let _ = self.rows.pop();
            self.failure = Some(
                BatchFailure { index: self.rows.len(), error: ScrambleError::SinkError },
            );
            assert(self.rows@ =~= old(self).rows@.drop_last());
        }
    }
}

} // verus!
