//! What the propagation panel last learned from the network: the fetch
//! worker records each round's outcome here, the panel reads it.

use vstd::prelude::*;

verus! {

/// The latest fetched data. `T` is the time of a fetch, `S` the solar
/// indices, `P` one path's forecast series.
#[derive(Debug, Clone)]
pub struct PropagationSnapshot<T, S, P> {
    /// When the last successful fetch finished.
    pub fetched_at: Option<T>,
    pub solar: Option<S>,
    pub paths: Vec<P>,
    /// The error of the last fetch, if it failed.
    pub last_error: Option<String>,
}

impl<T, S, P> PropagationSnapshot<T, S, P> {
    /// Nothing fetched yet.
    pub fn new() -> (s: Self)
        ensures
            s.fetched_at is None,
            s.solar is None,
            s.paths@.len() == 0,
            s.last_error is None,
    {
        PropagationSnapshot { fetched_at: None, solar: None, paths: Vec::new(), last_error: None }
    }

    /// Record one fetch round. A success replaces everything and clears the
    /// error; a failure keeps the previous data (so stale values can still
    /// be shown) and only records the error.
    pub fn record_fetch(&mut self, outcome: Result<(T, S, Vec<P>), String>)
        ensures
            match outcome {
                Ok((t, s, p)) => {
                    &&& final(self).fetched_at == Some(t)
                    &&& final(self).solar == Some(s)
                    &&& final(self).paths@ == p@
                    &&& final(self).last_error is None
                },
                Err(e) => {
                    &&& final(self).fetched_at == old(self).fetched_at
                    &&& final(self).solar == old(self).solar
                    &&& final(self).paths@ == old(self).paths@
                    &&& final(self).last_error == Some(e)
                },
            },
    {
        match outcome {
            Ok((t, s, p)) => {
                self.fetched_at = Some(t);
                self.solar = Some(s);
                self.paths = p;
                self.last_error = None;
            },
            Err(e) => {
                self.last_error = Some(e);
            },
        }
    }
}

/// A path's forecast series for the snapshot: a failed fetch of one target
/// counts as an empty series, so it does not spoil the others.
pub fn series_or_empty<P, E>(fetched: Result<Vec<P>, E>) -> (series: Vec<P>)
    ensures
        match fetched {
            Ok(s) => series@ == s@,
            Err(_) => series@.len() == 0,
        },
{
    match fetched {
        Ok(s) => s,
        Err(_) => Vec::new(),
    }
}

} // verus!
