//! Device catalog scanning: resolving a configured source name to the first
//! matching device node.
//!
//! A catalog entry is what probing one device node yields: `None` when the
//! node could not be opened (nonexistent, permission denied, transient), or
//! `Some(name)` with the advertised name of the opened device. Nodes that
//! fail to open are skipped silently; only overall failure is surfaced.
//! Discovery never caches: every attempt re-scans from the lowest index,
//! since node assignment is not stable across reconnects.

use vstd::prelude::*;

use crate::errors::FailReason;
use crate::names::is_substring_of;

verus! {

/// Number of device node indices a discovery attempt examines.
pub const SCAN_RANGE: usize = 32;

/// The probe of one node yielded an openable device whose advertised name
/// contains `target`.
pub open spec fn entry_matches(entry: Option<Vec<u8>>, target: Seq<u8>) -> bool {
    match entry {
        Some(name) => is_substring_of(target, name@),
        None => false,
    }
}

/// Resolve `target` against a full catalog snapshot. Success returns the
/// first (lowest) node index whose device opened and whose name contains
/// `target`; the discovery failure comes exactly when no node in the
/// catalog matched.
pub fn scan_catalog(catalog: &Vec<Option<Vec<u8>>>, target: &Vec<u8>) -> (r: Result<
    usize,
    FailReason,
>)
    ensures
        match r {
            Ok(i) => i < catalog@.len() && entry_matches(catalog@[i as int], target@)
                && forall|j: int| 0 <= j < i ==> !entry_matches(catalog@[j], target@),
            Err(e) => e == FailReason::SourceNotFound && forall|j: int|
                0 <= j < catalog@.len() ==> !entry_matches(catalog@[j], target@),
        },
{
    let mut i: usize = 0;
    while i < catalog.len()
        invariant
            i <= catalog@.len(),
            forall|j: int| 0 <= j < i ==> !entry_matches(catalog@[j], target@),
        decreases catalog@.len() - i,
    {
        let matched: bool = match &catalog[i] {
            Some(name) => crate::names::contains_name(name, target),
            None => false,
        };
        if matched {
            return Ok(i);
        }
        i += 1;
    }
    Err(FailReason::SourceNotFound)
}

/// One discovery attempt in progress: probes node indices in strictly
/// increasing order, from 0 up to (excluding) `limit`, and stops at the
/// first match.
pub struct CatalogScanner {
    /// Configured source name to match, as UTF-8 bytes.
    pub target: Vec<u8>,
    /// Next node index to probe.
    pub next: usize,
    /// One past the highest node index this attempt may probe.
    pub limit: usize,
}

impl CatalogScanner {
    /// Begin a discovery attempt for `target` over node indices `0..limit`.
    pub fn new(target: Vec<u8>, limit: usize) -> (s: Self)
        ensures
            s.target == target,
            s.next == 0,
            s.limit == limit,
    {
        CatalogScanner { target, next: 0, limit }
    }

    /// The node index to probe next, or `None` when the attempt has
    /// exhausted its range without a match.
    pub fn pending(&self) -> (r: Option<usize>)
        ensures
            r == if self.next < self.limit {
                Some(self.next)
            } else {
                None::<usize>
            },
    {
        if self.next < self.limit {
            Some(self.next)
        } else {
            None
        }
    }

    /// Record the probe of node `old(self).next`: `entry` is `None` when the
    /// node failed to open, else the opened device's advertised name. Returns
    /// true exactly when that device matches the target; otherwise the
    /// scanner moves to the next higher index, never revisiting one.
    pub fn advance(&mut self, entry: Option<Vec<u8>>) -> (matched: bool)
        requires
            old(self).next < old(self).limit,
        ensures
            final(self).target == old(self).target,
            final(self).limit == old(self).limit,
            matched == entry_matches(entry, old(self).target@),
            matched ==> final(self).next == old(self).next,
            !matched ==> final(self).next == old(self).next + 1,
    {
        let matched: bool = match &entry {
            Some(name) => crate::names::contains_name(name, &self.target),
            None => false,
        };
        if !matched {
            self.next += 1;
        }
        matched
    }
}

} // verus!
