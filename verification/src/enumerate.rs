use vstd::prelude::*;

use crate::error::Error;
use crate::error::ErrorKind;

verus! {

/// How a sentinel-terminated scan stands.
#[derive(Clone, Copy, Debug, PartialEq, Eq, Structural)]
pub enum ScanStatus {
    /// Still probing.
    Running,
    /// The driver answered the sentinel: the list is complete.
    Finished,
    /// A non-sentinel error ended the scan.
    Failed(Error),
}

/// A sentinel-terminated index scan: the listing idiom behind input and
/// output enumeration.
///
/// Indices are probed sequentially from `0`. An `InvalidArgument` answer is
/// never an error here, not even at index `0`: it is the end-of-list
/// sentinel, and an empty list is valid. Any other error ends the scan and
/// is surfaced instead of the items collected so far.
///
/// The ghost `history` records every answer fed to the scan, so the scan's
/// outcome is pinned to the device's whole transcript.
pub struct SentinelScan<T> {
    /// The items collected so far, in probe order: item `k` answered probe
    /// `k`.
    pub items: Vec<T>,
    pub status: ScanStatus,
    /// Every answer fed so far, in order.
    pub history: Ghost<Seq<Result<T, Error>>>,
}

impl<T> SentinelScan<T> {
    /// The scan's invariant, tying items and status to the transcript:
    /// every probe up to the first non-`Ok` answer contributed its item, a
    /// sentinel answer finished the scan, any other error failed it.
    pub open spec fn wf(&self) -> bool {
        &&& (match self.status {
            ScanStatus::Running => self.history@.len() == self.items@.len(),
            _ => self.history@.len() == self.items@.len() + 1,
        })
        &&& (forall|i: int|
            0 <= i < self.items@.len() ==> self.history@[i] == Ok::<T, Error>(
                #[trigger] self.items@[i],
            ))
        &&& (self.status is Finished ==> (self.history@.last() matches Err(e) && e.kind
            is InvalidArgument))
        &&& (self.status matches ScanStatus::Failed(e) ==> self.history@.last() == Err::<T, Error>(
            e,
        ) && !(e.kind is InvalidArgument))
    }

    /// A fresh scan: nothing probed, nothing collected.
    pub fn new() -> (r: SentinelScan<T>)
        ensures
            r.wf(),
            r.items@.len() == 0,
            r.status is Running,
            r.history@.len() == 0,
    {
        SentinelScan { items: Vec::new(), status: ScanStatus::Running, history: Ghost(Seq::empty()) }
    }

    /// The next index to probe: one past the items already collected.
    pub fn probe_index(&self) -> (r: u32)
        requires
            self.wf(),
            self.status is Running,
            self.items@.len() <= u32::MAX,
        ensures
            r == self.items@.len(),
    {
        self.items.len() as u32
    }

    /// Whether the scan still wants a probe.
    pub fn is_running(&self) -> (r: bool)
        ensures
            r == (self.status is Running),
    {
        match self.status {
            ScanStatus::Running => true,
            _ => false,
        }
    }

    /// Consumes the answer to the pending probe: an item is collected and
    /// the scan moves to the next index; the `InvalidArgument` sentinel
    /// finishes the list; any other error fails the scan with that error.
    pub fn feed(self, resp: Result<T, Error>) -> (r: SentinelScan<T>)
        requires
            self.wf(),
            self.status is Running,
        ensures
            r.wf(),
            r.history@ == self.history@.push(resp),
            match resp {
                Ok(t) => r.status is Running && r.items@ == self.items@.push(t),
                Err(e) => r.items@ == self.items@ && (if e.kind is InvalidArgument {
                    r.status is Finished
                } else {
                    r.status == ScanStatus::Failed(e)
                }),
            },
    {
        let SentinelScan { mut items, status, history } = self;
        let new_history: Ghost<Seq<Result<T, Error>>> = Ghost(history@.push(resp));
        match resp {
            Ok(t) => {
                items.push(t);
                SentinelScan { items, status: ScanStatus::Running, history: new_history }
            },
            Err(e) => {
                if e.kind == ErrorKind::InvalidArgument {
                    SentinelScan { items, status: ScanStatus::Finished, history: new_history }
                } else {
                    SentinelScan { items, status: ScanStatus::Failed(e), history: new_history }
                }
            },
        }
    }

    /// Takes the outcome of a terminated scan: the collected items in probe
    /// order, or the error that ended it (the collected items are then
    /// dropped in favour of the error, a documented design choice).
    pub fn into_result(self) -> (r: Result<Vec<T>, Error>)
        requires
            self.wf(),
            !(self.status is Running),
        ensures
            self.status is Finished ==> (r matches Ok(v) && v@ == self.items@),
            self.status matches ScanStatus::Failed(e) ==> r == Err::<Vec<T>, Error>(e),
    {
        match self.status {
            ScanStatus::Finished => Ok(self.items),
            ScanStatus::Failed(e) => Err(e),
            ScanStatus::Running => unreached(),
        }
    }
}

/// The law of a complete scan: over a device with exactly `n` items —
/// probes `0 .. n-1` each answered `Ok` and probe `n` answered the
/// invalid-argument sentinel — the scan finishes without error and holds
/// exactly those `n` answers, in ascending probe order.
pub proof fn lemma_scan_complete<T>(s: SentinelScan<T>, n: int)
    requires
        s.wf(),
        0 <= n,
        s.history@.len() == n + 1,
        forall|i: int| 0 <= i < n ==> (#[trigger] s.history@[i]) is Ok,
        s.history@[n] matches Err(e) && e.kind is InvalidArgument,
    ensures
        s.status is Finished,
        s.items@.len() == n,
        forall|i: int|
            0 <= i < n ==> s.history@[i] == Ok::<T, Error>(#[trigger] s.items@[i]),
{
    match s.status {
        ScanStatus::Running => {
            assert(s.history@[n] == Ok::<T, Error>(s.items@[n]));
            assert(false);
        },
        ScanStatus::Failed(e) => {
            assert(s.history@.last() == Err::<T, Error>(e));
            assert(false);
        },
        ScanStatus::Finished => {
        },
    }
}

} // verus!
