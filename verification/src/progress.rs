//! Progress of one network transfer, as counters that a renderer can show
//! without looking into the repository.

use vstd::prelude::*;

verus! {

/// The larger of two counts.
pub open spec fn larger(a: u64, b: u64) -> u64 {
    if a >= b {
        a
    } else {
        b
    }
}

/// The counters of one transfer.
///
/// The transport reports how many objects it has received, how many it
/// expects in all, and how many bytes have arrived. The counters only grow:
/// a report that falls behind what is known already changes nothing. The
/// expected total may still rise while the transfer runs. Once every
/// expected object has arrived the transfer is finished, and stays so.
#[derive(Clone, Debug, PartialEq, Eq)]
pub struct TransferProgress {
    /// The provider or remote that the transfer belongs to.
    pub label: String,
    pub received: u64,
    pub total: u64,
    pub bytes: u64,
    pub finished: bool,
}

impl TransferProgress {
    /// The counters of a transfer that has not reported yet.
    pub fn new(label: String) -> (r: TransferProgress)
        ensures
            r.label == label,
            r.received == 0,
            r.total == 0,
            r.bytes == 0,
            !r.finished,
    {
        TransferProgress { label, received: 0, total: 0, bytes: 0, finished: false }
    }

    /// Takes in one report of the transport and says whether the transfer is
    /// finished.
    pub fn record(&mut self, received: u64, total: u64, bytes: u64) -> (finished: bool)
        ensures
            final(self).label == old(self).label,
            final(self).received == larger(old(self).received, received),
            final(self).total == larger(old(self).total, total),
            final(self).bytes == larger(old(self).bytes, bytes),
            final(self).finished == (old(self).finished
                || final(self).received == final(self).total),
            finished == final(self).finished,
            // nothing ever goes back
            final(self).received >= old(self).received,
            final(self).total >= old(self).total,
            final(self).bytes >= old(self).bytes,
            old(self).finished ==> final(self).finished,
    {
        if received > self.received {
            self.received = received;
        }
        if total > self.total {
            self.total = total;
        }
        if bytes > self.bytes {
            self.bytes = bytes;
        }
        if self.received == self.total {
            self.finished = true;
        }
        self.finished
    }
}

} // verus!
