//! Preparing the cluster before a run: blowing the fans at full speed, then
//! waiting until the power draw is stable.
use vstd::prelude::*;
use crate::state::{Device, Setting, StateManager, reset_settings};

verus! {

/// How long, in milliseconds, the fans blow when no time is given.
pub const DEFAULT_BLOWING_TIME_MS: u64 = 30;

/// How many of the latest power readings are compared.
pub const WINDOW_SIZE: usize = 10;

/// The largest spread, in watts, of the latest readings at which the power
/// draw counts as stable.
pub const THRESHOLD: usize = 30;

/// The fan speed, in percent, at which the fans blow.
pub const FULL_FAN_SPEED: usize = 100;

/// Prepares the cluster that `state_manager` manages.
pub struct Preparer<'a> {
    state_manager: &'a StateManager,
    blowing_time: Option<u64>,
}

/// What blowing asks of the cluster: apply `boost`, wait `sleep_ms`
/// milliseconds, then apply `restore` in order.
pub struct BlowingPlan {
    pub boost: Setting,
    pub sleep_ms: u64,
    pub restore: Vec<Setting>,
}

impl<'a> Preparer<'a> {
    /// The state manager of the cluster.
    pub closed spec fn manager(&self) -> &'a StateManager {
        self.state_manager
    }

    /// The blowing time, in milliseconds, if one was given.
    pub closed spec fn blowing(&self) -> Option<u64> {
        self.blowing_time
    }

    pub fn new(state_manager: &'a StateManager, blowing_time: Option<u64>) -> (p: Preparer<'a>)
        ensures
            p.manager() == state_manager,
            p.blowing() == blowing_time,
    {
        Preparer { state_manager, blowing_time }
    }

    /// The blowing time, in milliseconds, if one was given.
    pub fn blowing_time(&self) -> (r: Option<u64>)
        ensures
            r == self.blowing(),
    {
        self.blowing_time
    }

    /// Blows the fans at full speed for the blowing time, then puts the
    /// cluster back into the state the manager records.
    pub fn fiercely_blowing(&self) -> (plan: BlowingPlan)
        requires
            self.manager()@.is_filled(),
        ensures
            plan.boost == (Setting { device: Device::Fan, value: FULL_FAN_SPEED }),
            plan.sleep_ms == match self.blowing() {
                Some(ms) => ms,
                None => DEFAULT_BLOWING_TIME_MS,
            },
            plan.restore@ == reset_settings(self.manager()@),
    {
        let sleep_ms = match self.blowing_time {
            Some(ms) => ms,
            None => DEFAULT_BLOWING_TIME_MS,
        };
        BlowingPlan {
            boost: Setting { device: Device::Fan, value: FULL_FAN_SPEED },
            sleep_ms,
            restore: self.state_manager.reset(),
        }
    }
}

// ---------------------------------------------------------------------------
// Waiting for a stable power draw

/// Where the window of the latest readings starts, among `len` readings.
pub open spec fn window_start(len: nat) -> int {
    if len > WINDOW_SIZE { len - WINDOW_SIZE } else { 0 }
}

/// The power draw is stable: more than a window of readings has been taken,
/// and no two of the latest `WINDOW_SIZE` readings differ by more than
/// `THRESHOLD`.
pub open spec fn is_stable(readings: Seq<usize>) -> bool {
    &&& readings.len() > WINDOW_SIZE
    &&& forall|i: int, j: int|
        readings.len() - WINDOW_SIZE <= i < readings.len() && readings.len() - WINDOW_SIZE <= j
            < readings.len() ==> #[trigger] readings[i] - #[trigger] readings[j] <= THRESHOLD
}

/// Keeps the power readings and the places of the highest and lowest of the
/// latest ones.
pub struct StabilityMonitor {
    rec: Vec<usize>,
    min_index: usize,
    max_index: usize,
}

impl View for StabilityMonitor {
    type V = Seq<usize>;

    closed spec fn view(&self) -> Seq<usize> {
        self.rec@
    }
}

/// The place of a highest reading from `st` on.
fn index_of_max(rec: &Vec<usize>, st: usize) -> (k: usize)
    requires
        st < rec@.len(),
    ensures
        st <= k < rec@.len(),
        forall|j: int| st <= j < rec@.len() ==> #[trigger] rec@[j] <= rec@[k as int],
{
    let mut k = st;
    for i in st + 1..rec.len()
        invariant
            st <= k < i,
            i <= rec@.len(),
            forall|j: int| st <= j < i ==> #[trigger] rec@[j] <= rec@[k as int],
    {
        if rec[i] > rec[k] {
            k = i;
        }
    }
    k
}

/// The place of a lowest reading from `st` on.
fn index_of_min(rec: &Vec<usize>, st: usize) -> (k: usize)
    requires
        st < rec@.len(),
    ensures
        st <= k < rec@.len(),
        forall|j: int| st <= j < rec@.len() ==> rec@[k as int] <= #[trigger] rec@[j],
{
    let mut k = st;
    for i in st + 1..rec.len()
        invariant
            st <= k < i,
            i <= rec@.len(),
            forall|j: int| st <= j < i ==> rec@[k as int] <= #[trigger] rec@[j],
    {
        if rec[i] < rec[k] {
            k = i;
        }
    }
    k
}

impl StabilityMonitor {
    /// The readings are not empty, and `max_index` and `min_index` point at a
    /// highest and a lowest reading of the window.
    pub closed spec fn wf(&self) -> bool {
        let len = self.rec@.len();
        &&& len >= 1
        &&& window_start(len) <= self.max_index < len
        &&& window_start(len) <= self.min_index < len
        &&& forall|j: int|
            window_start(len) <= j < len ==> self.rec@[self.min_index as int] <= #[trigger] self.rec@[j]
                <= self.rec@[self.max_index as int]
    }

    /// A monitor that has taken the reading `first`.
    pub fn new(first: usize) -> (m: StabilityMonitor)
        ensures
            m.wf(),
            m@ == seq![first],
    {
        let mut rec: Vec<usize> = Vec::new();
        rec.push(first);
        StabilityMonitor { rec, min_index: 0, max_index: 0 }
    }

    /// Takes the reading `x` and tells whether the power draw is now stable.
    pub fn push_reading(&mut self, x: usize) -> (stable: bool)
        requires
            old(self).wf(),
        ensures
            final(self).wf(),
            final(self)@ == old(self)@.push(x),
            stable == is_stable(final(self)@),
    {
        let ghost old_rec = self.rec@;
        let len = self.rec.len();
        let mut max_index = self.max_index;
        let mut min_index = self.min_index;
        if x > self.rec[max_index] {
            max_index = len;
        }
        if x < self.rec[min_index] {
            min_index = len;
        }
        self.rec.push(x);
        let ghost rec = self.rec@;
        assert(rec == old_rec.push(x));
        let n = self.rec.len();
        let st: usize = if n > WINDOW_SIZE { n - WINDOW_SIZE } else { 0 };
        assert(st == window_start(n as nat));
        assert forall|j: int| st <= j < n implies rec[min_index as int] <= #[trigger] rec[j] && (
        max_index < st || rec[j] <= rec[max_index as int]) by {
            if j < len {
                assert(rec[j] == old_rec[j]);
            }
        }
        if max_index < st {
            max_index = index_of_max(&self.rec, st);
        }
        if min_index < st {
            min_index = index_of_min(&self.rec, st);
        }
        self.max_index = max_index;
        self.min_index = min_index;
        if n > WINDOW_SIZE {
            let stable = self.rec[max_index] - self.rec[min_index] <= THRESHOLD;
            if !stable {
                assert(rec[max_index as int] - rec[min_index as int] > THRESHOLD);
            }
            return stable;
        }
        false
    }

    /// The number of readings taken.
    pub fn len(&self) -> (n: usize)
        ensures
            n == self@.len(),
    {
        self.rec.len()
    }
}

/// Whether the power draw is stable depends on the latest `WINDOW_SIZE`
/// readings alone, provided more than a window has been taken; a window of
/// readings all within `THRESHOLD` of its lowest is stable, and one in which
/// some reading exceeds another by more than `THRESHOLD` is not.
pub proof fn lemma_stability_of_window(a: Seq<usize>, b: Seq<usize>, w: Seq<usize>, low: usize)
    requires
        w.len() == WINDOW_SIZE,
        a.len() >= 1,
        b.len() >= 1,
    ensures
        is_stable(a + w) == is_stable(b + w),
        (forall|i: int| 0 <= i < w.len() ==> low <= #[trigger] w[i] <= low + THRESHOLD) ==> is_stable(
            a + w,
        ),
        (exists|i: int, j: int|
            0 <= i < w.len() && 0 <= j < w.len() && #[trigger] w[i] > #[trigger] w[j] + THRESHOLD)
            ==> !is_stable(a + w),
        is_stable(w) == false,
{
    let ra = a + w;
    let rb = b + w;
    assert forall|k: int| 0 <= k < WINDOW_SIZE implies #[trigger] ra[ra.len() - WINDOW_SIZE + k]
        == w[k] && rb[rb.len() - WINDOW_SIZE + k] == w[k] by {}
    if is_stable(ra) {
        assert forall|i: int, j: int|
            rb.len() - WINDOW_SIZE <= i < rb.len() && rb.len() - WINDOW_SIZE <= j < rb.len() implies
            #[trigger] rb[i] - #[trigger] rb[j] <= THRESHOLD by {
            let ii = i - (rb.len() - WINDOW_SIZE);
            let jj = j - (rb.len() - WINDOW_SIZE);
            assert(rb[i] == w[ii] && rb[j] == w[jj]);
            assert(ra[ra.len() - WINDOW_SIZE + ii] == w[ii]);
            assert(ra[ra.len() - WINDOW_SIZE + jj] == w[jj]);
        }
    }
    if is_stable(rb) {
        assert forall|i: int, j: int|
            ra.len() - WINDOW_SIZE <= i < ra.len() && ra.len() - WINDOW_SIZE <= j < ra.len() implies
            #[trigger] ra[i] - #[trigger] ra[j] <= THRESHOLD by {
            let ii = i - (ra.len() - WINDOW_SIZE);
            let jj = j - (ra.len() - WINDOW_SIZE);
            assert(ra[i] == w[ii] && ra[j] == w[jj]);
            assert(rb[rb.len() - WINDOW_SIZE + ii] == w[ii]);
            assert(rb[rb.len() - WINDOW_SIZE + jj] == w[jj]);
        }
    }
    if forall|i: int| 0 <= i < w.len() ==> low <= #[trigger] w[i] <= low + THRESHOLD {
        assert forall|i: int, j: int|
            ra.len() - WINDOW_SIZE <= i < ra.len() && ra.len() - WINDOW_SIZE <= j < ra.len() implies
            #[trigger] ra[i] - #[trigger] ra[j] <= THRESHOLD by {
            let ii = i - (ra.len() - WINDOW_SIZE);
            let jj = j - (ra.len() - WINDOW_SIZE);
            assert(ra[i] == w[ii] && ra[j] == w[jj]);
        }
    }
    if exists|i: int, j: int|
        0 <= i < w.len() && 0 <= j < w.len() && #[trigger] w[i] > #[trigger] w[j] + THRESHOLD {
        let (i, j) = choose|i: int, j: int|
            0 <= i < w.len() && 0 <= j < w.len() && #[trigger] w[i] > #[trigger] w[j] + THRESHOLD;
        assert(ra[ra.len() - WINDOW_SIZE + i] == w[i]);
        assert(ra[ra.len() - WINDOW_SIZE + j] == w[j]);
    }
}

} // verus!
