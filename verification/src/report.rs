//! Bounded diagnostic reports and the propagation operation that grows them.

use vstd::prelude::*;
use vstd::string::StringExecFns;

use crate::backtrace::Backtrace;
use crate::error::{error_text, Error};
use crate::location::{loc_text, Location};

verus! {

/// An error together with a bounded backtrace of the call sites it has
/// propagated through, most recent call first.
pub struct Report<const N: usize> {
    /// The causal error, set once at creation and never changed afterwards.
    pub error: Error,
    /// At most `N` call sites, most recent first.
    pub backtrace: Backtrace<N>,
    /// Whether at least one location was dropped for want of room.
    pub more: bool,
}

/// One propagation step on the backtrace state `(bt, more)` of capacity
/// `cap`: the current site goes to the front; when the buffer is already
/// full, the oldest retained entry is dropped first and the overflow flag is
/// set.
pub open spec fn step(bt: Seq<Location>, more: bool, here: Location, cap: nat) -> (Seq<Location>, bool) {
    if bt.len() < cap {
        (seq![here] + bt, more)
    } else if cap == 0 {
        (bt, true)
    } else {
        (seq![here] + bt.take(cap - 1), true)
    }
}

/// The backtrace state after an error has propagated through `sites` in
/// call order (oldest first), one `step` per site, starting from the empty
/// state a fresh report has.
pub open spec fn run(sites: Seq<Location>, cap: nat) -> (Seq<Location>, bool)
    decreases sites.len(),
{
    if sites.len() == 0 {
        (Seq::<Location>::empty(), false)
    } else {
        let prev = run(sites.drop_last(), cap);
        step(prev.0, prev.1, sites.last(), cap)
    }
}

/// The uniform propagation operation: on the error path, record the current
/// call site; success values pass through unchanged.
pub trait ResultExt<T, const N: usize>: Sized {
    /// What `into_report` returns, relating its input, the recorded call
    /// site and its result.
    spec fn report_post(self, here: Location, r: Result<T, Report<N>>) -> bool;

    /// Record `here` on the error path of this result. A raw error seeds a
    /// fresh report; an existing report gains `here` at the front of its
    /// backtrace, under the capacity policy of `step`. A success value is
    /// returned unchanged, and no report is made for it.
    fn into_report(self, here: Location) -> (r: Result<T, Report<N>>)
        ensures
            self.report_post(here, r),
    ;
}

/// What seeding a fresh report of capacity `N` with error `e` at site
/// `here` yields: the backtrace state is one `step` from the empty state.
pub open spec fn seeded<const N: usize>(e: Error, here: Location, rep: Report<N>) -> bool {
    rep.error == e && rep.backtrace@ == step(Seq::<Location>::empty(), false, here, N as nat).0
        && rep.more == step(Seq::<Location>::empty(), false, here, N as nat).1
}

/// A fresh report for `e`, its backtrace seeded with the one site `here`.
fn seed_report<const N: usize>(e: Error, here: Location) -> (rep: Report<N>)
    ensures
        seeded(e, here, rep),
{
    let mut backtrace = Backtrace::<N>::new();
    let mut more = false;
    if backtrace.push_front(here).is_err() {
        more = true;
    }
    Report { error: e, backtrace, more }
}

impl<T, const N: usize> ResultExt<T, N> for Result<T, Error> {
    open spec fn report_post(self, here: Location, r: Result<T, Report<N>>) -> bool {
        match self {
            Ok(v) => r matches Ok(rv) && rv == v,
            Err(e) => r matches Err(rep) && seeded(e, here, rep),
        }
    }

    fn into_report(self, here: Location) -> (r: Result<T, Report<N>>) {
        match self {
            Ok(v) => Ok(v),
            Err(e) => Err(seed_report(e, here)),
        }
    }
}

impl<T, const N: usize> ResultExt<T, N> for Result<T, crate::error::BmpParseCause> {
    open spec fn report_post(self, here: Location, r: Result<T, Report<N>>) -> bool {
        match self {
            Ok(v) => r matches Ok(rv) && rv == v,
            Err(c) => r matches Err(rep) && seeded(Error::BmpParse(c), here, rep),
        }
    }

    fn into_report(self, here: Location) -> (r: Result<T, Report<N>>) {
        match self {
            Ok(v) => Ok(v),
            Err(c) => Err(seed_report(Error::BmpParse(c), here)),
        }
    }
}

impl<T, const N: usize> ResultExt<T, N> for Result<T, crate::error::DisplayCause> {
    open spec fn report_post(self, here: Location, r: Result<T, Report<N>>) -> bool {
        match self {
            Ok(v) => r matches Ok(rv) && rv == v,
            Err(c) => r matches Err(rep) && seeded(Error::Display(c), here, rep),
        }
    }

    fn into_report(self, here: Location) -> (r: Result<T, Report<N>>) {
        match self {
            Ok(v) => Ok(v),
            Err(c) => Err(seed_report(Error::Display(c), here)),
        }
    }
}

impl<T, const N: usize> ResultExt<T, N> for Result<T, crate::error::DmaBufCause> {
    open spec fn report_post(self, here: Location, r: Result<T, Report<N>>) -> bool {
        match self {
            Ok(v) => r matches Ok(rv) && rv == v,
            Err(c) => r matches Err(rep) && seeded(Error::DmaBuf(c), here, rep),
        }
    }

    fn into_report(self, here: Location) -> (r: Result<T, Report<N>>) {
        match self {
            Ok(v) => Ok(v),
            Err(c) => Err(seed_report(Error::DmaBuf(c), here)),
        }
    }
}

impl<T, const N: usize> ResultExt<T, N> for Result<T, crate::error::MasterConfigCause> {
    open spec fn report_post(self, here: Location, r: Result<T, Report<N>>) -> bool {
        match self {
            Ok(v) => r matches Ok(rv) && rv == v,
            Err(c) => r matches Err(rep) && seeded(Error::Master(c), here, rep),
        }
    }

    fn into_report(self, here: Location) -> (r: Result<T, Report<N>>) {
        match self {
            Ok(v) => Ok(v),
            Err(c) => Err(seed_report(Error::Master(c), here)),
        }
    }
}

impl<T, const N: usize> ResultExt<T, N> for Result<T, crate::error::SpawnCause> {
    open spec fn report_post(self, here: Location, r: Result<T, Report<N>>) -> bool {
        match self {
            Ok(v) => r matches Ok(rv) && rv == v,
            Err(c) => r matches Err(rep) && seeded(Error::Spawn(c), here, rep),
        }
    }

    fn into_report(self, here: Location) -> (r: Result<T, Report<N>>) {
        match self {
            Ok(v) => Ok(v),
            Err(c) => Err(seed_report(Error::Spawn(c), here)),
        }
    }
}

impl<T, const N: usize> ResultExt<T, N> for Result<T, Report<N>> {
    open spec fn report_post(self, here: Location, r: Result<T, Report<N>>) -> bool {
        match self {
            Ok(v) => r matches Ok(rv) && rv == v,
            Err(prev) => r matches Err(rep) && rep.error == prev.error && rep.backtrace@ == step(
                prev.backtrace@,
                prev.more,
                here,
                N as nat,
            ).0 && rep.more == step(prev.backtrace@, prev.more, here, N as nat).1,
        }
    }

    fn into_report(self, here: Location) -> (r: Result<T, Report<N>>) {
        match self {
            Ok(v) => Ok(v),
            Err(mut rep) => {
                let ghost bt0 = rep.backtrace@;
                let ghost more0 = rep.more;
                if rep.backtrace.is_full() {
                    rep.backtrace.pop();
                    rep.more = true;
                }
                let _ = rep.backtrace.push_front(here);
                proof {
                    assert(rep.backtrace@ =~= step(bt0, more0, here, N as nat).0);
                }
                Err(rep)
            },
        }
    }
}

impl<const N: usize> Report<N> {
    /// Adapt an irrecoverable runtime fault: wrap the fixed fault marker,
    /// record the fault site when one is known, and leave the overflow flag
    /// clear.
    pub fn fault(site: Option<Location>) -> (rep: Report<N>)
        ensures
            rep.error matches Error::AdHoc(m) && m@ == "panic"@,
            rep.more == false,
            site is None ==> rep.backtrace@ == Seq::<Location>::empty(),
            site matches Some(loc) ==> (N >= 1 ==> rep.backtrace@ == seq![loc]) && (N == 0
                ==> rep.backtrace@ == Seq::<Location>::empty()),
    {
        let mut backtrace = Backtrace::<N>::new();
        match site {
            Some(loc) => {
                let _ = backtrace.push_front(loc);
            },
            None => {},
        }
        proof {
            assert(site matches Some(loc) ==> (N >= 1 ==> backtrace@ =~= seq![loc]));
        }
        Report { error: Error::AdHoc(String::from_str("panic")), backtrace, more: false }
    }

    /// The lines of the rendered diagnostic: the error message, the
    /// backtrace header, one line per recorded location (most recent first),
    /// and, exactly when locations were dropped, one truncation notice after
    /// the last location.
    pub open spec fn lines(self) -> Seq<Seq<char>> {
        let head = seq!["fatal error: "@ + error_text(self.error), "backtrace:"@] + Seq::new(
            self.backtrace@.len(),
            |i: int| "  "@ + loc_text(self.backtrace@[i]),
        );
        if self.more {
            head + seq!["  (rest of backtrace omitted)"@]
        } else {
            head
        }
    }

    /// Render the whole diagnostic, one `String` per line.
    pub fn render_lines(&self) -> (lines: Vec<String>)
        ensures
            lines.deep_view() == self.lines(),
    {
        let mut lines: Vec<String> = Vec::new();
        let mut head = String::from_str("fatal error: ");
        let msg = self.error.render();
        head.append(msg.as_str());
        lines.push(head);
        lines.push(String::from_str("backtrace:"));
        let n = self.backtrace.len();
        let mut i: usize = 0;
        while i < n
            invariant
                i <= n,
                n == self.backtrace@.len(),
                lines@.len() == 2 + i,
                lines@[0]@ == "fatal error: "@ + error_text(self.error),
                lines@[1]@ == "backtrace:"@,
                forall|j: int| #![auto] 0 <= j < i ==> lines@[j + 2]@ == "  "@ + loc_text(
                    self.backtrace@[j],
                ),
            decreases n - i,
        {
            let mut line = String::from_str("  ");
            let loc = self.backtrace.get(i);
            let loc_s = loc.render();
            line.append(loc_s.as_str());
            lines.push(line);
            i += 1;
        }
        if self.more {
            lines.push(String::from_str("  (rest of backtrace omitted)"));
        }
        proof {
            assert(lines.deep_view().len() == self.lines().len());
            assert forall|j: int| 0 <= j < self.lines().len() implies lines.deep_view()[j]
                == self.lines()[j] by {
                assert(lines.deep_view()[j] == lines@[j]@);
            }
            assert(lines.deep_view() =~= self.lines());
        }
        lines
    }
}

/// Within capacity, nothing is lost: for any error propagated through
/// `k <= cap` sites, the backtrace lists all `k` sites in reverse call
/// order (most recent first) and the overflow flag stays clear.
pub proof fn lemma_within_capacity(sites: Seq<Location>, cap: nat)
    requires
        sites.len() <= cap,
    ensures
        run(sites, cap).0.len() == sites.len(),
        run(sites, cap).0 == sites.reverse(),
        run(sites, cap).1 == false,
    decreases sites.len(),
{
    if sites.len() == 0 {
        assert(run(sites, cap).0 =~= sites.reverse());
    } else {
        lemma_within_capacity(sites.drop_last(), cap);
        assert(run(sites, cap).0 =~= sites.reverse());
    }
}

/// Beyond capacity, the most recent sites win: for any error propagated
/// through more than `cap >= 1` sites, the backtrace holds exactly the last
/// `cap` sites in reverse call order — so its first entry is the most
/// recent site — and the overflow flag is set.
pub proof fn lemma_beyond_capacity(sites: Seq<Location>, cap: nat)
    requires
        cap >= 1,
        sites.len() > cap,
    ensures
        run(sites, cap).0.len() == cap,
        run(sites, cap).0[0] == sites.last(),
        run(sites, cap).0 == sites.skip(sites.len() - cap).reverse(),
        run(sites, cap).1 == true,
    decreases sites.len(),
{
    if sites.len() == cap + 1 {
        lemma_within_capacity(sites.drop_last(), cap);
        assert(run(sites, cap).0 =~= sites.skip(sites.len() - cap).reverse());
    } else {
        lemma_beyond_capacity(sites.drop_last(), cap);
        assert(run(sites, cap).0 =~= sites.skip(sites.len() - cap).reverse());
    }
}

} // verus!

