//! Histories of a credential's holders, and what holds of all of them.

use vstd::prelude::*;
use crate::credential::{CredView, HolderEvent};
use crate::handle::RawCred;

verus! {

/// Where a credential stands after some events: the credential while
/// somebody holds it, and how often its release has been asked for.
pub struct Ledger {
    pub cred: Option<CredView>,
    pub releases: nat,
}

impl Ledger {
    /// The ledger of a credential just taken over.
    pub open spec fn open(raw: RawCred) -> Ledger {
        Ledger { cred: Some(CredView::fresh(raw)), releases: 0 }
    }

    /// The ledger after one more event. Once nobody holds the credential
    /// there is no holder left to clone or drop, and nothing changes.
    pub open spec fn record(self, ev: HolderEvent) -> Ledger {
        match self.cred {
            None => self,
            Some(c) => Ledger {
                cred: c.after(ev),
                releases: if c.releases_on(ev) {
                    self.releases + 1
                } else {
                    self.releases
                },
            },
        }
    }

    /// The ledger after a sequence of events.
    pub open spec fn replay(self, evs: Seq<HolderEvent>) -> Ledger
        decreases evs.len(),
    {
        if evs.len() == 0 {
            self
        } else {
            self.replay(evs.drop_last()).record(evs.last())
        }
    }
}

/// How often `ev` occurs in `evs`.
pub open spec fn occurrences(evs: Seq<HolderEvent>, ev: HolderEvent) -> nat
    decreases evs.len(),
{
    if evs.len() == 0 {
        0
    } else {
        occurrences(evs.drop_last(), ev) + if evs.last() == ev {
            1nat
        } else {
            0nat
        }
    }
}

/// Whether every event of `evs` comes from a holder: at each event somebody
/// still holds the credential that began with `raw`.
pub open spec fn feasible(raw: RawCred, evs: Seq<HolderEvent>) -> bool {
    forall|k: int| 0 <= k < evs.len() ==> (#[trigger] Ledger::open(raw).replay(evs.take(k))).cred is Some
}

proof fn feasible_prefix(raw: RawCred, evs: Seq<HolderEvent>)
    requires
        evs.len() > 0,
        feasible(raw, evs),
    ensures
        feasible(raw, evs.drop_last()),
        Ledger::open(raw).replay(evs.drop_last()).cred is Some,
{
    let init = evs.drop_last();
    assert forall|k: int| 0 <= k < init.len() implies (#[trigger] Ledger::open(raw).replay(
        init.take(k),
    )).cred is Some by {
        assert(init.take(k) == evs.take(k));
    }
    assert(evs.take(evs.len() - 1) == init);
}

/// Whatever the holders do, the release of a credential is asked for at most
/// once, and it has been asked for exactly when nobody holds the credential
/// any more. The native handle never changes.
pub proof fn released_at_most_once(raw: RawCred, evs: Seq<HolderEvent>)
    ensures
        match Ledger::open(raw).replay(evs).cred {
            Some(c) => Ledger::open(raw).replay(evs).releases == 0 && c.raw == raw && c.holders
                >= 1,
            None => Ledger::open(raw).replay(evs).releases == 1,
        },
    decreases evs.len(),
{
    if evs.len() > 0 {
        released_at_most_once(raw, evs.drop_last());
    }
}

/// A credential begins with one holder; each clone adds one and each drop
/// takes one away. So while it is held, the holders are one more than the
/// clones less the drops, and no release has been asked for; and it is
/// released, once, exactly when the drops have come to one more than the
/// clones.
pub proof fn holders_are_counted(raw: RawCred, evs: Seq<HolderEvent>)
    requires
        feasible(raw, evs),
    ensures
        match Ledger::open(raw).replay(evs).cred {
            Some(c) => c.holders == 1 + occurrences(evs, HolderEvent::Clone) - occurrences(
                evs,
                HolderEvent::Drop,
            ) && Ledger::open(raw).replay(evs).releases == 0,
            None => occurrences(evs, HolderEvent::Drop) == occurrences(evs, HolderEvent::Clone)
                + 1 && Ledger::open(raw).replay(evs).releases == 1,
        },
    decreases evs.len(),
{
    if evs.len() > 0 {
        feasible_prefix(raw, evs);
        holders_are_counted(raw, evs.drop_last());
        released_at_most_once(raw, evs.drop_last());
    }
}

/// When a credential was cloned `n` times and all `n + 1` holders have let
/// go, in whatever order clones and drops came, its release was asked for
/// exactly once: by the last drop, and not before.
pub proof fn last_drop_releases(raw: RawCred, evs: Seq<HolderEvent>, n: nat)
    requires
        feasible(raw, evs),
        occurrences(evs, HolderEvent::Clone) == n,
        occurrences(evs, HolderEvent::Drop) == n + 1,
    ensures
        Ledger::open(raw).replay(evs) == (Ledger { cred: None, releases: 1 }),
        evs.len() > 0,
        evs.last() == HolderEvent::Drop,
        Ledger::open(raw).replay(evs.drop_last()) == (Ledger {
            cred: Some(CredView::fresh(raw)),
            releases: 0,
        }),
{
    holders_are_counted(raw, evs);
    feasible_prefix(raw, evs);
    holders_are_counted(raw, evs.drop_last());
    released_at_most_once(raw, evs.drop_last());
}

/// The history in which a credential is cloned `n` times and then dropped
/// `n + 1` times.
pub open spec fn clones_then_drops(n: nat) -> Seq<HolderEvent> {
    Seq::new(
        2 * n + 1,
        |i: int|
            if i < n {
                HolderEvent::Clone
            } else {
                HolderEvent::Drop
            },
    )
}

proof fn clones_then_drops_prefix(raw: RawCred, n: nat, k: nat)
    requires
        k <= 2 * n,
    ensures
        Ledger::open(raw).replay(clones_then_drops(n).take(k as int)) == (Ledger {
            cred: Some(
                CredView {
                    raw,
                    holders: if k <= n {
                        1 + k
                    } else {
                        (1 + 2 * n - k) as nat
                    },
                },
            ),
            releases: 0,
        }),
    decreases k,
{
    let evs = clones_then_drops(n);
    let prefix = evs.take(k as int);
    if k > 0 {
        clones_then_drops_prefix(raw, n, (k - 1) as nat);
        assert(prefix.drop_last() == evs.take(k - 1));
        assert(prefix.last() == evs[k - 1]);
    }
}

/// After `n` clones and `n` drops the credential is still held, by one
/// holder, and nothing was released; the drop after that, by the last of the
/// `n + 1` holders, asks for the one release.
pub proof fn clones_then_drops_release_once(raw: RawCred, n: nat)
    ensures
        feasible(raw, clones_then_drops(n)),
        Ledger::open(raw).replay(clones_then_drops(n).drop_last()) == (Ledger {
            cred: Some(CredView::fresh(raw)),
            releases: 0,
        }),
        Ledger::open(raw).replay(clones_then_drops(n)) == (Ledger { cred: None, releases: 1 }),
{
    let evs = clones_then_drops(n);
    assert forall|k: int| 0 <= k < evs.len() implies (#[trigger] Ledger::open(raw).replay(
        evs.take(k),
    )).cred is Some by {
        clones_then_drops_prefix(raw, n, k as nat);
    }
    clones_then_drops_prefix(raw, n, 2 * n);
    assert(evs.drop_last() == evs.take(2 * n as int));
}

} // verus!
