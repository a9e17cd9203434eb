//! A credential and the count of those who hold it.
//!
//! The native credential is released once, when its last holder lets go.
//! `Cred` keeps the count; a value of it exists only while somebody holds
//! the credential, so nothing can be done with a credential after the
//! release was asked for.

use vstd::prelude::*;
use crate::handle::RawCred;

verus! {

/// What a `Cred` stands for: the native handle and the number of holders.
pub struct CredView {
    pub raw: RawCred,
    pub holders: nat,
}

/// What a holder can do to the count: become two, or let go.
#[derive(Clone, Copy, Debug, PartialEq, Eq, Structural)]
pub enum HolderEvent {
    Clone,
    Drop,
}

impl CredView {
    /// A credential just taken over: one holder.
    pub open spec fn fresh(raw: RawCred) -> CredView {
        CredView { raw, holders: 1 }
    }

    /// The credential after a holder's event, or `None` once nobody holds
    /// it. A clone counts one holder more around the same handle. A drop
    /// counts one less, and leaves nothing when it was the last.
    pub open spec fn after(self, ev: HolderEvent) -> Option<CredView> {
        match ev {
            HolderEvent::Clone => Some(CredView { raw: self.raw, holders: self.holders + 1 }),
            HolderEvent::Drop => if self.holders <= 1 {
                None
            } else {
                Some(CredView { raw: self.raw, holders: (self.holders - 1) as nat })
            },
        }
    }

    /// Whether the event makes the native handle due for release: only the
    /// drop by the last holder does.
    pub open spec fn releases_on(self, ev: HolderEvent) -> bool {
        ev == HolderEvent::Drop && self.holders <= 1
    }
}

/// One native credential, shared by one or more holders.
pub struct Cred {
    raw: RawCred,
    holders: u64,
}

/// What became of a credential when one holder let go of it.
pub enum Dropped {
    /// Others still hold it: the credential lives on with one holder less.
    Held(Cred),
    /// That was the last holder: the native handle is now to be released,
    /// once, and never used again.
    Release(RawCred),
}

impl Dropped {
    /// The credential that is left, if any.
    pub open spec fn remaining(self) -> Option<CredView> {
        match self {
            Dropped::Held(rest) => Some(rest@),
            Dropped::Release(_) => None,
        }
    }
}

impl View for Cred {
    type V = CredView;

    closed spec fn view(&self) -> CredView {
        CredView { raw: self.raw, holders: self.holders as nat }
    }
}

impl Cred {
    #[verifier::type_invariant]
    spec fn held(self) -> bool {
        self.holders >= 1
    }

    /// Takes over a native credential handle, with one holder. The handle
    /// must from now on be used through the returned value only.
    pub fn from_raw(raw: RawCred) -> (cred: Cred)
        ensures
            cred@ == CredView::fresh(raw),
    {
        Cred { raw, holders: 1 }
    }

    /// The native handle, to pass to other calls of the service while the
    /// credential is held.
    pub fn as_raw(&self) -> (raw: RawCred)
        ensures
            raw == self@.raw,
    {
        self.raw
    }

    /// The text that stands for a credential in diagnostics. It shows
    /// nothing of the native handle.
    pub fn debug_text(&self) -> (text: String)
        ensures
            text@ == "<gss credential>"@,
    {
        "<gss credential>".to_owned()
    }

    /// The number of holders: never zero.
    pub fn holders(&self) -> (n: u64)
        ensures
            n == self@.holders,
            n >= 1,
    {
        proof {
            use_type_invariant(self);
        }
        self.holders
    }

    /// Whether one more holder can be counted.
    pub fn can_add_holder(&self) -> (b: bool)
        ensures
            b <==> self@.holders < u64::MAX,
    {
        self.holders < u64::MAX
    }

    /// Counts one more holder of the same native credential. The service is
    /// not called.
    pub fn add_holder(&mut self)
        requires
            old(self)@.holders < u64::MAX,
        ensures
            Some(final(self)@) == old(self)@.after(HolderEvent::Clone),
    {
        self.holders = self.holders + 1;
    }

    /// One holder lets go. The native handle comes back for release exactly
    /// when that holder was the last one.
    pub fn drop_holder(self) -> (res: Dropped)
        ensures
            self@.holders >= 1,
            res.remaining() == self@.after(HolderEvent::Drop),
            res is Release <==> self@.releases_on(HolderEvent::Drop),
            res matches Dropped::Release(raw) ==> raw == self@.raw,
    {
        proof {
            use_type_invariant(&self);
        }
        if self.holders == 1 {
            Dropped::Release(self.raw)
        } else {
            Dropped::Held(Cred { raw: self.raw, holders: self.holders - 1 })
        }
    }
}

impl std::ops::Deref for Cred {
    type Target = RawCred;

    /// The native handle, as `as_raw` gives it.
    fn deref(&self) -> (raw: &RawCred)
        ensures
            *raw == self@.raw,
    {
        &self.raw
    }
}

} // verus!
