//! The shared close signal: a count of the handles that still hold the
//! connection, and a one-shot notification that fires when the last one lets go.

use vstd::prelude::*;

verus! {

/// The anchor as the contracts see it.
pub struct AnchorState {
    /// How many handles hold the anchor.
    pub holders: nat,
    /// Whether the close signal has fired.
    pub fired: bool,
}

impl AnchorState {
    /// A fired anchor has no holders.
    pub open spec fn wf(self) -> bool {
        self.fired ==> self.holders == 0
    }

    /// The anchor after a handle asked for a hold, and whether it got one. A
    /// fired anchor grants none, nor does one whose count cannot grow.
    pub open spec fn hold(self) -> (AnchorState, bool) {
        if self.fired || self.holders >= usize::MAX {
            (self, false)
        } else {
            (AnchorState { holders: self.holders + 1, ..self }, true)
        }
    }

    /// The anchor after a handle let go, and whether that fired the signal. The
    /// signal fires when the last holder lets go, and only then.
    pub open spec fn release(self) -> (AnchorState, bool) {
        if self.holders == 0 {
            (self, false)
        } else if self.holders == 1 {
            (AnchorState { holders: 0, fired: true }, true)
        } else {
            (AnchorState { holders: (self.holders - 1) as nat, ..self }, false)
        }
    }
}

/// The close signal that the connection summary, the accepted-stream sequence
/// and every live stream handle share.
#[derive(Debug, PartialEq, Eq)]
pub struct Anchor {
    holders: usize,
    fired: bool,
}

impl View for Anchor {
    type V = AnchorState;

    closed spec fn view(&self) -> AnchorState {
        AnchorState { holders: self.holders as nat, fired: self.fired }
    }
}

impl Anchor {
    /// An anchor that nobody holds yet and that has not fired.
    pub fn new() -> (anchor: Anchor)
        ensures
            anchor@ == (AnchorState { holders: 0, fired: false }),
    {
        Anchor { holders: 0, fired: false }
    }

    /// How many handles hold the anchor.
    pub fn holders(&self) -> (n: usize)
        ensures
            n == self@.holders,
    {
        self.holders
    }

    /// Whether the close signal has fired.
    pub fn is_fired(&self) -> (fired: bool)
        ensures
            fired == self@.fired,
    {
        self.fired
    }

    /// Takes a hold for a new handle. The answer is `false`, and nothing
    /// changes, when the signal has fired: no interest in the connection
    /// remains, and none can come back.
    pub fn hold(&mut self) -> (granted: bool)
        ensures
            final(self)@ == old(self)@.hold().0,
            granted == old(self)@.hold().1,
            old(self)@.wf() ==> final(self)@.wf(),
    {
        if self.fired || self.holders == usize::MAX {
            false
        } else {
            self.holders = self.holders + 1;
            true
        }
    }

    /// Gives up the hold of a handle that is being destroyed. The answer is
    /// `true` exactly when this was the last hold: the close signal fires now,
    /// and it never fires again.
    pub fn release(&mut self) -> (fire: bool)
        ensures
            final(self)@ == old(self)@.release().0,
            fire == old(self)@.release().1,
            old(self)@.wf() ==> final(self)@.wf(),
    {
        if self.holders == 0 {
            false
        } else if self.holders == 1 {
            self.holders = 0;
            self.fired = true;
            true
        } else {
            self.holders = self.holders - 1;
            false
        }
    }
}

/// What a handle does to the anchor.
pub enum AnchorOp {
    /// A new handle asks for a hold.
    Hold,
    /// A handle is destroyed.
    Release,
}

impl AnchorOp {
    /// The anchor after the operation.
    pub open spec fn after(self, s: AnchorState) -> AnchorState {
        match self {
            AnchorOp::Hold => s.hold().0,
            AnchorOp::Release => s.release().0,
        }
    }

    /// Whether the operation fires the signal.
    pub open spec fn fires(self, s: AnchorState) -> bool {
        match self {
            AnchorOp::Hold => false,
            AnchorOp::Release => s.release().1,
        }
    }
}

/// The anchor after a history of operations.
pub open spec fn anchor_after(s: AnchorState, history: Seq<AnchorOp>) -> AnchorState
    decreases history.len(),
{
    if history.len() == 0 {
        s
    } else {
        history.last().after(anchor_after(s, history.drop_last()))
    }
}

/// How often the signal fires during a history of operations.
pub open spec fn fire_count(s: AnchorState, history: Seq<AnchorOp>) -> nat
    decreases history.len(),
{
    if history.len() == 0 {
        0
    } else {
        fire_count(s, history.drop_last()) + if history.last().fires(
            anchor_after(s, history.drop_last()),
        ) {
            1nat
        } else {
            0nat
        }
    }
}

/// The signal fires at most once, whatever the handles do and in whatever
/// order: once over the life of an anchor that has not fired, never again for
/// one that has. It has fired at the end exactly when it had fired at the
/// start or fired on the way, and then nobody holds the anchor.
pub proof fn lemma_fires_at_most_once(s: AnchorState, history: Seq<AnchorOp>)
    requires
        s.wf(),
    ensures
        anchor_after(s, history).wf(),
        fire_count(s, history) <= 1,
        s.fired ==> fire_count(s, history) == 0,
        anchor_after(s, history).fired <==> s.fired || fire_count(s, history) == 1,
    decreases history.len(),
{
    if history.len() > 0 {
        lemma_fires_at_most_once(s, history.drop_last());
    }
}

} // verus!
