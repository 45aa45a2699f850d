//! One tick per pool action.
//!
//! A pool may emit many events per action, all under one key. The first
//! invocation that places a mark under the key emits the tick; the others see
//! the mark and skip. The mark is placed by compare-and-swap in the host's
//! key-value store, one operation at a time: [`mark_if_unseen`] says, after each
//! answer of the store, what to do next.
use vstd::prelude::*;
use vstd::string::*;

verus! {

/// The bucket that holds the marks.
pub const BUCKET: &'static str = "blend-rebalance-circuit-tombstones";

/// The one byte of the mark: the digit one.
pub const MARK: u8 = 49;

/// What the store answered.
#[derive(Debug, PartialEq, Eq)]
pub enum TombstoneEvent {
    /// The invocation begins.
    Started,
    Opened,
    OpenFailed(String),
    /// A compare-and-swap handle on the key was made.
    CasReady,
    CasOpenFailed(String),
    /// The handle's value was read: whether there is one.
    Current(bool),
    CurrentFailed(String),
    Swapped,
    /// The value changed since it was read.
    SwapLost,
    SwapFailed(String),
}

/// What to do next.
#[derive(Debug, PartialEq, Eq)]
pub enum TombstoneAction {
    /// Open the bucket of this name.
    OpenBucket(String),
    /// Make a compare-and-swap handle on the key.
    NewCas,
    /// Read the handle's value.
    ReadCurrent,
    /// Swap these bytes, the mark, in.
    SwapMark(Vec<u8>),
    /// Finish: whether this invocation was the one that placed the mark.
    Finish(bool),
    /// Give up with this message.
    GiveUp(String),
}

/// What a [`TombstoneAction`] says.
#[verifier::ext_equal]
pub enum TombstoneActionView {
    OpenBucket(Seq<char>),
    NewCas,
    ReadCurrent,
    SwapMark(Seq<u8>),
    Finish(bool),
    GiveUp(Seq<char>),
}

impl View for TombstoneAction {
    type V = TombstoneActionView;

    open spec fn view(&self) -> TombstoneActionView {
        match *self {
            TombstoneAction::OpenBucket(bucket) => TombstoneActionView::OpenBucket(bucket@),
            TombstoneAction::NewCas => TombstoneActionView::NewCas,
            TombstoneAction::ReadCurrent => TombstoneActionView::ReadCurrent,
            TombstoneAction::SwapMark(mark) => TombstoneActionView::SwapMark(mark@),
            TombstoneAction::Finish(first) => TombstoneActionView::Finish(first),
            TombstoneAction::GiveUp(message) => TombstoneActionView::GiveUp(message@),
        }
    }
}

/// What an invocation does after `event`. A key that is marked already ends it;
/// an empty one is swapped, and a swap that was lost starts over.
pub open spec fn reaction(event: TombstoneEvent) -> TombstoneActionView {
    match event {
        TombstoneEvent::Started => TombstoneActionView::OpenBucket(BUCKET@),
        TombstoneEvent::Opened => TombstoneActionView::NewCas,
        TombstoneEvent::OpenFailed(e) => TombstoneActionView::GiveUp("open kv bucket: "@ + e@),
        TombstoneEvent::CasReady => TombstoneActionView::ReadCurrent,
        TombstoneEvent::CasOpenFailed(e) => TombstoneActionView::GiveUp("cas open: "@ + e@),
        TombstoneEvent::Current(marked) => if marked {
            TombstoneActionView::Finish(false)
        } else {
            TombstoneActionView::SwapMark(seq![MARK])
        },
        TombstoneEvent::CurrentFailed(e) => TombstoneActionView::GiveUp("cas current: "@ + e@),
        TombstoneEvent::Swapped => TombstoneActionView::Finish(true),
        TombstoneEvent::SwapLost => TombstoneActionView::NewCas,
        TombstoneEvent::SwapFailed(e) => TombstoneActionView::GiveUp(
            "cas swap store error: "@ + e@,
        ),
    }
}

fn give_up(what: &str, e: String) -> (r: TombstoneAction)
    ensures
        r@ == TombstoneActionView::GiveUp(what@ + e@),
{
    let mut message = what.to_string();
    message.append(e.as_str());
    TombstoneAction::GiveUp(message)
}

/// Go on with marking a key. In the end exactly the invocation that placed the
/// mark finishes with `true`; every other one that finishes does so with
/// `false`.
pub fn mark_if_unseen(event: TombstoneEvent) -> (r: TombstoneAction)
    ensures
        r@ == reaction(event),
{
    match event {
        TombstoneEvent::Started => TombstoneAction::OpenBucket(BUCKET.to_string()),
        TombstoneEvent::Opened => TombstoneAction::NewCas,
        TombstoneEvent::OpenFailed(e) => give_up("open kv bucket: ", e),
        TombstoneEvent::CasReady => TombstoneAction::ReadCurrent,
        TombstoneEvent::CasOpenFailed(e) => give_up("cas open: ", e),
        TombstoneEvent::Current(marked) => if marked {
            TombstoneAction::Finish(false)
        } else {
            let mut mark: Vec<u8> = Vec::new();
            mark.push(MARK);
            TombstoneAction::SwapMark(mark)
        },
        TombstoneEvent::CurrentFailed(e) => give_up("cas current: ", e),
        TombstoneEvent::Swapped => TombstoneAction::Finish(true),
        TombstoneEvent::SwapLost => TombstoneAction::NewCas,
        TombstoneEvent::SwapFailed(e) => give_up("cas swap store error: ", e),
    }
}

/// The store's answer `event` to `action` on a key that is `marked` or not, and
/// whether the key is marked afterwards. Operations may fail; a swap goes
/// through only on a key that still is as it was read, that is, without a mark.
pub open spec fn store_may_answer(
    marked: bool,
    action: TombstoneActionView,
    event: TombstoneEvent,
    marked_after: bool,
) -> bool {
    match action {
        TombstoneActionView::OpenBucket(_) => {
            &&& event is Opened || event is OpenFailed
            &&& marked_after == marked
        },
        TombstoneActionView::NewCas => {
            &&& event is CasReady || event is CasOpenFailed
            &&& marked_after == marked
        },
        TombstoneActionView::ReadCurrent => {
            &&& event == TombstoneEvent::Current(marked) || event is CurrentFailed
            &&& marked_after == marked
        },
        TombstoneActionView::SwapMark(_) => {
            ||| event is Swapped && !marked && marked_after
            ||| (event is SwapLost || event is SwapFailed) && marked_after == marked
        },
        TombstoneActionView::Finish(_) => false,
        TombstoneActionView::GiveUp(_) => false,
    }
}

/// Many invocations at work on one key: what each of them does next, and whether
/// the key is marked.
#[verifier::ext_equal]
pub struct Invocations {
    pub marked: bool,
    pub next: Seq<TombstoneActionView>,
}

/// `n` invocations begin on a key without a mark.
pub open spec fn begun(n: nat) -> Invocations {
    Invocations {
        marked: false,
        next: Seq::new(n, |i: int| reaction(TombstoneEvent::Started)),
    }
}

/// Invocation `i` performs one operation, and reacts to the answer.
pub open spec fn advances(
    before: Invocations,
    after: Invocations,
    i: int,
    event: TombstoneEvent,
) -> bool {
    &&& 0 <= i < before.next.len()
    &&& store_may_answer(before.marked, before.next[i], event, after.marked)
    &&& after.next == before.next.update(i, reaction(event))
}

/// Some invocation performs one operation.
pub open spec fn some_advances(before: Invocations, after: Invocations) -> bool {
    exists|i: int, event: TombstoneEvent| advances(before, after, i, event)
}

/// `states` is an interleaving: in each step one invocation performs one
/// operation.
pub open spec fn interleaving(states: Seq<Invocations>) -> bool {
    forall|k: int|
        0 <= k < states.len() - 1 ==> some_advances(#[trigger] states[k], states[k + 1])
}

/// The key is marked as soon as anyone has finished, and at most one invocation
/// has finished with `true`.
pub open spec fn orderly(s: Invocations) -> bool {
    &&& forall|i: int|
        0 <= i < s.next.len() && (#[trigger] s.next[i]) is Finish ==> s.marked
    &&& forall|i: int, j: int|
        0 <= i < s.next.len() && 0 <= j < s.next.len() && #[trigger] s.next[i]
            == TombstoneActionView::Finish(true) && #[trigger] s.next[j]
            == TombstoneActionView::Finish(true) ==> i == j
    &&& s.marked ==> exists|i: int|
        0 <= i < s.next.len() && #[trigger] s.next[i] == TombstoneActionView::Finish(true)
}

proof fn lemma_step_is_orderly(
    before: Invocations,
    after: Invocations,
    i: int,
    event: TombstoneEvent,
)
    requires
        orderly(before),
        advances(before, after, i, event),
    ensures
        orderly(after),
{
    assert(before.next[i] !is Finish);
    if after.marked && before.marked {
        let w = choose|w: int|
            0 <= w < before.next.len() && #[trigger] before.next[w] == TombstoneActionView::Finish(
                true,
            );
        assert(w != i);
        assert(after.next[w] == TombstoneActionView::Finish(true));
    }
    if after.marked && !before.marked {
        assert(after.next[i] == TombstoneActionView::Finish(true));
    }
    assert forall|j: int| 0 <= j < after.next.len() && (
    #[trigger] after.next[j]) is Finish implies after.marked by {
        if j != i {
            assert(before.next[j] is Finish);
        }
    }
    assert forall|j: int, k: int|
        0 <= j < after.next.len() && 0 <= k < after.next.len() && #[trigger] after.next[j]
            == TombstoneActionView::Finish(true) && #[trigger] after.next[k]
            == TombstoneActionView::Finish(true) implies j == k by {
        if j != i {
            assert(before.next[j] is Finish);
        }
        if k != i {
            assert(before.next[k] is Finish);
        }
    }
}

/// However any number of invocations interleave on one key, and whichever
/// operations fail, the key is marked exactly when one of them has finished with
/// `true`, at most one ever does, and none finishes at all before that.
pub proof fn law_at_most_one_marks(n: nat, states: Seq<Invocations>)
    requires
        states.len() > 0,
        states[0] == begun(n),
        interleaving(states),
    ensures
        orderly(states.last()),
    decreases states.len(),
{
    if states.len() > 1 {
        let earlier = states.drop_last();
        let k = states.len() - 2;
        assert forall|m: int| 0 <= m < earlier.len() - 1 implies some_advances(
            #[trigger] earlier[m],
            earlier[m + 1],
        ) by {
            assert(earlier[m] == states[m] && earlier[m + 1] == states[m + 1]);
        }
        law_at_most_one_marks(n, earlier);
        assert(earlier.last() == states[k]);
        let (before, after) = (states[k], states[k + 1]);
        assert(some_advances(before, after));
        let (i, event) = choose|i: int, event: TombstoneEvent| advances(before, after, i, event);
        lemma_step_is_orderly(before, after, i, event);
    }
}

/// An invocation opens the bucket, makes a handle, reads, and swaps the mark in
/// where there was none. It finishes with `true` only when its swap went through
/// and with `false` only when the key was marked; a lost swap makes a new handle;
/// a failure ends it with what failed and why.
pub proof fn law_marking_step_by_step(e: String)
    ensures
        reaction(TombstoneEvent::Started) == TombstoneActionView::OpenBucket(
            "blend-rebalance-circuit-tombstones"@,
        ),
        reaction(TombstoneEvent::Opened) == TombstoneActionView::NewCas,
        reaction(TombstoneEvent::CasReady) == TombstoneActionView::ReadCurrent,
        reaction(TombstoneEvent::Current(false)) == TombstoneActionView::SwapMark(seq![49u8]),
        reaction(TombstoneEvent::Current(true)) == TombstoneActionView::Finish(false),
        reaction(TombstoneEvent::Swapped) == TombstoneActionView::Finish(true),
        reaction(TombstoneEvent::SwapLost) == TombstoneActionView::NewCas,
        reaction(TombstoneEvent::OpenFailed(e)) == TombstoneActionView::GiveUp(
            "open kv bucket: "@ + e@,
        ),
        reaction(TombstoneEvent::CasOpenFailed(e)) == TombstoneActionView::GiveUp(
            "cas open: "@ + e@,
        ),
        reaction(TombstoneEvent::CurrentFailed(e)) == TombstoneActionView::GiveUp(
            "cas current: "@ + e@,
        ),
        reaction(TombstoneEvent::SwapFailed(e)) == TombstoneActionView::GiveUp(
            "cas swap store error: "@ + e@,
        ),
{
}

/// Actions are seen as what they hold.
pub proof fn law_action_views(s: String, mark: Vec<u8>, first: bool)
    ensures
        TombstoneAction::OpenBucket(s)@ == TombstoneActionView::OpenBucket(s@),
        TombstoneAction::NewCas@ == TombstoneActionView::NewCas,
        TombstoneAction::ReadCurrent@ == TombstoneActionView::ReadCurrent,
        TombstoneAction::SwapMark(mark)@ == TombstoneActionView::SwapMark(mark@),
        TombstoneAction::Finish(first)@ == TombstoneActionView::Finish(first),
        TombstoneAction::GiveUp(s)@ == TombstoneActionView::GiveUp(s@),
{
}

} // verus!
