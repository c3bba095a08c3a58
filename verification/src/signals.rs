//! The handles through which waiting tasks are woken, and the history of the calls made on them.
//!
//! A `tokio` notifier or a `tokio_util` cancellation token is a shared handle: calling it changes
//! nothing that its holder can see. What matters is which calls were made, on which handles and in
//! which order, so every call goes through a [`Signals`], whose view is the list of the calls made
//! so far. The list exists in proofs alone and costs nothing when the code runs.
//!
//! In contracts a handle stands for what it refers to: two handles are equal when they refer to
//! the same notifier, or to the same node of the cancellation tree.
use std::sync::Arc;
use tokio::sync::Notify;
use tokio_util::sync::CancellationToken;
use vstd::prelude::*;

verus! {

/// `tokio::sync::Notify`, of which nothing is known but which notifier it is.
#[verifier::external_type_specification]
#[verifier::external_body]
pub struct ExNotify(tokio::sync::Notify);

/// `tokio_util::sync::CancellationToken`, of which nothing is known but which node of the
/// cancellation tree it refers to.
#[verifier::external_type_specification]
#[verifier::external_body]
pub struct ExCancellationToken(tokio_util::sync::CancellationToken);

/// One call on a shared handle.
pub ghost enum Signal {
    /// A notifier was told to let one waiting task go on, or the next one that waits.
    Notified(Arc<Notify>),
    /// A token was cancelled, and with it all that was derived from it.
    Cancelled(CancellationToken),
    /// `child` was derived from `parent`: it is cancelled whenever `parent` is.
    Derived { parent: CancellationToken, child: CancellationToken },
}

/// The one way to call a shared handle. Its view is the history of the calls made through it.
pub struct Signals {
    history: Ghost<Seq<Signal>>,
}

impl View for Signals {
    type V = Seq<Signal>;

    closed spec fn view(&self) -> Seq<Signal> {
        self.history@
    }
}

/// `token` occurs in `history` as one that was derived from another.
pub open spec fn was_derived(history: Seq<Signal>, token: CancellationToken) -> bool {
    exists|i: int|
        0 <= i < history.len() && (#[trigger] history[i] matches Signal::Derived { child, .. }
            && child == token)
}

/// A call on a handle leaves the earlier history in place.
pub proof fn lemma_push(history: Seq<Signal>, signal: Signal)
    ensures
        forall|s: Signal| #[trigger]
            history.push(signal).contains(s) <==> history.contains(s) || s == signal,
        forall|c: CancellationToken| #[trigger]
            was_derived(history.push(signal), c) <==> was_derived(history, c)
                || (signal is Derived && signal->child == c),
{
    let after = history.push(signal);
    assert forall|s: Signal| #[trigger] after.contains(s) <==> history.contains(s) || s
        == signal by {
        if history.contains(s) {
            let i = choose|i: int| 0 <= i < history.len() && history[i] == s;
            assert(after[i] == s);
        }
        if s == signal {
            assert(after[history.len() as int] == s);
        }
    }
    assert forall|c: CancellationToken| #[trigger]
        was_derived(after, c) <==> was_derived(history, c) || (signal is Derived && signal->child
            == c) by {
        if was_derived(history, c) {
            let i = choose|i: int|
                0 <= i < history.len() && (#[trigger] history[i] matches Signal::Derived {
                    child,
                    ..
                } && child == c);
            assert(after[i] == history[i]);
        }
        if signal is Derived && signal->child == c {
            assert(after[history.len() as int] == signal);
        }
    }
}

/// A derived token occurs as such in the history.
pub proof fn lemma_derived(history: Seq<Signal>, parent: CancellationToken, child: CancellationToken)
    requires
        history.contains(Signal::Derived { parent, child }),
    ensures
        was_derived(history, child),
{
    let i = choose|i: int|
        0 <= i < history.len() && history[i] == (Signal::Derived { parent, child });
    assert(history[i] matches Signal::Derived { child: c, .. } && c == child);
}

impl Signals {
    /// No call has been made yet.
    pub fn new() -> (r: Self)
        ensures
            r@ == Seq::<Signal>::empty(),
    {
        Signals { history: Ghost(Seq::empty()) }
    }

    /// Calls `tokio::sync::Notify::notify_one` on `target`. The contract claims that the call was
    /// made on that notifier, once and after all earlier ones. Which task it wakes, and when, is
    /// up to the runtime and is left unsaid.
    #[verifier::external_body]
    pub(crate) fn notify_one(&mut self, target: &Arc<Notify>)
        ensures
            final(self)@ == old(self)@.push(Signal::Notified(*target)),
    {
        target.notify_one();
    }

    /// Calls `tokio_util::sync::CancellationToken::cancel` on `token`. The contract claims that the
    /// call was made on that token, once and after all earlier ones.
    #[verifier::external_body]
    pub(crate) fn cancel(&mut self, token: &CancellationToken)
        ensures
            final(self)@ == old(self)@.push(Signal::Cancelled(*token)),
    {
        token.cancel();
    }

    /// Calls `tokio_util::sync::CancellationToken::child_token` on `parent`. The contract claims
    /// that the result was derived from `parent` by this call, and that it is a new node of the
    /// cancellation tree: neither `parent` itself nor one that an earlier call derived.
    #[verifier::external_body]
    pub(crate) fn child_token(&mut self, parent: &CancellationToken) -> (r: CancellationToken)
        ensures
            final(self)@ == old(self)@.push(Signal::Derived { parent: *parent, child: r }),
            r != *parent,
            !was_derived(old(self)@, r),
    {
        parent.child_token()
    }
}

/// Calls `tokio_util::sync::CancellationToken::new`. Nothing is claimed of the token that comes
/// back.
#[verifier::external_body]
pub(crate) fn new_token() -> (r: CancellationToken)
{
    CancellationToken::new()
}

/// Calls `clone` on a `tokio_util::sync::CancellationToken`. The contract claims that the result
/// refers to the same node: cancelling one of the two cancels the other.
#[verifier::external_body]
pub(crate) fn clone_token(token: &CancellationToken) -> (r: CancellationToken)
    ensures
        r == *token,
{
    token.clone()
}

} // verus!
