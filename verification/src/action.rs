//! The outside work that the session asks its caller to do.

use crate::link::LinkUnicast;
use crate::protocol::{PeerId, Priority, TransportMessage};
use vstd::prelude::*;

verus! {

/// One piece of outside work. The session decides what is to be done and in
/// which order; the caller does it, one action after the other.
#[derive(Clone, Debug, PartialEq, Eq)]
pub enum TransportAction {
    /// Enqueue `message` on the outbound pipeline of `link` at `priority`.
    Push { link: LinkUnicast, message: TransportMessage, priority: Priority },
    /// Tell the handler that `link` has left the session.
    NotifyDelLink { link: LinkUnicast },
    /// Tell the handler that the session is about to close.
    NotifyClosing,
    /// Ask the registry to forget the session of peer `pid`.
    Deregister { pid: PeerId },
    /// Stop the outbound pipeline of `link`.
    StopTx { link: LinkUnicast },
    /// Stop the inbound reader of `link`.
    StopRx { link: LinkUnicast },
    /// Close the physical link.
    CloseLink { link: LinkUnicast },
    /// Tell the handler that the session has closed.
    NotifyClosed,
}

/// How often `action` stands in `actions`.
pub open spec fn occurrences(actions: Seq<TransportAction>, action: TransportAction) -> nat
    decreases actions.len(),
{
    if actions.len() == 0 {
        0
    } else {
        occurrences(actions.drop_last(), action) + if actions.last() == action {
            1nat
        } else {
            0nat
        }
    }
}

/// An action stands in two lists in a row as often as in both together.
pub proof fn lemma_occurrences_concat(
    first: Seq<TransportAction>,
    second: Seq<TransportAction>,
    action: TransportAction,
)
    ensures
        occurrences(first + second, action) == occurrences(first, action) + occurrences(
            second,
            action,
        ),
    decreases second.len(),
{
    if second.len() == 0 {
        assert(first + second =~= first);
    } else {
        assert((first + second).drop_last() =~= first + second.drop_last());
        assert((first + second).last() == second.last());
        lemma_occurrences_concat(first, second.drop_last(), action);
    }
}

/// An action that differs from every member of a list does not stand in it.
pub proof fn lemma_occurrences_absent(actions: Seq<TransportAction>, action: TransportAction)
    requires
        forall|i: int| 0 <= i < actions.len() ==> actions[i] != action,
    ensures
        occurrences(actions, action) == 0,
    decreases actions.len(),
{
    if actions.len() > 0 {
        lemma_occurrences_absent(actions.drop_last(), action);
    }
}

} // verus!
