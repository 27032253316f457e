//! What holds of the session's operations, proved over the model of its
//! state.

use crate::action::{lemma_occurrences_absent, lemma_occurrences_concat, occurrences, TransportAction};
use crate::config::TransportUnicastConfig;
use crate::error::TransportError;
use crate::link::{LinkUnicast, TransportLinkUnicast};
use crate::protocol::{PeerId, Priority};
use crate::state::{close_all, close_pushes, first_tx_link, link_ids, EffectsView, TransportView};
use std::time::Duration;
use vstd::prelude::*;

verus! {

/// Whether `action` is one of those that close a link: stopping one of its
/// halves or closing the physical link.
pub open spec fn closes_a_link(action: TransportAction) -> bool {
    action is StopTx || action is StopRx || action is CloseLink
}

/// Closing wrappers asks for nothing but stopping and closing links.
pub proof fn lemma_close_all_closes_links(links: Seq<TransportLinkUnicast>)
    ensures
        forall|i: int| 0 <= i < close_all(links).len() ==> closes_a_link(#[trigger] close_all(links)[i]),
    decreases links.len(),
{
    let f = |l: TransportLinkUnicast| l.close_actions();
    if links.len() == 0 {
        assert(links.map_values(f) =~= Seq::<Seq<TransportAction>>::empty());
    } else {
        let rest = links.drop_last();
        lemma_close_all_closes_links(rest);
        assert(links.map_values(f) =~= rest.map_values(f).push(f(links.last())));
        rest.map_values(f).lemma_flatten_push(f(links.last()));
        assert(close_all(links) =~= close_all(rest) + links.last().close_actions());
    }
}

/// The close messages are requests to enqueue, one for each link, and
/// nothing else.
pub proof fn lemma_close_pushes_push(links: Seq<TransportLinkUnicast>, local: PeerId, reason: u8)
    ensures
        forall|i: int|
            0 <= i < close_pushes(links, local, reason).len() ==> (#[trigger] close_pushes(
                links,
                local,
                reason,
            )[i]) is Push,
        close_pushes(links, local, reason).len() <= links.len(),
    decreases links.len(),
{
    if links.len() > 0 {
        lemma_close_pushes_push(links.drop_last(), local, reason);
    }
}

/// No operation breaks what holds of every session: the conduits stay as
/// they are, the link set never outgrows the manager's maximum and never
/// holds a physical link twice.
pub proof fn lemma_operations_keep_wf<H>(
    s: TransportView<H>,
    link: LinkUnicast,
    keep_alive: Duration,
    batch_size: u16,
    lease: Duration,
)
    requires
        s.wf(),
    ensures
        s.after_add_link(link).wf(),
        s.after_start_tx(link, keep_alive, batch_size).wf(),
        s.after_stop_tx(link).wf(),
        s.after_start_rx(link, lease).wf(),
        s.after_stop_rx(link).wf(),
        s.after_del_link(link).wf(),
        s.after_close_link(link).wf(),
        s.after_delete().wf(),
        s.after_close().wf(),
        s.after_add_link(link).conduit_tx == s.conduit_tx,
        s.after_add_link(link).conduit_rx == s.conduit_rx,
        s.after_del_link(link).conduit_tx == s.conduit_tx,
        s.after_del_link(link).conduit_rx == s.conduit_rx,
        s.after_delete().conduit_tx == s.conduit_tx,
        s.after_delete().conduit_rx == s.conduit_rx,
{
    s.lemma_position(link);
    let ids = link_ids(s.links);
    assert(link_ids(Seq::<TransportLinkUnicast>::empty()) =~= Seq::<LinkUnicast>::empty());
    if s.add_link_result(link).is_ok() {
        let after = link_ids(s.after_add_link(link).links);
        assert(after =~= ids.push(link));
        assert forall|i: int, j: int|
            0 <= i < after.len() && 0 <= j < after.len() && i != j implies after[i] != after[j] by {
            if i < ids.len() {
                assert(ids[i] == s.links[i].link);
            }
            if j < ids.len() {
                assert(ids[j] == s.links[j].link);
            }
        }
    }
    match s.position(link) {
        Some(i) => {
            assert(link_ids(s.after_start_tx(link, keep_alive, batch_size).links) =~= ids);
            assert(link_ids(s.after_stop_tx(link).links) =~= ids);
            assert(link_ids(s.after_start_rx(link, lease).links) =~= ids);
            assert(link_ids(s.after_stop_rx(link).links) =~= ids);
            if s.links.len() >= 2 {
                lemma_del_other_link(s, link);
            }
        },
        None => {},
    }
}

/// A session that is full refuses one more link and keeps its link set.
pub proof fn lemma_add_link_at_capacity<H>(s: TransportView<H>, link: LinkUnicast)
    requires
        s.links.len() >= s.manager.max_links,
    ensures
        s.add_link_result(link) == Err::<(), TransportError>(TransportError::LinkLimitExceeded),
        s.after_add_link(link) == s,
        s.after_add_link(link).links.len() == s.links.len(),
{
}

/// A link is refused as a duplicate when it is added a second time, where
/// the session has room for two more links.
pub proof fn lemma_add_link_twice<H>(s: TransportView<H>, link: LinkUnicast)
    requires
        s.links.len() + 1 < s.manager.max_links,
    ensures
        s.after_add_link(link).add_link_result(link) == Err::<(), TransportError>(
            TransportError::DuplicateLink,
        ),
        s.after_add_link(link).after_add_link(link) == s.after_add_link(link),
{
    let after = s.after_add_link(link);
    after.lemma_position(link);
    if s.add_link_result(link).is_ok() {
        assert(after.links[s.links.len() as int].link == link);
    }
}

/// On a link that is not registered every operation on one link fails with
/// `LinkNotFound` and leaves the session as it was.
pub proof fn lemma_unregistered_link<H>(
    s: TransportView<H>,
    link: LinkUnicast,
    keep_alive: Duration,
    batch_size: u16,
    lease: Duration,
    reason: u8,
)
    requires
        s.position(link).is_none(),
    ensures
        s.on_link_result(link) == Err::<(), TransportError>(TransportError::LinkNotFound),
        s.after_start_tx(link, keep_alive, batch_size) == s,
        s.after_stop_tx(link) == s,
        s.after_start_rx(link, lease) == s,
        s.after_stop_rx(link) == s,
        s.del_link_effects(link) == Err::<EffectsView<H>, TransportError>(
            TransportError::LinkNotFound,
        ),
        s.after_del_link(link) == s,
        s.close_link_effects(link, reason) == Err::<EffectsView<H>, TransportError>(
            TransportError::LinkNotFound,
        ),
        s.after_close_link(link) == s,
{
}

/// Once the delete sequence has run, the session is closed for good: a
/// second run asks for nothing, hands out no handler and changes nothing.
pub proof fn lemma_delete_is_final<H>(s: TransportView<H>)
    ensures
        !s.after_delete().alive,
        s.after_delete().delete_effects() == (EffectsView::<H> {
            handler: None,
            actions: Seq::empty(),
        }),
        s.after_delete().after_delete() == s.after_delete(),
{
}

/// The delete sequence of a live session deregisters the peer exactly once
/// and, where a handler was set, tells it `closing` exactly once and
/// `closed` exactly once, `closing` first and `closed` last; without a
/// handler neither is told.
pub proof fn lemma_delete_notifies_once<H>(s: TransportView<H>)
    requires
        s.alive,
    ensures
        s.delete_effects().handler == s.callback,
        occurrences(s.delete_effects().actions, TransportAction::Deregister { pid: s.pid }) == 1,
        occurrences(s.delete_effects().actions, TransportAction::NotifyClosing) == (if s.callback.is_some() {
            1nat
        } else {
            0nat
        }),
        occurrences(s.delete_effects().actions, TransportAction::NotifyClosed) == (if s.callback.is_some() {
            1nat
        } else {
            0nat
        }),
        s.callback.is_some() ==> s.delete_effects().actions.first() == TransportAction::NotifyClosing
            && s.delete_effects().actions.last() == TransportAction::NotifyClosed,
{
    let closing = if s.callback.is_some() {
        seq![TransportAction::NotifyClosing]
    } else {
        Seq::empty()
    };
    let closed = if s.callback.is_some() {
        seq![TransportAction::NotifyClosed]
    } else {
        Seq::empty()
    };
    let dereg = seq![TransportAction::Deregister { pid: s.pid }];
    let links = close_all(s.links);
    lemma_close_all_closes_links(s.links);
    lemma_count_in_delete(closing, dereg, links, closed, TransportAction::Deregister { pid: s.pid });
    lemma_count_in_delete(closing, dereg, links, closed, TransportAction::NotifyClosing);
    lemma_count_in_delete(closing, dereg, links, closed, TransportAction::NotifyClosed);
    lemma_occurrences_absent(links, TransportAction::Deregister { pid: s.pid });
    lemma_occurrences_absent(links, TransportAction::NotifyClosing);
    lemma_occurrences_absent(links, TransportAction::NotifyClosed);
    lemma_count_short(closing, TransportAction::Deregister { pid: s.pid });
    lemma_count_short(closing, TransportAction::NotifyClosing);
    lemma_count_short(closing, TransportAction::NotifyClosed);
    lemma_count_short(closed, TransportAction::Deregister { pid: s.pid });
    lemma_count_short(closed, TransportAction::NotifyClosing);
    lemma_count_short(closed, TransportAction::NotifyClosed);
    lemma_count_short(dereg, TransportAction::Deregister { pid: s.pid });
    lemma_count_short(dereg, TransportAction::NotifyClosing);
    lemma_count_short(dereg, TransportAction::NotifyClosed);
}

/// Removing the only link of a live session closes the session: it is no
/// longer alive, its link set and its handler slot are empty, and what is
/// asked for is the delete sequence: `closing`, deregistration, the closing
/// of the link, `closed`, each exactly once (the two notifications only
/// where a handler was set).
pub proof fn lemma_del_last_link<H>(s: TransportView<H>, link: LinkUnicast)
    requires
        s.alive,
        s.links.len() == 1,
        s.links[0].link == link,
    ensures
        !s.after_del_link(link).alive,
        s.after_del_link(link).links == Seq::<TransportLinkUnicast>::empty(),
        s.after_del_link(link).callback == None::<H>,
        s.del_link_effects(link) == Ok::<EffectsView<H>, TransportError>(s.delete_effects()),
        s.delete_effects().handler == s.callback,
        s.callback.is_some() ==> s.delete_effects().actions == seq![
            TransportAction::NotifyClosing,
            TransportAction::Deregister { pid: s.pid },
        ] + s.links[0].close_actions() + seq![TransportAction::NotifyClosed],
        s.callback.is_none() ==> s.delete_effects().actions == seq![
            TransportAction::Deregister { pid: s.pid },
        ] + s.links[0].close_actions(),
        occurrences(s.delete_effects().actions, TransportAction::Deregister { pid: s.pid }) == 1,
        occurrences(s.delete_effects().actions, TransportAction::NotifyClosing) == (if s.callback.is_some() {
            1nat
        } else {
            0nat
        }),
        occurrences(s.delete_effects().actions, TransportAction::NotifyClosed) == (if s.callback.is_some() {
            1nat
        } else {
            0nat
        }),
{
    s.lemma_position(link);
    lemma_delete_notifies_once(s);
    let f = |l: TransportLinkUnicast| l.close_actions();
    s.links.map_values(f).lemma_flatten_singleton();
    assert(close_all(s.links) == s.links[0].close_actions());
    if s.callback.is_some() {
        assert(s.delete_effects().actions =~= seq![
            TransportAction::NotifyClosing,
            TransportAction::Deregister { pid: s.pid },
        ] + s.links[0].close_actions() + seq![TransportAction::NotifyClosed]);
    } else {
        assert(s.delete_effects().actions =~= seq![TransportAction::Deregister { pid: s.pid }]
            + s.links[0].close_actions());
    }
}

/// Removing a link that is not the last leaves the session as alive as it
/// was, with its handler and with all other links untouched and in their
/// order. The removed link is no longer registered. The handler, if there
/// is one, is told of the removal exactly once, before the link is closed;
/// no handler is taken and nothing of the delete sequence is asked for.
pub proof fn lemma_del_other_link<H>(s: TransportView<H>, link: LinkUnicast)
    requires
        s.wf(),
        s.links.len() >= 2,
        s.position(link).is_some(),
    ensures
        s.after_del_link(link).alive == s.alive,
        s.after_del_link(link).callback == s.callback,
        s.after_del_link(link).links == s.links.remove(s.position(link).unwrap()),
        s.after_del_link(link).links.len() == s.links.len() - 1,
        forall|j: int|
            0 <= j < s.position(link).unwrap() ==> s.after_del_link(link).links[j] == s.links[j],
        forall|j: int|
            s.position(link).unwrap() <= j < s.links.len() - 1 ==> s.after_del_link(link).links[j]
                == s.links[j + 1],
        s.after_del_link(link).position(link).is_none(),
        s.after_del_link(link).wf(),
        s.del_link_effects(link).is_ok(),
        s.del_link_effects(link).unwrap().handler == None::<H>,
        s.del_link_effects(link).unwrap().actions == (if s.callback.is_some() {
            seq![TransportAction::NotifyDelLink { link }]
        } else {
            Seq::empty()
        }) + s.wrapper(link).close_actions(),
        occurrences(
            s.del_link_effects(link).unwrap().actions,
            TransportAction::NotifyDelLink { link },
        ) == (if s.callback.is_some() {
            1nat
        } else {
            0nat
        }),
        occurrences(s.del_link_effects(link).unwrap().actions, TransportAction::NotifyClosing) == 0,
        occurrences(s.del_link_effects(link).unwrap().actions, TransportAction::NotifyClosed) == 0,
        occurrences(
            s.del_link_effects(link).unwrap().actions,
            TransportAction::Deregister { pid: s.pid },
        ) == 0,
{
    let i = s.position(link).unwrap();
    s.lemma_position(link);
    let after = s.after_del_link(link);
    let before_ids = link_ids(s.links);
    let after_ids = link_ids(after.links);
    assert(after_ids =~= before_ids.remove(i));
    assert forall|a: int, b: int|
        0 <= a < after_ids.len() && 0 <= b < after_ids.len() && a != b implies after_ids[a]
        != after_ids[b] by {
        let sa = if a < i { a } else { a + 1 };
        let sb = if b < i { b } else { b + 1 };
        assert(after_ids[a] == before_ids[sa]);
        assert(after_ids[b] == before_ids[sb]);
    }
    after.lemma_position(link);
    if after.position(link).is_some() {
        let k = after.position(link).unwrap();
        let sk = if k < i { k } else { k + 1 };
        assert(after.links[k] == s.links[sk]);
        assert(before_ids[sk] == link);
        assert(before_ids[i] == link);
    }
    let notify = if s.callback.is_some() {
        seq![TransportAction::NotifyDelLink { link }]
    } else {
        Seq::empty()
    };
    let closing = s.links[i].close_actions();
    lemma_count_short(notify, TransportAction::NotifyDelLink { link });
    lemma_count_short(notify, TransportAction::NotifyClosing);
    lemma_count_short(notify, TransportAction::NotifyClosed);
    lemma_count_short(notify, TransportAction::Deregister { pid: s.pid });
    lemma_occurrences_absent(closing, TransportAction::NotifyDelLink { link });
    lemma_occurrences_absent(closing, TransportAction::NotifyClosing);
    lemma_occurrences_absent(closing, TransportAction::NotifyClosed);
    lemma_occurrences_absent(closing, TransportAction::Deregister { pid: s.pid });
    lemma_occurrences_concat(notify, closing, TransportAction::NotifyDelLink { link });
    lemma_occurrences_concat(notify, closing, TransportAction::NotifyClosing);
    lemma_occurrences_concat(notify, closing, TransportAction::NotifyClosed);
    lemma_occurrences_concat(notify, closing, TransportAction::Deregister { pid: s.pid });
}

/// Whichever of `close` and `delete` reaches a live session first runs the
/// delete sequence; the other finds the session closed. Over both calls
/// together the handler is told `closing` once and `closed` once where one
/// was set, never twice, and the peer is deregistered once. The call that
/// comes second asks for nothing.
pub proof fn lemma_close_and_delete_once<H>(s: TransportView<H>, reason: u8)
    requires
        s.alive,
    ensures
        // close, then delete
        s.after_close().delete_effects() == (EffectsView::<H> {
            handler: None,
            actions: Seq::empty(),
        }),
        s.after_close().after_delete() == s.after_close(),
        s.close_effects(reason).handler == s.callback,
        // delete, then close
        s.after_delete().close_effects(reason) == (EffectsView::<H> {
            handler: None,
            actions: Seq::empty(),
        }),
        s.after_delete().after_close() == s.after_delete(),
        // either way
        s.after_close() == s.after_delete(),
        !s.after_close().alive,
        forall|action: TransportAction|
            action is NotifyClosing || action is NotifyClosed || action is Deregister ==> occurrences(
                s.close_effects(reason).actions + s.after_close().delete_effects().actions,
                action,
            ) == #[trigger] occurrences(s.delete_effects().actions, action) && occurrences(
                s.delete_effects().actions + s.after_delete().close_effects(reason).actions,
                action,
            ) == occurrences(s.delete_effects().actions, action),
        occurrences(s.delete_effects().actions, TransportAction::NotifyClosing) == (if s.callback.is_some() {
            1nat
        } else {
            0nat
        }),
        occurrences(s.delete_effects().actions, TransportAction::NotifyClosed) == (if s.callback.is_some() {
            1nat
        } else {
            0nat
        }),
        occurrences(s.delete_effects().actions, TransportAction::Deregister { pid: s.pid }) == 1,
{
    lemma_delete_notifies_once(s);
    let pushes = close_pushes(s.links, s.manager.pid, reason);
    let closed_pushes = close_pushes(s.after_delete().links, s.manager.pid, reason);
    assert(closed_pushes =~= Seq::<TransportAction>::empty());
    assert(s.after_delete().close_effects(reason).actions =~= Seq::<TransportAction>::empty());
    lemma_close_pushes_push(s.links, s.manager.pid, reason);
    assert forall|action: TransportAction|
        action is NotifyClosing || action is NotifyClosed || action is Deregister implies occurrences(
        s.close_effects(reason).actions + s.after_close().delete_effects().actions,
        action,
    ) == #[trigger] occurrences(s.delete_effects().actions, action) && occurrences(
        s.delete_effects().actions + s.after_delete().close_effects(reason).actions,
        action,
    ) == occurrences(s.delete_effects().actions, action) by {
        let none = Seq::<TransportAction>::empty();
        assert(s.close_effects(reason).actions + none =~= s.close_effects(reason).actions);
        assert(s.delete_effects().actions + none =~= s.delete_effects().actions);
        lemma_occurrences_absent(pushes, action);
        lemma_occurrences_concat(pushes, s.delete_effects().actions, action);
    }
}

/// A session made with priorities has one conduit per priority class in
/// each direction and tells messages apart by priority; one made without
/// has a single conduit in each direction and does not.
pub proof fn lemma_qos_conduits<H>(s: TransportView<H>, config: TransportUnicastConfig)
    requires
        s.starts_from(config),
    ensures
        s.is_qos() == config.is_qos,
        config.is_qos ==> s.conduit_tx.len() == Priority::NUM && s.conduit_rx.len() == Priority::NUM,
        !config.is_qos ==> s.conduit_tx.len() == 1 && s.conduit_rx.len() == 1,
        s.wf(),
{
    assert(link_ids(s.links) =~= Seq::<LinkUnicast>::empty());
}

/// The link that takes a message is the first in the order of registration
/// whose TX half is started; no link takes it where no TX half is started.
pub proof fn lemma_first_fit(links: Seq<TransportLinkUnicast>)
    ensures
        match first_tx_link(links) {
            Some(link) => exists|i: int|
                0 <= i < links.len() && (#[trigger] links[i]).pipeline.is_some() && links[i].link
                    == link && forall|j: int| 0 <= j < i ==> (#[trigger] links[j]).pipeline.is_none(),
            None => forall|j: int| 0 <= j < links.len() ==> (#[trigger] links[j]).pipeline.is_none(),
        },
    decreases links.len(),
{
    if links.len() == 0 {
    } else if links.first().pipeline.is_some() {
        assert(links[0].pipeline.is_some() && links[0].link == links.first().link);
    } else {
        let rest = links.drop_first();
        lemma_first_fit(rest);
        match first_tx_link(rest) {
            Some(link) => {
                let i = choose|i: int|
                    0 <= i < rest.len() && (#[trigger] rest[i]).pipeline.is_some() && rest[i].link
                        == link && forall|j: int|
                        0 <= j < i ==> (#[trigger] rest[j]).pipeline.is_none();
                assert(links[i + 1] == rest[i]);
                assert forall|j: int| 0 <= j < i + 1 implies (#[trigger] links[j]).pipeline.is_none() by {
                    if j > 0 {
                        assert(links[j] == rest[j - 1]);
                    }
                }
            },
            None => {
                assert forall|j: int| 0 <= j < links.len() implies (#[trigger] links[j]).pipeline.is_none() by {
                    if j > 0 {
                        assert(links[j] == rest[j - 1]);
                    }
                }
            },
        }
    }
}

/// The count of an action in the four parts of a delete sequence.
proof fn lemma_count_in_delete(
    a: Seq<TransportAction>,
    b: Seq<TransportAction>,
    c: Seq<TransportAction>,
    d: Seq<TransportAction>,
    action: TransportAction,
)
    ensures
        occurrences(a + b + c + d, action) == occurrences(a, action) + occurrences(b, action)
            + occurrences(c, action) + occurrences(d, action),
{
    lemma_occurrences_concat(a + b + c, d, action);
    lemma_occurrences_concat(a + b, c, action);
    lemma_occurrences_concat(a, b, action);
}

/// The count of an action in a list of at most one action.
proof fn lemma_count_short(actions: Seq<TransportAction>, action: TransportAction)
    requires
        actions.len() <= 1,
    ensures
        occurrences(actions, action) == (if actions.len() == 1 && actions[0] == action {
            1nat
        } else {
            0nat
        }),
{
    if actions.len() == 1 {
        assert(actions.drop_last().len() == 0);
        assert(occurrences(actions.drop_last(), action) == 0);
    }
}

} // verus!
