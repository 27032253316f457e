//! The mathematical model of a session: its state as plain values and
//! sequences, and each operation as a function from the state before to the
//! state after and to what the caller is asked to do.

use crate::action::TransportAction;
use crate::conduit::{TransportConduitRx, TransportConduitTx};
use crate::config::{TransportManagerConfig, TransportUnicastConfig};
use crate::error::TransportError;
use crate::link::{LinkUnicast, TransportLinkUnicast};
use crate::protocol::{ConduitSn, PeerId, Priority, TransportMessage, WhatAmI};
use crate::seq_num::ZInt;
use crate::stats::TransportUnicastStatsInner;
use std::time::Duration;
use vstd::prelude::*;

verus! {

/// The identities of the wrapped links, in the order of registration.
pub open spec fn link_ids(links: Seq<TransportLinkUnicast>) -> Seq<LinkUnicast> {
    links.map_values(|l: TransportLinkUnicast| l.link)
}

/// The close message that the peer `local` sends with `reason`. It always
/// closes the link it travels on, never the whole session at once.
pub open spec fn close_message(local: PeerId, reason: u8) -> TransportMessage {
    TransportMessage::Close { pid: Some(local), reason, link_only: true, attachment: None }
}

/// The request to enqueue the close message on `link`, behind all data that
/// is already queued.
pub open spec fn push_close(link: LinkUnicast, local: PeerId, reason: u8) -> TransportAction {
    TransportAction::Push {
        link,
        message: close_message(local, reason),
        priority: Priority::Background,
    }
}

/// The close messages for all links whose TX half is started, in the order
/// of registration.
pub open spec fn close_pushes(links: Seq<TransportLinkUnicast>, local: PeerId, reason: u8) -> Seq<
    TransportAction,
> {
    links.filter_map(
        |l: TransportLinkUnicast|
            if l.pipeline.is_some() {
                Some(push_close(l.link, local, reason))
            } else {
                None
            },
    )
}

/// What closing every wrapper asks for, link after link in the order of
/// registration.
pub open spec fn close_all(links: Seq<TransportLinkUnicast>) -> Seq<TransportAction> {
    links.map_values(|l: TransportLinkUnicast| l.close_actions()).flatten()
}

/// The first registered link whose TX half is started, if there is one.
pub open spec fn first_tx_link(links: Seq<TransportLinkUnicast>) -> Option<LinkUnicast>
    decreases links.len(),
{
    if links.len() == 0 {
        None
    } else if links.first().pipeline.is_some() {
        Some(links.first().link)
    } else {
        first_tx_link(links.drop_first())
    }
}

/// The form in which a payload that lies in shared memory goes to the peer.
#[derive(Clone, Copy, Debug, PartialEq, Eq, Structural)]
pub enum ShmMapping {
    /// A reference into the shared memory, for a peer that can read it.
    Reference,
    /// The bytes themselves.
    Inline,
}

/// What an operation hands back: the handler, where the operation took it
/// out of the session, and the outside work in the order in which it is to
/// be done.
pub struct EffectsView<H> {
    pub handler: Option<H>,
    pub actions: Seq<TransportAction>,
}

/// The state of a session.
pub struct TransportView<H> {
    pub manager: TransportManagerConfig,
    pub pid: PeerId,
    pub whatami: WhatAmI,
    pub sn_resolution: ZInt,
    pub conduit_tx: Seq<TransportConduitTx>,
    pub conduit_rx: Seq<TransportConduitRx>,
    pub links: Seq<TransportLinkUnicast>,
    pub callback: Option<H>,
    pub alive: bool,
    pub is_shm: bool,
    pub stats: TransportUnicastStatsInner,
}

impl<H> TransportView<H> {
    /// What holds of every session at all times: as many RX conduits as TX
    /// conduits, one or one per priority class; no more links than the
    /// manager allows; no physical link twice.
    pub open spec fn wf(self) -> bool {
        &&& self.conduit_tx.len() == self.conduit_rx.len()
        &&& (self.conduit_tx.len() == 1 || self.conduit_tx.len() == Priority::NUM)
        &&& self.links.len() <= self.manager.max_links
        &&& link_ids(self.links).no_duplicates()
    }

    /// Whether this is the state of a session fresh from `config`.
    pub open spec fn starts_from(self, config: TransportUnicastConfig) -> bool {
        &&& self.manager == config.manager
        &&& self.pid == config.pid
        &&& self.whatami == config.whatami
        &&& self.sn_resolution == config.sn_resolution
        &&& self.is_shm == config.is_shm
        &&& self.conduit_tx.len() == config.conduits()
        &&& self.conduit_rx.len() == config.conduits()
        &&& forall|i: int|
            0 <= i < self.conduit_tx.len() ==> (#[trigger] self.conduit_tx[i]).starts_at(
                config.conduit_priority(i),
                config.sn_resolution,
                ConduitSn { reliable: config.initial_sn_tx, best_effort: config.initial_sn_tx },
            )
        &&& forall|i: int|
            0 <= i < self.conduit_rx.len() ==> (#[trigger] self.conduit_rx[i]).starts_at(
                config.conduit_priority(i),
                config.sn_resolution,
                ConduitSn { reliable: config.initial_sn_rx, best_effort: config.initial_sn_rx },
                config.manager.defrag_buff_size,
            )
        &&& self.links == Seq::<TransportLinkUnicast>::empty()
        &&& self.callback == None::<H>
        &&& self.alive
        &&& self.stats.tx_msgs() == 0
        &&& self.stats.tx_bytes() == 0
        &&& self.stats.rx_msgs() == 0
        &&& self.stats.rx_bytes() == 0
    }

    /// Whether messages are told apart by priority: there is more than one
    /// TX conduit.
    pub open spec fn is_qos(self) -> bool {
        self.conduit_tx.len() > 1
    }

    /// Where `link` stands in the link set, if it is there.
    pub open spec fn position(self, link: LinkUnicast) -> Option<int> {
        link_ids(self.links).index_of_first(link)
    }

    /// The position of a link is where the first wrapper of that link
    /// stands; a link has none where no wrapper is of that link.
    pub proof fn lemma_position(self, link: LinkUnicast)
        ensures
            match self.position(link) {
                Some(i) => {
                    &&& 0 <= i < self.links.len()
                    &&& self.links[i].link == link
                    &&& forall|j: int| 0 <= j < i ==> (#[trigger] self.links[j]).link != link
                },
                None => forall|j: int|
                    0 <= j < self.links.len() ==> (#[trigger] self.links[j]).link != link,
            },
    {
        let ids = link_ids(self.links);
        ids.index_of_first_ensures(link);
        match self.position(link) {
            Some(i) => {
                assert forall|j: int| 0 <= j < i implies (#[trigger] self.links[j]).link != link by {
                    assert(ids[j] != link);
                }
            },
            None => {
                assert forall|j: int| 0 <= j < self.links.len() implies (#[trigger] self.links[j]).link
                    != link by {
                    assert(ids[j] == self.links[j].link);
                }
            },
        }
    }

    /// The state with the links replaced.
    pub open spec fn with_links(self, links: Seq<TransportLinkUnicast>) -> Self {
        TransportView { links, ..self }
    }

    // Links

    pub open spec fn add_link_result(self, link: LinkUnicast) -> Result<(), TransportError> {
        if self.links.len() >= self.manager.max_links {
            Err(TransportError::LinkLimitExceeded)
        } else if self.position(link).is_some() {
            Err(TransportError::DuplicateLink)
        } else {
            Ok(())
        }
    }

    pub open spec fn after_add_link(self, link: LinkUnicast) -> Self {
        if self.add_link_result(link).is_ok() {
            self.with_links(
                self.links.push(TransportLinkUnicast { link, pipeline: None, reader: None }),
            )
        } else {
            self
        }
    }

    /// The outcome of an operation on one registered link.
    pub open spec fn on_link_result(self, link: LinkUnicast) -> Result<(), TransportError> {
        if self.position(link).is_some() {
            Ok(())
        } else {
            Err(TransportError::LinkNotFound)
        }
    }

    /// The state with the wrapper of `link` replaced by `wrapper`, or the
    /// state itself where the link is not registered.
    pub open spec fn with_wrapper(self, link: LinkUnicast, wrapper: TransportLinkUnicast) -> Self {
        match self.position(link) {
            Some(i) => self.with_links(self.links.update(i, wrapper)),
            None => self,
        }
    }

    /// The wrapper of `link`; arbitrary where the link is not registered.
    pub open spec fn wrapper(self, link: LinkUnicast) -> TransportLinkUnicast {
        self.links[self.position(link).unwrap()]
    }

    pub open spec fn after_start_tx(self, link: LinkUnicast, keep_alive: Duration, batch_size: u16) -> Self {
        self.with_wrapper(
            link,
            self.wrapper(link).with_tx(keep_alive, batch_size, self.conduit_tx.len() as usize),
        )
    }

    pub open spec fn after_stop_tx(self, link: LinkUnicast) -> Self {
        self.with_wrapper(link, self.wrapper(link).without_tx())
    }

    pub open spec fn after_start_rx(self, link: LinkUnicast, lease: Duration) -> Self {
        self.with_wrapper(link, self.wrapper(link).with_rx(lease))
    }

    pub open spec fn after_stop_rx(self, link: LinkUnicast) -> Self {
        self.with_wrapper(link, self.wrapper(link).without_rx())
    }

    // Termination

    /// The state after the delete sequence: a session that is alive is
    /// closed, its handler taken and its link set emptied; one that is
    /// closed already stays as it is.
    pub open spec fn after_delete(self) -> Self {
        if self.alive {
            TransportView { alive: false, callback: None, links: Seq::empty(), ..self }
        } else {
            self
        }
    }

    /// What the delete sequence asks for. On a session that is alive: the
    /// handler's `closing`, if there is a handler; the deregistration of the
    /// peer; the closing of every link; the handler's `closed`. On a session
    /// that is closed already: nothing.
    pub open spec fn delete_effects(self) -> EffectsView<H> {
        if self.alive {
            let closing = if self.callback.is_some() {
                seq![TransportAction::NotifyClosing]
            } else {
                Seq::empty()
            };
            let closed = if self.callback.is_some() {
                seq![TransportAction::NotifyClosed]
            } else {
                Seq::empty()
            };
            EffectsView {
                handler: self.callback,
                actions: closing + seq![TransportAction::Deregister { pid: self.pid }] + close_all(
                    self.links,
                ) + closed,
            }
        } else {
            EffectsView { handler: None, actions: Seq::empty() }
        }
    }

    pub open spec fn after_del_link(self, link: LinkUnicast) -> Self {
        match self.position(link) {
            None => self,
            Some(i) => if self.links.len() == 1 {
                self.after_delete()
            } else {
                self.with_links(self.links.remove(i))
            },
        }
    }

    /// What removing `link` asks for. The last link takes the session with
    /// it; any other link leaves alone: the handler hears of it, if there is
    /// one, and then the link is closed.
    pub open spec fn del_link_effects(self, link: LinkUnicast) -> Result<EffectsView<H>, TransportError> {
        match self.position(link) {
            None => Err(TransportError::LinkNotFound),
            Some(i) => if self.links.len() == 1 {
                Ok(self.delete_effects())
            } else {
                let notify = if self.callback.is_some() {
                    seq![TransportAction::NotifyDelLink { link }]
                } else {
                    Seq::empty()
                };
                Ok(EffectsView { handler: None, actions: notify + self.links[i].close_actions() })
            },
        }
    }

    pub open spec fn after_close_link(self, link: LinkUnicast) -> Self {
        self.after_del_link(link)
    }

    /// What closing `link` with `reason` asks for: the close message on the
    /// link's own pipeline, if its TX half is started, and then the removal
    /// of the link.
    pub open spec fn close_link_effects(self, link: LinkUnicast, reason: u8) -> Result<
        EffectsView<H>,
        TransportError,
    > {
        match self.del_link_effects(link) {
            Err(e) => Err(e),
            Ok(removal) => {
                let push = if self.wrapper(link).pipeline.is_some() {
                    seq![push_close(link, self.manager.pid, reason)]
                } else {
                    Seq::empty()
                };
                Ok(EffectsView { handler: removal.handler, actions: push + removal.actions })
            },
        }
    }

    pub open spec fn after_close(self) -> Self {
        self.after_delete()
    }

    /// What closing the session with `reason` asks for: the close message on
    /// every link whose TX half is started, and then the delete sequence.
    pub open spec fn close_effects(self, reason: u8) -> EffectsView<H> {
        EffectsView {
            handler: self.delete_effects().handler,
            actions: close_pushes(self.links, self.manager.pid, reason)
                + self.delete_effects().actions,
        }
    }

    // Scheduling

    /// The form that a payload in shared memory takes on its way to the
    /// peer: a reference where the peer has agreed to shared memory, the
    /// bytes themselves where it has not.
    pub open spec fn shm_mapping(self) -> ShmMapping {
        if self.is_shm {
            ShmMapping::Reference
        } else {
            ShmMapping::Inline
        }
    }

    /// The link that takes an outbound message: the first registered link
    /// whose TX half is started. A message whose payload could not be
    /// converted for the peer goes nowhere.
    pub open spec fn schedule(self, converted: bool) -> Option<LinkUnicast> {
        if converted {
            first_tx_link(self.links)
        } else {
            None
        }
    }
}

} // verus!
