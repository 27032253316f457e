//! The session with one peer.

use crate::action::TransportAction;
use crate::conduit::{TransportConduitRx, TransportConduitTx};
use crate::config::{TransportManagerConfig, TransportUnicastConfig};
use crate::error::TransportError;
use crate::link::{LinkUnicast, TransportLinkUnicast};
use crate::protocol::{ConduitSn, PeerId, Priority, TransportMessage, WhatAmI};
use crate::seq_num::ZInt;
use crate::state::{
    close_all, close_pushes, first_tx_link, link_ids, push_close, EffectsView, ShmMapping,
    TransportView,
};
use crate::stats::counter_add;
use crate::stats::TransportUnicastStatsInner;
use std::time::Duration;
use vstd::prelude::*;

verus! {

/// What an operation of the session hands back to its caller.
pub struct Effects<H> {
    /// The handler, where the operation took it out of the session: the
    /// notifications `closing` and `closed` among the actions go to it.
    pub handler: Option<H>,
    /// The outside work, in the order in which it is to be done.
    pub actions: Vec<TransportAction>,
}

impl<H> View for Effects<H> {
    type V = EffectsView<H>;

    open spec fn view(&self) -> EffectsView<H> {
        EffectsView { handler: self.handler, actions: self.actions@ }
    }
}

/// The session with one peer: its links, its conduits, its handler and
/// whether it is alive. `H` is the handler that hears of the session's end
/// and of links that leave.
pub struct TransportUnicastInner<H> {
    manager: TransportManagerConfig,
    pid: PeerId,
    whatami: WhatAmI,
    sn_resolution: ZInt,
    conduit_tx: Vec<TransportConduitTx>,
    conduit_rx: Vec<TransportConduitRx>,
    links: Vec<TransportLinkUnicast>,
    callback: Option<H>,
    alive: bool,
    is_shm: bool,
    stats: TransportUnicastStatsInner,
}

impl<H> View for TransportUnicastInner<H> {
    type V = TransportView<H>;

    closed spec fn view(&self) -> TransportView<H> {
        TransportView {
            manager: self.manager,
            pid: self.pid,
            whatami: self.whatami,
            sn_resolution: self.sn_resolution,
            conduit_tx: self.conduit_tx@,
            conduit_rx: self.conduit_rx@,
            links: self.links@,
            callback: self.callback,
            alive: self.alive,
            is_shm: self.is_shm,
            stats: self.stats,
        }
    }
}

impl<H> TransportUnicastInner<H> {
    #[verifier::type_invariant]
    spec fn inv(self) -> bool {
        self@.wf()
    }

    /// A session fresh from the handshake: alive, without links and without
    /// a handler, its conduits at the initial sequence numbers.
    pub fn new(config: TransportUnicastConfig) -> (transport: TransportUnicastInner<H>)
        requires
            config.valid(),
        ensures
            transport@.starts_from(config),
            transport@.wf(),
    {
        let mut conduit_tx: Vec<TransportConduitTx> = Vec::new();
        let mut conduit_rx: Vec<TransportConduitRx> = Vec::new();

        let conduit_sn_tx = ConduitSn {
            reliable: config.initial_sn_tx,
            best_effort: config.initial_sn_tx,
        };
        let conduit_sn_rx = ConduitSn {
            reliable: config.initial_sn_rx,
            best_effort: config.initial_sn_rx,
        };

        if config.is_qos {
            let mut c: usize = 0;
            while c < Priority::NUM
                invariant
                    c <= Priority::NUM,
                    config.valid(),
                    config.is_qos,
                    conduit_sn_tx == (ConduitSn {
                        reliable: config.initial_sn_tx,
                        best_effort: config.initial_sn_tx,
                    }),
                    conduit_sn_rx == (ConduitSn {
                        reliable: config.initial_sn_rx,
                        best_effort: config.initial_sn_rx,
                    }),
                    conduit_tx@.len() == c,
                    conduit_rx@.len() == c,
                    forall|i: int|
                        0 <= i < c ==> (#[trigger] conduit_tx@[i]).starts_at(
                            config.conduit_priority(i),
                            config.sn_resolution,
                            conduit_sn_tx,
                        ),
                    forall|i: int|
                        0 <= i < c ==> (#[trigger] conduit_rx@[i]).starts_at(
                            config.conduit_priority(i),
                            config.sn_resolution,
                            conduit_sn_rx,
                            config.manager.defrag_buff_size,
                        ),
                decreases Priority::NUM - c,
            {
                let priority = Priority::from_id(c as u8).unwrap();
                conduit_tx.push(TransportConduitTx::new(priority, config.sn_resolution, conduit_sn_tx));
                conduit_rx.push(
                    TransportConduitRx::new(
                        priority,
                        config.sn_resolution,
                        conduit_sn_rx,
                        config.manager.defrag_buff_size,
                    ),
                );
                c = c + 1;
            }
        } else {
            conduit_tx.push(
                TransportConduitTx::new(Priority::default(), config.sn_resolution, conduit_sn_tx),
            );
            conduit_rx.push(
                TransportConduitRx::new(
                    Priority::default(),
                    config.sn_resolution,
                    conduit_sn_rx,
                    config.manager.defrag_buff_size,
                ),
            );
        }

        let links: Vec<TransportLinkUnicast> = Vec::new();
        assert(link_ids(links@) =~= Seq::<LinkUnicast>::empty());
        TransportUnicastInner {
            manager: config.manager,
            pid: config.pid,
            whatami: config.whatami,
            sn_resolution: config.sn_resolution,
            conduit_tx,
            conduit_rx,
            links,
            callback: None,
            alive: true,
            is_shm: config.is_shm,
            stats: TransportUnicastStatsInner::default(),
        }
    }

    /// Puts `callback` into the handler slot, in place of any earlier one.
    pub fn set_callback(&mut self, callback: H)
        ensures
            final(self)@ == (TransportView { callback: Some(callback), ..old(self)@ }),
            final(self)@.wf(),
    {
        proof {
            use_type_invariant(&*self);
        }
        self.callback = Some(callback);
    }

    /// Whether the session is alive: the delete sequence has not run yet.
    pub fn get_alive(&self) -> (alive: bool)
        ensures
            alive == self@.alive,
    {
        self.alive
    }

    pub fn get_pid(&self) -> (pid: PeerId)
        ensures
            pid == self@.pid,
    {
        self.pid
    }

    pub fn get_whatami(&self) -> (whatami: WhatAmI)
        ensures
            whatami == self@.whatami,
    {
        self.whatami
    }

    pub fn get_sn_resolution(&self) -> (sn_resolution: ZInt)
        ensures
            sn_resolution == self@.sn_resolution,
    {
        self.sn_resolution
    }

    pub fn is_shm(&self) -> (shm: bool)
        ensures
            shm == self@.is_shm,
    {
        self.is_shm
    }

    pub fn is_qos(&self) -> (qos: bool)
        ensures
            qos == self@.is_qos(),
    {
        self.conduit_tx.len() > 1
    }

    pub fn get_callback(&self) -> (callback: Option<&H>)
        ensures
            callback.is_some() == self@.callback.is_some(),
            callback matches Some(h) ==> self@.callback == Some(*h),
    {
        self.callback.as_ref()
    }

    /// The traffic counters of the session.
    pub fn get_stats(&self) -> (stats: TransportUnicastStatsInner)
        ensures
            stats == self@.stats,
    {
        self.stats
    }

    /// Counts `messages` messages and `bytes` bytes as sent.
    pub fn count_tx(&mut self, messages: usize, bytes: usize)
        ensures
            final(self)@.stats.tx_msgs() == counter_add(old(self)@.stats.tx_msgs(), messages),
            final(self)@.stats.tx_bytes() == counter_add(old(self)@.stats.tx_bytes(), bytes),
            final(self)@.stats.rx_msgs() == old(self)@.stats.rx_msgs(),
            final(self)@.stats.rx_bytes() == old(self)@.stats.rx_bytes(),
            final(self)@ == (TransportView { stats: final(self)@.stats, ..old(self)@ }),
            final(self)@.wf(),
    {
        proof {
            use_type_invariant(&*self);
        }
        let mut stats = self.stats;
        stats.inc_tx_msgs(messages);
        stats.inc_tx_bytes(bytes);
        self.stats = stats;
    }

    /// Counts `messages` messages and `bytes` bytes as received.
    pub fn count_rx(&mut self, messages: usize, bytes: usize)
        ensures
            final(self)@.stats.rx_msgs() == counter_add(old(self)@.stats.rx_msgs(), messages),
            final(self)@.stats.rx_bytes() == counter_add(old(self)@.stats.rx_bytes(), bytes),
            final(self)@.stats.tx_msgs() == old(self)@.stats.tx_msgs(),
            final(self)@.stats.tx_bytes() == old(self)@.stats.tx_bytes(),
            final(self)@ == (TransportView { stats: final(self)@.stats, ..old(self)@ }),
            final(self)@.wf(),
    {
        proof {
            use_type_invariant(&*self);
        }
        let mut stats = self.stats;
        stats.inc_rx_msgs(messages);
        stats.inc_rx_bytes(bytes);
        self.stats = stats;
    }

    /// The TX conduits, one per priority class or one for all.
    pub fn get_conduit_tx(&self) -> (conduits: &Vec<TransportConduitTx>)
        ensures
            conduits@ == self@.conduit_tx,
    {
        &self.conduit_tx
    }

    /// The RX conduits, one per priority class or one for all.
    pub fn get_conduit_rx(&self) -> (conduits: &Vec<TransportConduitRx>)
        ensures
            conduits@ == self@.conduit_rx,
    {
        &self.conduit_rx
    }

    /// The physical links of the session, in the order of registration.
    pub fn get_links(&self) -> (links: Vec<LinkUnicast>)
        ensures
            links@ == link_ids(self@.links),
    {
        let mut links: Vec<LinkUnicast> = Vec::new();
        let mut i: usize = 0;
        while i < self.links.len()
            invariant
                i <= self.links@.len(),
                links@ == link_ids(self.links@.take(i as int)),
            decreases self.links@.len() - i,
        {
            links.push(self.links[i].get_link());
            i = i + 1;
            assert(links@ =~= link_ids(self.links@.take(i as int)));
        }
        assert(self.links@.take(i as int) =~= self.links@);
        links
    }

    /// Adds `link` to the session with neither half started. A session
    /// that is full refuses the link, and so does one that holds it already.
    pub fn add_link(&mut self, link: LinkUnicast) -> (r: Result<(), TransportError>)
        ensures
            r == old(self)@.add_link_result(link),
            final(self)@ == old(self)@.after_add_link(link),
            final(self)@.wf(),
    {
        proof {
            use_type_invariant(&*self);
        }
        if self.links.len() >= self.manager.max_links {
            return Err(TransportError::LinkLimitExceeded);
        }
        if self.find_link(&link).is_some() {
            return Err(TransportError::DuplicateLink);
        }
        let wrapper = TransportLinkUnicast::new(link);
        let ghost before = link_ids(self.links@);
        let mut links: Vec<TransportLinkUnicast> = Vec::new();
        std::mem::swap(&mut links, &mut self.links);
        links.push(wrapper);
        proof {
            let after = link_ids(links@);
            before.index_of_first_ensures(link);
            assert(after =~= before.push(link));
            assert forall|i: int, j: int|
                0 <= i < after.len() && 0 <= j < after.len() && i != j implies after[i]
                != after[j] by {
                if i < before.len() {
                    assert(before[i] == after[i]);
                }
                if j < before.len() {
                    assert(before[j] == after[j]);
                }
            }
        }
        self.links = links;
        Ok(())
    }

    /// Starts the TX half of `link`: a pipeline with the given keep-alive
    /// interval and batch size, bound to all TX conduits.
    pub fn start_tx(&mut self, link: &LinkUnicast, keep_alive: Duration, batch_size: u16) -> (r: Result<
        (),
        TransportError,
    >)
        ensures
            r == old(self)@.on_link_result(*link),
            final(self)@ == old(self)@.after_start_tx(*link, keep_alive, batch_size),
            final(self)@.wf(),
    {
        proof {
            use_type_invariant(&*self);
        }
        match self.find_link(link) {
            Some(i) => {
                let mut wrapper = self.links[i];
                wrapper.start_tx(keep_alive, batch_size, self.conduit_tx.len());
                self.replace_link(i, wrapper);
                Ok(())
            },
            None => Err(TransportError::LinkNotFound),
        }
    }

    /// Stops the TX half of `link`.
    pub fn stop_tx(&mut self, link: &LinkUnicast) -> (r: Result<(), TransportError>)
        ensures
            r == old(self)@.on_link_result(*link),
            final(self)@ == old(self)@.after_stop_tx(*link),
            final(self)@.wf(),
    {
        proof {
            use_type_invariant(&*self);
        }
        match self.find_link(link) {
            Some(i) => {
                let mut wrapper = self.links[i];
                wrapper.stop_tx();
                self.replace_link(i, wrapper);
                Ok(())
            },
            None => Err(TransportError::LinkNotFound),
        }
    }

    /// Starts the RX half of `link`: a reader that gives the link up when
    /// nothing arrives within `lease`.
    pub fn start_rx(&mut self, link: &LinkUnicast, lease: Duration) -> (r: Result<(), TransportError>)
        ensures
            r == old(self)@.on_link_result(*link),
            final(self)@ == old(self)@.after_start_rx(*link, lease),
            final(self)@.wf(),
    {
        proof {
            use_type_invariant(&*self);
        }
        match self.find_link(link) {
            Some(i) => {
                let mut wrapper = self.links[i];
                wrapper.start_rx(lease);
                self.replace_link(i, wrapper);
                Ok(())
            },
            None => Err(TransportError::LinkNotFound),
        }
    }

    /// Stops the RX half of `link`.
    pub fn stop_rx(&mut self, link: &LinkUnicast) -> (r: Result<(), TransportError>)
        ensures
            r == old(self)@.on_link_result(*link),
            final(self)@ == old(self)@.after_stop_rx(*link),
            final(self)@.wf(),
    {
        proof {
            use_type_invariant(&*self);
        }
        match self.find_link(link) {
            Some(i) => {
                let mut wrapper = self.links[i];
                wrapper.stop_rx();
                self.replace_link(i, wrapper);
                Ok(())
            },
            None => Err(TransportError::LinkNotFound),
        }
    }

    /// Runs the delete sequence. On a session that is alive it marks the
    /// session closed, takes the handler out of its slot and empties the
    /// link set; what is left to do outside comes back in order. A second
    /// run finds the session closed and does nothing.
    pub fn delete(&mut self) -> (r: Effects<H>)
        ensures
            r@ == old(self)@.delete_effects(),
            final(self)@ == old(self)@.after_delete(),
            final(self)@.wf(),
    {
        proof {
            use_type_invariant(&*self);
        }
        let mut actions: Vec<TransportAction> = Vec::new();
        if !self.alive {
            return Effects { handler: None, actions };
        }
        self.alive = false;

        let mut handler: Option<H> = None;
        std::mem::swap(&mut handler, &mut self.callback);
        if handler.is_some() {
            actions.push(TransportAction::NotifyClosing);
        }
        actions.push(TransportAction::Deregister { pid: self.pid });

        let mut links: Vec<TransportLinkUnicast> = Vec::new();
        std::mem::swap(&mut links, &mut self.links);

        let ghost before = actions@;
        let mut i: usize = 0;
        assert(links@.take(0) =~= Seq::<TransportLinkUnicast>::empty());
        assert(close_all(links@.take(0)) =~= Seq::<TransportAction>::empty());
        while i < links.len()
            invariant
                i <= links@.len(),
                actions@ == before + close_all(links@.take(i as int)),
            decreases links@.len() - i,
        {
            let wrapper = links[i];
            wrapper.close(&mut actions);
            proof {
                lemma_close_all_push(links@.take(i as int), links@[i as int]);
                assert(links@.take(i as int).push(links@[i as int]) =~= links@.take(i + 1));
            }
            i = i + 1;
        }
        assert(links@.take(i as int) =~= links@);
        if handler.is_some() {
            actions.push(TransportAction::NotifyClosed);
        }
        assert(actions@ =~= old(self)@.delete_effects().actions);
        Effects { handler, actions }
    }

    /// Removes `link` from the session. The last link takes the session
    /// with it: the delete sequence runs. Any other link is taken out of the
    /// set, the handler hears of it, and then the link is closed.
    pub fn del_link(&mut self, link: &LinkUnicast) -> (r: Result<Effects<H>, TransportError>)
        ensures
            match r {
                Ok(effects) => old(self)@.del_link_effects(*link) == Ok::<
                    EffectsView<H>,
                    TransportError,
                >(effects@),
                Err(e) => old(self)@.del_link_effects(*link) == Err::<EffectsView<H>, TransportError>(e),
            },
            final(self)@ == old(self)@.after_del_link(*link),
            final(self)@.wf(),
    {
        proof {
            use_type_invariant(&*self);
        }
        match self.find_link(link) {
            None => Err(TransportError::LinkNotFound),
            Some(index) => {
                if self.links.len() == 1 {
                    Ok(self.delete())
                } else {
                    let ghost before = link_ids(self.links@);
                    let mut links: Vec<TransportLinkUnicast> = Vec::new();
                    std::mem::swap(&mut links, &mut self.links);
                    let wrapper = links.remove(index);
                    proof {
                        let after = link_ids(links@);
                        assert(after =~= before.remove(index as int));
                        assert forall|i: int, j: int|
                            0 <= i < after.len() && 0 <= j < after.len() && i != j implies after[i]
                            != after[j] by {
                            let si = if i < index { i } else { i + 1 };
                            let sj = if j < index { j } else { j + 1 };
                            assert(after[i] == before[si]);
                            assert(after[j] == before[sj]);
                        }
                    }
                    self.links = links;

                    let mut actions: Vec<TransportAction> = Vec::new();
                    if self.callback.is_some() {
                        actions.push(TransportAction::NotifyDelLink { link: *link });
                    }
                    wrapper.close(&mut actions);
                    assert(actions@ =~= old(self)@.del_link_effects(*link).unwrap().actions);
                    Ok(Effects { handler: None, actions })
                }
            },
        }
    }

    /// Closes `link` with `reason`: the close message goes onto the link's
    /// own pipeline, if its TX half is started, and then the link is removed.
    pub fn close_link(&mut self, link: &LinkUnicast, reason: u8) -> (r: Result<Effects<H>, TransportError>)
        ensures
            match r {
                Ok(effects) => old(self)@.close_link_effects(*link, reason) == Ok::<
                    EffectsView<H>,
                    TransportError,
                >(effects@),
                Err(e) => old(self)@.close_link_effects(*link, reason) == Err::<
                    EffectsView<H>,
                    TransportError,
                >(e),
            },
            final(self)@ == old(self)@.after_close_link(*link),
            final(self)@.wf(),
    {
        proof {
            use_type_invariant(&*self);
        }
        match self.find_link(link) {
            None => Err(TransportError::LinkNotFound),
            Some(index) => {
                let mut actions: Vec<TransportAction> = Vec::new();
                if self.links[index].get_pipeline().is_some() {
                    actions.push(self.make_close(*link, reason));
                }
                match self.del_link(link) {
                    Err(e) => Err(e),
                    Ok(removal) => {
                        let Effects { handler, actions: mut rest } = removal;
                        actions.append(&mut rest);
                        assert(actions@ =~= old(self)@.close_link_effects(*link, reason).unwrap().actions);
                        Ok(Effects { handler, actions })
                    },
                }
            },
        }
    }

    /// Closes the session with `reason`: the close message goes onto the
    /// pipeline of every link whose TX half is started, and then the delete
    /// sequence runs.
    pub fn close(&mut self, reason: u8) -> (r: Effects<H>)
        ensures
            r@ == old(self)@.close_effects(reason),
            final(self)@ == old(self)@.after_close(),
            final(self)@.wf(),
    {
        proof {
            use_type_invariant(&*self);
        }
        let mut actions: Vec<TransportAction> = Vec::new();
        let mut i: usize = 0;
        assert(self.links@.take(0) =~= Seq::<TransportLinkUnicast>::empty());
        while i < self.links.len()
            invariant
                i <= self.links@.len(),
                actions@ == close_pushes(self.links@.take(i as int), self.manager.pid, reason),
            decreases self.links@.len() - i,
        {
            let wrapper = self.links[i];
            proof {
                assert(self.links@.take(i + 1).drop_last() =~= self.links@.take(i as int));
                assert(self.links@.take(i + 1).last() == self.links@[i as int]);
            }
            if wrapper.get_pipeline().is_some() {
                actions.push(self.make_close(wrapper.get_link(), reason));
            }
            i = i + 1;
        }
        assert(self.links@.take(i as int) =~= self.links@);
        let Effects { handler, actions: mut rest } = self.delete();
        actions.append(&mut rest);
        Effects { handler, actions }
    }

    /// The request to enqueue this session's close message on `link`.
    fn make_close(&self, link: LinkUnicast, reason: u8) -> (action: TransportAction)
        ensures
            action == push_close(link, self@.manager.pid, reason),
    {
        TransportAction::Push {
            link,
            message: TransportMessage::make_close(Some(self.manager.pid), reason, true, None),
            priority: Priority::Background,
        }
    }

    /// The link that takes an outbound message: the first registered link
    /// whose TX half is started, or none where no link can send.
    pub fn schedule_first_fit(&self) -> (r: Option<LinkUnicast>)
        ensures
            r == first_tx_link(self@.links),
    {
        let mut i: usize = 0;
        assert(self.links@.skip(0) =~= self.links@);
        while i < self.links.len()
            invariant
                i <= self.links@.len(),
                first_tx_link(self.links@) == first_tx_link(self.links@.skip(i as int)),
            decreases self.links@.len() - i,
        {
            proof {
                assert(self.links@.skip(i as int).first() == self.links@[i as int]);
                assert(self.links@.skip(i as int).drop_first() =~= self.links@.skip(i + 1));
            }
            if self.links[i].get_pipeline().is_some() {
                return Some(self.links[i].get_link());
            }
            i = i + 1;
        }
        None
    }

    /// The form into which the caller has to bring a payload that lies in
    /// shared memory before the message is scheduled.
    pub fn shm_mapping(&self) -> (mapping: ShmMapping)
        ensures
            mapping == self@.shm_mapping(),
    {
        if self.is_shm {
            ShmMapping::Reference
        } else {
            ShmMapping::Inline
        }
    }

    /// Decides where an outbound message goes. `converted` tells whether
    /// the payload could be brought into the form that `shm_mapping` names;
    /// a message whose payload could not is dropped. Any other message goes
    /// to the first registered link whose TX half is started, and is
    /// dropped where there is none.
    pub fn schedule(&self, converted: bool) -> (r: Option<LinkUnicast>)
        ensures
            r == self@.schedule(converted),
    {
        if !converted {
            return None;
        }
        self.schedule_first_fit()
    }

    /// A copy of the link set.
    fn copy_links(&self) -> (links: Vec<TransportLinkUnicast>)
        ensures
            links@ == self@.links,
    {
        let mut links: Vec<TransportLinkUnicast> = Vec::with_capacity(self.links.len());
        let mut i: usize = 0;
        while i < self.links.len()
            invariant
                i <= self.links@.len(),
                links@ == self.links@.take(i as int),
            decreases self.links@.len() - i,
        {
            links.push(self.links[i]);
            i = i + 1;
            assert(links@ =~= self.links@.take(i as int));
        }
        assert(self.links@.take(i as int) =~= self.links@);
        links
    }

    /// Puts `wrapper` in the place of the wrapper at `index`, which wraps
    /// the same physical link.
    fn replace_link(&mut self, index: usize, wrapper: TransportLinkUnicast)
        requires
            index < old(self)@.links.len(),
            wrapper.link == old(self)@.links[index as int].link,
        ensures
            final(self)@ == old(self)@.with_links(old(self)@.links.update(index as int, wrapper)),
            final(self)@.wf(),
    {
        proof {
            use_type_invariant(&*self);
        }
        let ghost before = link_ids(self.links@);
        let mut links: Vec<TransportLinkUnicast> = Vec::new();
        std::mem::swap(&mut links, &mut self.links);
        links.set(index, wrapper);
        assert(link_ids(links@) =~= before);
        self.links = links;
    }

    /// The wrappers of the links, in the order of registration.
    pub fn get_wrappers(&self) -> (wrappers: Vec<TransportLinkUnicast>)
        ensures
            wrappers@ == self@.links,
    {
        self.copy_links()
    }

    /// Where `link` stands in the link set, if it is there.
    fn find_link(&self, link: &LinkUnicast) -> (r: Option<usize>)
        ensures
            r.is_some() == self@.position(*link).is_some(),
            r matches Some(i) ==> self@.position(*link) == Some(i as int) && i < self@.links.len()
                && self@.links[i as int].link == *link,
    {
        let ghost ids = link_ids(self.links@);
        let mut i: usize = 0;
        while i < self.links.len()
            invariant
                i <= self.links@.len(),
                ids == link_ids(self.links@),
                forall|j: int| 0 <= j < i ==> ids[j] != *link,
            decreases self.links@.len() - i,
        {
            if self.links[i].get_link() == *link {
                proof {
                    assert(ids[i as int] == *link);
                    ids.index_of_first_ensures(*link);
                }
                return Some(i);
            }
            i = i + 1;
        }
        proof {
            ids.index_of_first_ensures(*link);
        }
        None
    }
}

/// Closing one more wrapper adds its actions behind those of the others.
proof fn lemma_close_all_push(links: Seq<TransportLinkUnicast>, wrapper: TransportLinkUnicast)
    ensures
        close_all(links.push(wrapper)) == close_all(links) + wrapper.close_actions(),
{
    let f = |l: TransportLinkUnicast| l.close_actions();
    assert(links.push(wrapper).map_values(f) =~= links.map_values(f).push(f(wrapper)));
    links.map_values(f).lemma_flatten_push(f(wrapper));
}

} // verus!
