use std::time::Duration;
use unicast_transport::action::TransportAction;
use unicast_transport::config::{TransportManagerConfig, TransportUnicastConfig};
use unicast_transport::error::TransportError;
use unicast_transport::link::{LinkReader, LinkUnicast, TransmissionPipeline};
use unicast_transport::protocol::{PeerId, Priority, TransportMessage};
use unicast_transport::state::ShmMapping;
use unicast_transport::transport::TransportUnicastInner;

const LOCAL: PeerId = PeerId { id: 0xA1 };
const REMOTE: PeerId = PeerId { id: 0xB2 };

fn config(max_links: usize, is_qos: bool, is_shm: bool) -> TransportUnicastConfig {
    TransportUnicastConfig {
        manager: TransportManagerConfig { pid: LOCAL, max_links, defrag_buff_size: 1024 },
        pid: REMOTE,
        whatami: 2,
        sn_resolution: 128,
        initial_sn_tx: 7,
        initial_sn_rx: 9,
        is_shm,
        is_qos,
    }
}

fn session(max_links: usize) -> TransportUnicastInner<&'static str> {
    TransportUnicastInner::new(config(max_links, false, false))
}

fn link(id: u64) -> LinkUnicast {
    LinkUnicast { id }
}

fn close_on(l: LinkUnicast, reason: u8) -> TransportAction {
    TransportAction::Push {
        link: l,
        message: TransportMessage::Close {
            pid: Some(LOCAL),
            reason,
            link_only: true,
            attachment: None,
        },
        priority: Priority::Background,
    }
}

#[test]
fn new_session_is_alive_and_empty() {
    let t = session(4);
    assert!(t.get_alive());
    assert!(t.get_links().is_empty());
    assert!(t.get_callback().is_none());
    assert_eq!(t.get_pid(), REMOTE);
    assert_eq!(t.get_whatami(), 2);
    assert_eq!(t.get_sn_resolution(), 128);
    assert!(!t.is_shm());
    assert_eq!(t.get_stats().get_tx_msgs(), 0);
    assert_eq!(t.get_stats().get_rx_bytes(), 0);
}

#[test]
fn qos_session_has_one_conduit_per_priority() {
    let t: TransportUnicastInner<u8> = TransportUnicastInner::new(config(4, true, false));
    assert!(t.is_qos());
    assert_eq!(t.get_conduit_tx().len(), Priority::NUM);
    assert_eq!(t.get_conduit_rx().len(), Priority::NUM);
    assert_eq!(Priority::NUM, 8);
    for (i, c) in t.get_conduit_tx().iter().enumerate() {
        assert_eq!(c.priority.id() as usize, i);
        assert_eq!(c.reliable.get(), 7);
        assert_eq!(c.best_effort.get(), 7);
        assert_eq!(c.reliable.get_resolution(), 128);
    }
    for (i, c) in t.get_conduit_rx().iter().enumerate() {
        assert_eq!(c.priority.id() as usize, i);
        assert_eq!(c.reliable.get(), 9);
        assert_eq!(c.best_effort.get(), 9);
        assert_eq!(c.defrag_buff_size, 1024);
    }
    assert_eq!(t.get_conduit_tx()[0].priority, Priority::Control);
    assert_eq!(t.get_conduit_tx()[7].priority, Priority::Background);
}

#[test]
fn plain_session_has_a_single_conduit() {
    let t: TransportUnicastInner<u8> = TransportUnicastInner::new(config(4, false, false));
    assert!(!t.is_qos());
    assert_eq!(t.get_conduit_tx().len(), 1);
    assert_eq!(t.get_conduit_rx().len(), 1);
    assert_eq!(t.get_conduit_tx()[0].priority, Priority::Data);
    assert_eq!(t.get_conduit_rx()[0].priority, Priority::Data);
    assert_eq!(t.get_conduit_tx()[0].reliable.get(), 7);
    assert_eq!(t.get_conduit_rx()[0].best_effort.get(), 9);
}

#[test]
fn add_link_appends_in_order() {
    let mut t = session(4);
    assert_eq!(t.add_link(link(3)), Ok(()));
    assert_eq!(t.add_link(link(1)), Ok(()));
    assert_eq!(t.add_link(link(2)), Ok(()));
    assert_eq!(t.get_links(), vec![link(3), link(1), link(2)]);
}

#[test]
fn add_link_beyond_the_maximum_is_refused() {
    let mut t = session(2);
    assert_eq!(t.add_link(link(1)), Ok(()));
    assert_eq!(t.add_link(link(2)), Ok(()));
    assert_eq!(t.add_link(link(3)), Err(TransportError::LinkLimitExceeded));
    assert_eq!(t.get_links(), vec![link(1), link(2)]);
}

#[test]
fn add_link_to_a_session_without_room_is_refused() {
    let mut t = session(0);
    assert_eq!(t.add_link(link(1)), Err(TransportError::LinkLimitExceeded));
    assert!(t.get_links().is_empty());
}

#[test]
fn add_link_twice_is_refused_as_duplicate() {
    let mut t = session(4);
    assert_eq!(t.add_link(link(1)), Ok(()));
    assert_eq!(t.add_link(link(1)), Err(TransportError::DuplicateLink));
    assert_eq!(t.get_links(), vec![link(1)]);
}

#[test]
fn a_full_session_reports_the_limit_before_the_duplicate() {
    let mut t = session(1);
    assert_eq!(t.add_link(link(1)), Ok(()));
    assert_eq!(t.add_link(link(1)), Err(TransportError::LinkLimitExceeded));
}

#[test]
fn operations_on_an_unregistered_link_fail() {
    let mut t = session(4);
    assert_eq!(t.add_link(link(1)), Ok(()));
    let stranger = link(9);
    assert_eq!(
        t.start_tx(&stranger, Duration::from_millis(100), 16),
        Err(TransportError::LinkNotFound)
    );
    assert_eq!(t.stop_tx(&stranger), Err(TransportError::LinkNotFound));
    assert_eq!(t.start_rx(&stranger, Duration::from_secs(1)), Err(TransportError::LinkNotFound));
    assert_eq!(t.stop_rx(&stranger), Err(TransportError::LinkNotFound));
    assert!(matches!(t.close_link(&stranger, 1), Err(TransportError::LinkNotFound)));
    assert!(matches!(t.del_link(&stranger), Err(TransportError::LinkNotFound)));
    assert!(t.get_alive());
    assert_eq!(t.get_links(), vec![link(1)]);
}

#[test]
fn tx_and_rx_are_started_and_stopped_independently() {
    let mut t: TransportUnicastInner<u8> = TransportUnicastInner::new(config(4, true, false));
    t.add_link(link(1)).unwrap();
    t.add_link(link(2)).unwrap();
    assert_eq!(t.schedule_first_fit(), None);

    assert_eq!(t.start_rx(&link(1), Duration::from_secs(3)), Ok(()));
    assert_eq!(t.schedule_first_fit(), None);
    assert_eq!(t.start_tx(&link(2), Duration::from_millis(250), 512), Ok(()));
    assert_eq!(t.schedule_first_fit(), Some(link(2)));

    // Closing the session shows what each wrapper holds.
    let effects = t.close(0);
    assert_eq!(
        effects.actions,
        vec![
            close_on(link(2), 0),
            TransportAction::Deregister { pid: REMOTE },
            TransportAction::StopRx { link: link(1) },
            TransportAction::CloseLink { link: link(1) },
            TransportAction::StopTx { link: link(2) },
            TransportAction::CloseLink { link: link(2) },
        ]
    );
}

#[test]
fn stop_tx_takes_the_link_out_of_scheduling() {
    let mut t = session(4);
    t.add_link(link(1)).unwrap();
    t.add_link(link(2)).unwrap();
    t.start_tx(&link(1), Duration::from_millis(10), 8).unwrap();
    t.start_tx(&link(2), Duration::from_millis(10), 8).unwrap();
    assert_eq!(t.schedule(true), Some(link(1)));
    assert_eq!(t.stop_tx(&link(1)), Ok(()));
    assert_eq!(t.schedule(true), Some(link(2)));
    assert_eq!(t.stop_tx(&link(2)), Ok(()));
    assert_eq!(t.schedule(true), None);
    // Stopping a half that is not started changes nothing.
    assert_eq!(t.stop_tx(&link(2)), Ok(()));
    assert_eq!(t.stop_rx(&link(2)), Ok(()));
    assert_eq!(t.get_links(), vec![link(1), link(2)]);
}

#[test]
fn schedule_picks_the_first_link_that_can_send() {
    let mut t = session(4);
    t.add_link(link(5)).unwrap();
    t.add_link(link(6)).unwrap();
    t.add_link(link(7)).unwrap();
    t.start_tx(&link(7), Duration::from_millis(10), 8).unwrap();
    assert_eq!(t.schedule(true), Some(link(7)));
    t.start_tx(&link(6), Duration::from_millis(10), 8).unwrap();
    assert_eq!(t.schedule(true), Some(link(6)));
    assert_eq!(t.schedule_first_fit(), Some(link(6)));
}

#[test]
fn schedule_drops_a_message_that_could_not_be_converted() {
    let mut t = session(4);
    t.add_link(link(1)).unwrap();
    t.start_tx(&link(1), Duration::from_millis(10), 8).unwrap();
    assert_eq!(t.schedule(false), None);
    assert_eq!(t.schedule(true), Some(link(1)));
}

#[test]
fn schedule_drops_where_no_link_can_send() {
    let mut t = session(4);
    assert_eq!(t.schedule(true), None);
    t.add_link(link(1)).unwrap();
    t.start_rx(&link(1), Duration::from_secs(1)).unwrap();
    assert_eq!(t.schedule(true), None);
}

#[test]
fn shm_mapping_follows_the_peer() {
    let with: TransportUnicastInner<u8> = TransportUnicastInner::new(config(1, false, true));
    let without: TransportUnicastInner<u8> = TransportUnicastInner::new(config(1, false, false));
    assert!(with.is_shm());
    assert_eq!(with.shm_mapping(), ShmMapping::Reference);
    assert_eq!(without.shm_mapping(), ShmMapping::Inline);
}

#[test]
fn set_callback_replaces_the_handler() {
    let mut t = session(4);
    t.set_callback("first");
    assert_eq!(t.get_callback(), Some(&"first"));
    t.set_callback("second");
    assert_eq!(t.get_callback(), Some(&"second"));
}

#[test]
fn close_link_on_one_of_two_links() {
    let mut t = session(4);
    t.set_callback("handler");
    t.add_link(link(1)).unwrap();
    t.add_link(link(2)).unwrap();
    t.start_tx(&link(1), Duration::from_millis(100), 16).unwrap();
    t.start_tx(&link(2), Duration::from_millis(100), 16).unwrap();

    let effects = t.close_link(&link(1), 1).unwrap();
    assert_eq!(effects.handler, None);
    assert_eq!(
        effects.actions,
        vec![
            TransportAction::Push {
                link: link(1),
                message: TransportMessage::Close {
                    pid: Some(LOCAL),
                    reason: 1,
                    link_only: true,
                    attachment: None,
                },
                priority: Priority::Background,
            },
            TransportAction::NotifyDelLink { link: link(1) },
            TransportAction::StopTx { link: link(1) },
            TransportAction::CloseLink { link: link(1) },
        ]
    );
    assert!(t.get_alive());
    assert_eq!(t.get_links(), vec![link(2)]);
    assert_eq!(t.get_callback(), Some(&"handler"));
    assert_eq!(t.schedule(true), Some(link(2)));
}

#[test]
fn close_with_a_single_link() {
    let mut t = session(4);
    t.set_callback("handler");
    t.add_link(link(1)).unwrap();
    t.start_tx(&link(1), Duration::from_millis(100), 16).unwrap();

    let effects = t.close(2);
    assert_eq!(effects.handler, Some("handler"));
    assert_eq!(
        effects.actions,
        vec![
            close_on(link(1), 2),
            TransportAction::NotifyClosing,
            TransportAction::Deregister { pid: REMOTE },
            TransportAction::StopTx { link: link(1) },
            TransportAction::CloseLink { link: link(1) },
            TransportAction::NotifyClosed,
        ]
    );
    assert!(!t.get_alive());
    assert!(t.get_links().is_empty());
    assert!(t.get_callback().is_none());
}

#[test]
fn close_sends_nothing_on_links_that_cannot_send() {
    let mut t = session(4);
    t.add_link(link(1)).unwrap();
    t.add_link(link(2)).unwrap();
    t.add_link(link(3)).unwrap();
    t.start_tx(&link(1), Duration::from_millis(100), 16).unwrap();
    t.start_tx(&link(3), Duration::from_millis(100), 16).unwrap();
    t.start_rx(&link(3), Duration::from_secs(2)).unwrap();

    let effects = t.close(5);
    assert_eq!(effects.handler, None);
    assert_eq!(
        effects.actions,
        vec![
            close_on(link(1), 5),
            close_on(link(3), 5),
            TransportAction::Deregister { pid: REMOTE },
            TransportAction::StopTx { link: link(1) },
            TransportAction::CloseLink { link: link(1) },
            TransportAction::CloseLink { link: link(2) },
            TransportAction::StopTx { link: link(3) },
            TransportAction::StopRx { link: link(3) },
            TransportAction::CloseLink { link: link(3) },
        ]
    );
}

#[test]
fn removing_the_last_link_closes_the_session() {
    let mut t = session(4);
    t.set_callback("handler");
    t.add_link(link(1)).unwrap();
    t.start_rx(&link(1), Duration::from_secs(1)).unwrap();

    let effects = t.del_link(&link(1)).unwrap();
    assert_eq!(effects.handler, Some("handler"));
    assert_eq!(
        effects.actions,
        vec![
            TransportAction::NotifyClosing,
            TransportAction::Deregister { pid: REMOTE },
            TransportAction::StopRx { link: link(1) },
            TransportAction::CloseLink { link: link(1) },
            TransportAction::NotifyClosed,
        ]
    );
    assert!(!t.get_alive());
    assert!(t.get_links().is_empty());
    assert!(t.get_callback().is_none());
}

#[test]
fn removing_the_last_link_without_a_handler_notifies_nobody() {
    let mut t = session(4);
    t.add_link(link(1)).unwrap();
    let effects = t.del_link(&link(1)).unwrap();
    assert_eq!(effects.handler, None);
    assert_eq!(
        effects.actions,
        vec![
            TransportAction::Deregister { pid: REMOTE },
            TransportAction::CloseLink { link: link(1) },
        ]
    );
    assert!(!t.get_alive());
}

#[test]
fn removing_a_link_that_is_not_the_last_keeps_the_session() {
    let mut t = session(4);
    t.set_callback("handler");
    t.add_link(link(1)).unwrap();
    t.add_link(link(2)).unwrap();
    t.add_link(link(3)).unwrap();
    t.start_tx(&link(3), Duration::from_millis(5), 4).unwrap();

    let effects = t.del_link(&link(2)).unwrap();
    assert_eq!(effects.handler, None);
    assert_eq!(
        effects.actions,
        vec![
            TransportAction::NotifyDelLink { link: link(2) },
            TransportAction::CloseLink { link: link(2) },
        ]
    );
    assert!(t.get_alive());
    assert_eq!(t.get_links(), vec![link(1), link(3)]);
    assert_eq!(t.get_callback(), Some(&"handler"));
    assert_eq!(t.schedule(true), Some(link(3)));
    // The link is gone: a second removal does not find it.
    assert!(matches!(t.del_link(&link(2)), Err(TransportError::LinkNotFound)));
}

#[test]
fn removing_a_link_without_a_handler_only_closes_it() {
    let mut t = session(4);
    t.add_link(link(1)).unwrap();
    t.add_link(link(2)).unwrap();
    let effects = t.del_link(&link(1)).unwrap();
    assert_eq!(effects.actions, vec![TransportAction::CloseLink { link: link(1) }]);
    assert_eq!(t.get_links(), vec![link(2)]);
}

#[test]
fn close_link_on_the_last_link_closes_the_session() {
    let mut t = session(4);
    t.set_callback("handler");
    t.add_link(link(1)).unwrap();
    t.start_tx(&link(1), Duration::from_millis(100), 16).unwrap();
    let effects = t.close_link(&link(1), 3).unwrap();
    assert_eq!(effects.handler, Some("handler"));
    assert_eq!(
        effects.actions,
        vec![
            close_on(link(1), 3),
            TransportAction::NotifyClosing,
            TransportAction::Deregister { pid: REMOTE },
            TransportAction::StopTx { link: link(1) },
            TransportAction::CloseLink { link: link(1) },
            TransportAction::NotifyClosed,
        ]
    );
    assert!(!t.get_alive());
}

#[test]
fn close_link_without_a_pipeline_sends_no_message() {
    let mut t = session(4);
    t.add_link(link(1)).unwrap();
    t.add_link(link(2)).unwrap();
    let effects = t.close_link(&link(2), 3).unwrap();
    assert_eq!(effects.actions, vec![TransportAction::CloseLink { link: link(2) }]);
}

#[test]
fn delete_runs_once() {
    let mut t = session(4);
    t.set_callback("handler");
    t.add_link(link(1)).unwrap();

    let first = t.delete();
    assert_eq!(first.handler, Some("handler"));
    assert_eq!(
        first.actions,
        vec![
            TransportAction::NotifyClosing,
            TransportAction::Deregister { pid: REMOTE },
            TransportAction::CloseLink { link: link(1) },
            TransportAction::NotifyClosed,
        ]
    );
    assert!(!t.get_alive());

    let second = t.delete();
    assert_eq!(second.handler, None);
    assert!(second.actions.is_empty());
    assert!(!t.get_alive());
}

#[test]
fn close_then_delete_notifies_once() {
    let mut t = session(4);
    t.set_callback("handler");
    t.add_link(link(1)).unwrap();
    t.start_tx(&link(1), Duration::from_millis(100), 16).unwrap();

    let first = t.close(1);
    let second = t.delete();
    let mut all = first.actions.clone();
    all.extend(second.actions.iter().cloned());
    assert_eq!(all.iter().filter(|a| **a == TransportAction::NotifyClosing).count(), 1);
    assert_eq!(all.iter().filter(|a| **a == TransportAction::NotifyClosed).count(), 1);
    assert_eq!(
        all.iter().filter(|a| **a == TransportAction::Deregister { pid: REMOTE }).count(),
        1
    );
    assert!(second.actions.is_empty());
    assert_eq!(second.handler, None);
}

#[test]
fn delete_then_close_notifies_once() {
    let mut t = session(4);
    t.set_callback("handler");
    t.add_link(link(1)).unwrap();
    t.start_tx(&link(1), Duration::from_millis(100), 16).unwrap();

    let first = t.delete();
    let second = t.close(1);
    assert_eq!(first.handler, Some("handler"));
    assert_eq!(first.actions.iter().filter(|a| **a == TransportAction::NotifyClosing).count(), 1);
    assert_eq!(first.actions.iter().filter(|a| **a == TransportAction::NotifyClosed).count(), 1);
    assert!(second.actions.is_empty());
    assert_eq!(second.handler, None);
}

#[test]
fn start_tx_binds_the_pipeline_to_all_conduits() {
    let mut t: TransportUnicastInner<u8> = TransportUnicastInner::new(config(4, true, false));
    t.add_link(link(1)).unwrap();
    t.start_tx(&link(1), Duration::from_millis(100), 16).unwrap();
    t.start_rx(&link(1), Duration::from_secs(10)).unwrap();
    let wrappers = t.get_wrappers();
    assert_eq!(wrappers.len(), 1);
    assert_eq!(wrappers[0].get_link(), link(1));
    assert_eq!(
        wrappers[0].get_pipeline(),
        Some(TransmissionPipeline {
            keep_alive: Duration::from_millis(100),
            batch_size: 16,
            conduits: 8,
        })
    );
    assert_eq!(wrappers[0].get_reader(), Some(LinkReader { lease: Duration::from_secs(10) }));
}

#[test]
fn counters_of_the_session() {
    let mut t = session(1);
    t.count_tx(2, 100);
    t.count_tx(1, 50);
    t.count_rx(4, 7);
    let stats = t.get_stats();
    assert_eq!(stats.get_tx_msgs(), 3);
    assert_eq!(stats.get_tx_bytes(), 150);
    assert_eq!(stats.get_rx_msgs(), 4);
    assert_eq!(stats.get_rx_bytes(), 7);
}
