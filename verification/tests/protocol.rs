use unicast_transport::action::TransportAction;
use unicast_transport::config::{TransportManagerConfig, TransportUnicastConfig};
use unicast_transport::link::{LinkReader, LinkUnicast, TransmissionPipeline, TransportLinkUnicast};
use unicast_transport::protocol::{Attachment, PeerId, Priority, TransportMessage};
use std::time::Duration;

#[test]
fn priorities_are_numbered_by_urgency() {
    let all = [
        Priority::Control,
        Priority::RealTime,
        Priority::InteractiveHigh,
        Priority::InteractiveLow,
        Priority::DataHigh,
        Priority::Data,
        Priority::DataLow,
        Priority::Background,
    ];
    assert_eq!(all.len(), Priority::NUM);
    for (i, p) in all.iter().enumerate() {
        assert_eq!(p.id() as usize, i);
        assert_eq!(Priority::from_id(i as u8), Some(*p));
    }
    assert_eq!(Priority::from_id(8), None);
    assert_eq!(Priority::from_id(255), None);
}

#[test]
fn default_priority_is_data() {
    assert_eq!(Priority::default(), Priority::Data);
}

#[test]
fn make_close_keeps_its_parts() {
    let msg = TransportMessage::make_close(Some(PeerId { id: 7 }), 3, true, None);
    assert_eq!(
        msg,
        TransportMessage::Close { pid: Some(PeerId { id: 7 }), reason: 3, link_only: true, attachment: None }
    );
    let attachment = Attachment { buffer: vec![1, 2, 3] };
    let msg = TransportMessage::make_close(None, 0, false, Some(attachment.clone()));
    assert_eq!(
        msg,
        TransportMessage::Close { pid: None, reason: 0, link_only: false, attachment: Some(attachment) }
    );
}

#[test]
fn wrapper_starts_with_neither_half() {
    let w = TransportLinkUnicast::new(LinkUnicast { id: 4 });
    assert_eq!(w.get_link(), LinkUnicast { id: 4 });
    assert_eq!(w.get_pipeline(), None);
    assert_eq!(w.get_reader(), None);
}

#[test]
fn wrapper_halves_come_and_go() {
    let mut w = TransportLinkUnicast::new(LinkUnicast { id: 4 });
    w.start_tx(Duration::from_millis(20), 64, 8);
    assert_eq!(
        w.get_pipeline(),
        Some(TransmissionPipeline { keep_alive: Duration::from_millis(20), batch_size: 64, conduits: 8 })
    );
    assert_eq!(w.get_reader(), None);
    w.start_rx(Duration::from_secs(5));
    assert_eq!(w.get_reader(), Some(LinkReader { lease: Duration::from_secs(5) }));
    w.stop_tx();
    assert_eq!(w.get_pipeline(), None);
    assert_eq!(w.get_reader(), Some(LinkReader { lease: Duration::from_secs(5) }));
    w.stop_rx();
    assert_eq!(w.get_reader(), None);
    assert_eq!(w.get_link(), LinkUnicast { id: 4 });
}

#[test]
fn wrapper_close_stops_what_is_started() {
    let l = LinkUnicast { id: 4 };
    let mut actions = vec![TransportAction::NotifyDelLink { link: l }];

    let mut both = TransportLinkUnicast::new(l);
    both.start_tx(Duration::from_millis(20), 64, 1);
    both.start_rx(Duration::from_secs(5));
    both.close(&mut actions);
    assert_eq!(
        actions,
        vec![
            TransportAction::NotifyDelLink { link: l },
            TransportAction::StopTx { link: l },
            TransportAction::StopRx { link: l },
            TransportAction::CloseLink { link: l },
        ]
    );

    let mut none = Vec::new();
    TransportLinkUnicast::new(l).close(&mut none);
    assert_eq!(none, vec![TransportAction::CloseLink { link: l }]);

    let mut rx_only = Vec::new();
    let mut w = TransportLinkUnicast::new(l);
    w.start_rx(Duration::from_secs(5));
    w.close(&mut rx_only);
    assert_eq!(
        rx_only,
        vec![TransportAction::StopRx { link: l }, TransportAction::CloseLink { link: l }]
    );
}

#[test]
fn config_is_valid_when_the_initial_numbers_fit() {
    let mut c = TransportUnicastConfig {
        manager: TransportManagerConfig { pid: PeerId { id: 1 }, max_links: 1, defrag_buff_size: 0 },
        pid: PeerId { id: 2 },
        whatami: 1,
        sn_resolution: 16,
        initial_sn_tx: 15,
        initial_sn_rx: 0,
        is_shm: false,
        is_qos: false,
    };
    assert!(c.is_valid());
    c.initial_sn_tx = 16;
    assert!(!c.is_valid());
    c.initial_sn_tx = 0;
    c.initial_sn_rx = 16;
    assert!(!c.is_valid());
    c.sn_resolution = 0;
    c.initial_sn_rx = 0;
    assert!(!c.is_valid());
}
