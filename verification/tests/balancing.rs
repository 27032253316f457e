use unicast_transport::balancer::{
    choose_peer, peer_at, sub_resource_path, sub_resource_path_for, LoadBalancer,
};
use unicast_transport::protocol::PeerId;
use unicast_transport::routing::{
    get_subs_id, myprint, BalancedResources, Resource, ResourceContext, SubsRecord,
};

fn peer(id: u128) -> PeerId {
    PeerId { id }
}

fn resource(ids: &[u128]) -> Resource {
    Resource { context: Some(ResourceContext { peer_subs: ids.iter().map(|i| peer(*i)).collect() }) }
}

#[test]
fn get_subs_id_lists_resource_after_resource() {
    let res = vec![resource(&[1, 2]), resource(&[]), resource(&[3, 1])];
    assert_eq!(get_subs_id(&res), vec![peer(1), peer(2), peer(3), peer(1)]);
}

#[test]
fn get_subs_id_of_nothing_is_empty() {
    assert_eq!(get_subs_id(&Vec::new()), Vec::<PeerId>::new());
    assert_eq!(get_subs_id(&vec![resource(&[])]), Vec::<PeerId>::new());
}

#[test]
fn myprint_reports_peers_and_counts() {
    let res = vec![resource(&[1, 2]), resource(&[]), resource(&[3])];
    assert_eq!(
        myprint(&res),
        vec![
            SubsRecord::Peer(peer(1)),
            SubsRecord::Peer(peer(2)),
            SubsRecord::Count(2),
            SubsRecord::Count(0),
            SubsRecord::Peer(peer(3)),
            SubsRecord::Count(1),
        ]
    );
    assert_eq!(myprint(&Vec::new()), Vec::<SubsRecord>::new());
}

#[test]
fn balanced_resources_hand_out_subscribers() {
    let mut b = BalancedResources::new();
    b.insert(10, resource(&[5, 6, 7]));
    b.insert(11, resource(&[]));
    let p5 = peer(5);
    let p6 = peer(6);
    let p7 = peer(7);
    assert_eq!(b.get_subs_per_res(10), vec![&p5, &p6, &p7]);
    assert!(b.get_subs_per_res(11).is_empty());
    b.insert(10, resource(&[8]));
    let p8 = peer(8);
    assert_eq!(b.get_subs_per_res(10), vec![&p8]);
}

#[test]
fn peer_at_is_checked_indexing() {
    let peers = vec![peer(1), peer(2)];
    assert_eq!(peer_at(&peers, 0), Some(&peers[0]));
    assert_eq!(peer_at(&peers, 1), Some(&peers[1]));
    assert_eq!(peer_at(&peers, 2), None);
    assert_eq!(peer_at(&Vec::new(), 0), None);
}

#[test]
fn choose_peer_of_none_is_none() {
    assert_eq!(choose_peer(&Vec::new()), None);
}

#[test]
fn choose_peer_of_one_is_that_one() {
    let peers = vec![peer(42)];
    for _ in 0..20 {
        assert_eq!(choose_peer(&peers), Some(&peers[0]));
    }
}

#[test]
fn choose_peer_of_many_is_one_of_them() {
    let peers = vec![peer(1), peer(2), peer(3)];
    let mut seen = [false; 3];
    for _ in 0..2000 {
        let chosen = choose_peer(&peers).unwrap();
        let at = peers.iter().position(|p| p == chosen).unwrap();
        seen[at] = true;
    }
    // Each of three peers is missed in 2000 draws with a chance below 1e-300.
    assert_eq!(seen, [true, true, true]);
}

#[test]
fn load_balancer_books_sub_resources() {
    let mut lb = LoadBalancer::new();
    let a = String::from("/demo/a/01");
    let b = String::from("/demo/a/02");
    assert_eq!(lb.registered(&a), None);
    assert_eq!(lb.register(a.clone(), 11), None);
    assert_eq!(lb.registered(&a), Some(11));
    assert_eq!(lb.registered(&b), None);
    assert_eq!(lb.register(b.clone(), 12), None);
    assert_eq!(lb.register(a.clone(), 13), Some(11));
    assert_eq!(lb.registered(&a), Some(13));
    assert_eq!(lb.registered(&b), Some(12));
}

#[test]
fn sub_resource_path_joins_path_and_peer() {
    assert_eq!(sub_resource_path_for("/demo/a", "0B"), "/demo/a/0B");
    assert_eq!(sub_resource_path_for("", ""), "/");
    assert_eq!(sub_resource_path("/demo/a", &peer(0xAB12)), "/demo/a/AB12");
    assert_eq!(sub_resource_path("/demo/a", &peer(0)), "/demo/a/0");
    assert_eq!(
        sub_resource_path("r", &peer(u128::MAX)),
        "r/FFFFFFFFFFFFFFFFFFFFFFFFFFFFFFFF"
    );
}
