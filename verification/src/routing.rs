//! Who subscribes to which resource.

use crate::protocol::PeerId;
use std::collections::HashMap;
use vstd::prelude::*;

verus! {

/// What the router knows of a resource that has subscribers.
#[derive(Clone, Debug, PartialEq, Eq)]
pub struct ResourceContext {
    /// The peers that subscribe to the resource.
    pub peer_subs: Vec<PeerId>,
}

/// A named resource. It has a context once somebody has declared interest
/// in it.
#[derive(Clone, Debug, PartialEq, Eq)]
pub struct Resource {
    pub context: Option<ResourceContext>,
}

impl Resource {
    /// The subscribers of the resource; arbitrary where it has no context.
    pub open spec fn subscribers(self) -> Seq<PeerId> {
        self.context.unwrap().peer_subs@
    }
}

/// Whether every resource has a context.
pub open spec fn all_have_context(res: Seq<Resource>) -> bool {
    forall|i: int| 0 <= i < res.len() ==> (#[trigger] res[i]).context.is_some()
}

/// The subscribers of all resources: those of the first resource, then
/// those of the second, and so on. A peer comes as often as it subscribes.
pub open spec fn subscribers_of(res: Seq<Resource>) -> Seq<PeerId> {
    res.map_values(|r: Resource| r.subscribers()).flatten()
}

/// One line of the subscriber report.
#[derive(Clone, Copy, Debug, PartialEq, Eq, Structural)]
pub enum SubsRecord {
    /// A peer that subscribes to the resource at hand.
    Peer(PeerId),
    /// The number of subscribers of the resource at hand, after the last of
    /// them.
    Count(usize),
}

/// The report on one resource: its subscribers, then their number.
pub open spec fn report_on(r: Resource) -> Seq<SubsRecord> {
    r.subscribers().map_values(|p: PeerId| SubsRecord::Peer(p)).push(
        SubsRecord::Count(r.subscribers().len() as usize),
    )
}

/// The report on all resources, one after the other.
pub open spec fn report_of(res: Seq<Resource>) -> Seq<SubsRecord> {
    res.map_values(|r: Resource| report_on(r)).flatten()
}

/// The subscriber report that goes to the debug log: for each resource its
/// subscribers and then their number.
pub fn myprint(res: &Vec<Resource>) -> (report: Vec<SubsRecord>)
    requires
        all_have_context(res@),
    ensures
        report@ == report_of(res@),
{
    let mut report: Vec<SubsRecord> = Vec::new();
    let ghost per_resource = |r: Resource| report_on(r);
    let mut k: usize = 0;
    assert(res@.take(0).map_values(per_resource) =~= Seq::<Seq<SubsRecord>>::empty());
    while k < res.len()
        invariant
            k <= res@.len(),
            all_have_context(res@),
            per_resource == |r: Resource| report_on(r),
            report@ == report_of(res@.take(k as int)),
        decreases res@.len() - k,
    {
        let subs = &res[k].context.as_ref().unwrap().peer_subs;
        let ghost before = report@;
        let mut i: usize = 0;
        while i < subs.len()
            invariant
                i <= subs@.len(),
                report@ == before + subs@.take(i as int).map_values(|p: PeerId| SubsRecord::Peer(p)),
            decreases subs@.len() - i,
        {
            report.push(SubsRecord::Peer(subs[i]));
            i = i + 1;
            assert(report@ =~= before + subs@.take(i as int).map_values(
                |p: PeerId| SubsRecord::Peer(p),
            ));
        }
        report.push(SubsRecord::Count(subs.len()));
        proof {
            assert(subs@.take(i as int) =~= subs@);
            assert(report@ =~= before + report_on(res@[k as int]));
            let done = res@.take(k as int).map_values(per_resource);
            assert(res@.take(k + 1).map_values(per_resource) =~= done.push(
                per_resource(res@[k as int]),
            ));
            done.lemma_flatten_push(per_resource(res@[k as int]));
        }
        k = k + 1;
    }
    assert(res@.take(k as int) =~= res@);
    report
}

/// The subscribers of all resources, resource after resource.
pub fn get_subs_id(res: &Vec<Resource>) -> (ids: Vec<PeerId>)
    requires
        all_have_context(res@),
    ensures
        ids@ == subscribers_of(res@),
{
    let mut ids: Vec<PeerId> = Vec::new();
    let ghost per_resource = |r: Resource| r.subscribers();
    let mut k: usize = 0;
    assert(res@.take(0).map_values(per_resource) =~= Seq::<Seq<PeerId>>::empty());
    while k < res.len()
        invariant
            k <= res@.len(),
            all_have_context(res@),
            per_resource == |r: Resource| r.subscribers(),
            ids@ == subscribers_of(res@.take(k as int)),
        decreases res@.len() - k,
    {
        let subs = &res[k].context.as_ref().unwrap().peer_subs;
        let ghost before = ids@;
        let mut i: usize = 0;
        while i < subs.len()
            invariant
                i <= subs@.len(),
                ids@ == before + subs@.take(i as int),
            decreases subs@.len() - i,
        {
            ids.push(subs[i]);
            i = i + 1;
            assert(ids@ =~= before + subs@.take(i as int));
        }
        proof {
            assert(subs@.take(i as int) =~= subs@);
            let done = res@.take(k as int).map_values(per_resource);
            assert(res@.take(k + 1).map_values(per_resource) =~= done.push(
                per_resource(res@[k as int]),
            ));
            done.lemma_flatten_push(per_resource(res@[k as int]));
        }
        k = k + 1;
    }
    assert(res@.take(k as int) =~= res@);
    ids
}

/// The resources whose subscribers share the load, by resource id.
pub struct BalancedResources {
    resources: HashMap<u64, Resource>,
}

impl View for BalancedResources {
    type V = Map<u64, Resource>;

    closed spec fn view(&self) -> Map<u64, Resource> {
        self.resources@
    }
}

impl BalancedResources {
    /// No resource yet.
    pub fn new() -> (b: BalancedResources)
        ensures
            b@ == Map::<u64, Resource>::empty(),
    {
        BalancedResources { resources: HashMap::new() }
    }

    /// Puts `resource` under `resid`, in place of any resource that was
    /// there.
    pub fn insert(&mut self, resid: u64, resource: Resource)
        ensures
            final(self)@ == old(self)@.insert(resid, resource),
    {
        self.resources.insert(resid, resource);
    }

    /// The subscribers of the resource `resid`.
    pub fn get_subs_per_res(&self, resid: u64) -> (ids: Vec<&PeerId>)
        requires
            self@.contains_key(resid),
            self@[resid].context.is_some(),
        ensures
            ids@.len() == self@[resid].subscribers().len(),
            forall|i: int| 0 <= i < ids@.len() ==> *ids@[i] == self@[resid].subscribers()[i],
    {
        let mut ids: Vec<&PeerId> = Vec::new();
        let resource = self.resources.get(&resid).unwrap();
        let subs = &resource.context.as_ref().unwrap().peer_subs;
        let mut i: usize = 0;
        while i < subs.len()
            invariant
                i <= subs@.len(),
                ids@.len() == i,
                forall|j: int| 0 <= j < i ==> *ids@[j] == subs@[j],
            decreases subs@.len() - i,
        {
            ids.push(&subs[i]);
            i = i + 1;
        }
        ids
    }
}

} // verus!
