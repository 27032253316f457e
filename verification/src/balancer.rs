//! Spreading publications over the subscribers of a resource: the choice of
//! a subscriber and the book of the sub-resources registered for them.

use crate::protocol::PeerId;
use rand::Rng;
use vstd::prelude::*;

verus! {

/// An index below `len`, drawn by `Rng::gen_range` of the crate `rand` from
/// the range `0..len` on the generator of the calling thread. The range
/// must not be empty, or `gen_range` panics. Which index comes is a matter
/// of chance: two calls may differ.
#[verifier::external_body]
fn random_index(len: usize) -> (index: usize)
    requires
        len > 0,
    ensures
        index < len,
{
    rand::thread_rng().gen_range(0..len)
}

/// The peer at `choice`, if there is one.
pub fn peer_at(peers: &Vec<PeerId>, choice: usize) -> (r: Option<&PeerId>)
    ensures
        r == (if choice < peers@.len() {
            Some(&peers@[choice as int])
        } else {
            None
        }),
{
    if choice < peers.len() {
        Some(&peers[choice])
    } else {
        None
    }
}

/// Picks the peer that a publication goes to: none where there is no peer,
/// the peer itself where there is one, and one of them by chance where
/// there are more.
pub fn choose_peer(peers: &Vec<PeerId>) -> (r: Option<&PeerId>)
    ensures
        r.is_some() == (peers@.len() > 0),
        peers@.len() == 1 ==> r == Some(&peers@[0]),
        r matches Some(peer) ==> exists|i: int| 0 <= i < peers@.len() && peers@[i] == *peer,
{
    let len = peers.len();
    if len == 0 {
        None
    } else if len == 1 {
        peer_at(peers, 0)
    } else {
        let choice = random_index(len);
        peer_at(peers, choice)
    }
}

/// The text that `format!` of std writes for the number `id` under `{:X}`:
/// its hexadecimal digits in upper case.
pub uninterp spec fn upper_hex(id: u128) -> Seq<char>;

/// The identity of `peer` as text, by `format!` of std with `{:X}`.
#[verifier::external_body]
fn peer_text(peer: &PeerId) -> (text: String)
    ensures
        text@ == upper_hex(peer.id),
{
    format!("{:X}", peer.id)
}

/// `format!` of std with `{}/{}` on two texts: the first text, a slash and
/// the second text.
#[verifier::external_body]
fn join_with_slash(path: &str, leaf: &str) -> (joined: String)
    ensures
        joined@ == path@ + seq!['/'] + leaf@,
{
    format!("{}/{}", path, leaf)
}

/// The path of the sub-resource of `path` for the subscriber that is
/// written `peer`: the path, a slash and the subscriber.
pub fn sub_resource_path_for(path: &str, peer: &str) -> (sub: String)
    ensures
        sub@ == path@ + seq!['/'] + peer@,
{
    join_with_slash(path, peer)
}

/// The path of the sub-resource of `path` for the subscriber `peer`: the
/// path, a slash and the subscriber's identity in hexadecimal digits.
pub fn sub_resource_path(path: &str, peer: &PeerId) -> (sub: String)
    ensures
        sub@ == path@ + seq!['/'] + upper_hex(peer.id),
{
    let text = peer_text(peer);
    sub_resource_path_for(path, text.as_str())
}

/// A sub-resource that was registered for one subscriber.
pub struct SubResource {
    /// The path of the resource, a slash and the subscriber's identity.
    pub path: String,
    /// The id under which the sub-resource was registered.
    pub id: u64,
}

/// Whether no path stands twice in `entries`.
pub open spec fn paths_differ(entries: Seq<SubResource>) -> bool {
    forall|i: int, j: int|
        0 <= i < j < entries.len() ==> (#[trigger] entries[i]).path@ != (#[trigger] entries[j]).path@
}

/// The book that `entries` make: from each path to the id beside it.
pub open spec fn book_of(entries: Seq<SubResource>) -> Map<Seq<char>, u64> {
    Map::new(
        |path: Seq<char>| exists|i: int| 0 <= i < entries.len() && (#[trigger] entries[i]).path@ == path,
        |path: Seq<char>|
            entries[choose|i: int| 0 <= i < entries.len() && (#[trigger] entries[i]).path@ == path].id,
    )
}

/// Where no path stands twice, the book holds every entry.
proof fn lemma_book_holds(entries: Seq<SubResource>, i: int)
    requires
        paths_differ(entries),
        0 <= i < entries.len(),
    ensures
        book_of(entries).contains_key(entries[i].path@),
        book_of(entries)[entries[i].path@] == entries[i].id,
{
    let path = entries[i].path@;
    let k = choose|k: int| 0 <= k < entries.len() && (#[trigger] entries[k]).path@ == path;
    if k < i {
        assert(entries[k].path@ != entries[i].path@);
    } else if i < k {
        assert(entries[i].path@ != entries[k].path@);
    }
}

/// The load balancer's book of the sub-resources that are registered.
pub struct LoadBalancer {
    registered_sub_resources: Vec<SubResource>,
}

impl View for LoadBalancer {
    type V = Map<Seq<char>, u64>;

    /// The registered sub-resources, from path to id.
    closed spec fn view(&self) -> Map<Seq<char>, u64> {
        book_of(self.registered_sub_resources@)
    }
}

impl LoadBalancer {
    #[verifier::type_invariant]
    spec fn inv(self) -> bool {
        paths_differ(self.registered_sub_resources@)
    }

    /// A load balancer that knows no sub-resource yet.
    pub fn new() -> (lb: LoadBalancer)
        ensures
            lb@ == Map::<Seq<char>, u64>::empty(),
    {
        let lb = LoadBalancer { registered_sub_resources: Vec::new() };
        assert(lb@ =~= Map::<Seq<char>, u64>::empty());
        lb
    }

    /// Where the entry of `path` stands, if the path is registered.
    fn find(entries: &Vec<SubResource>, path: &String) -> (r: Option<usize>)
        ensures
            match r {
                Some(i) => i < entries@.len() && entries@[i as int].path@ == path@,
                None => forall|j: int| 0 <= j < entries@.len() ==> (#[trigger] entries@[j]).path@ != path@,
            },
    {
        let mut i: usize = 0;
        while i < entries.len()
            invariant
                i <= entries@.len(),
                forall|j: int| 0 <= j < i ==> (#[trigger] entries@[j]).path@ != path@,
            decreases entries@.len() - i,
        {
            if entries[i].path == *path {
                return Some(i);
            }
            i = i + 1;
        }
        None
    }

    /// The id under which the sub-resource `path` is registered, if it is.
    pub fn registered(&self, path: &String) -> (id: Option<u64>)
        ensures
            id == (if self@.contains_key(path@) {
                Some(self@[path@])
            } else {
                None
            }),
    {
        proof {
            use_type_invariant(self);
        }
        match Self::find(&self.registered_sub_resources, path) {
            Some(i) => {
                proof {
                    lemma_book_holds(self.registered_sub_resources@, i as int);
                }
                Some(self.registered_sub_resources[i].id)
            },
            None => None,
        }
    }

    /// Books the sub-resource `path` under `id`, in place of an earlier id
    /// of the same path, which is handed back.
    pub fn register(&mut self, path: String, id: u64) -> (earlier: Option<u64>)
        ensures
            final(self)@ == old(self)@.insert(path@, id),
            earlier == (if old(self)@.contains_key(path@) {
                Some(old(self)@[path@])
            } else {
                None
            }),
    {
        proof {
            use_type_invariant(&*self);
        }
        let ghost before = self.registered_sub_resources@;
        let mut entries: Vec<SubResource> = Vec::new();
        std::mem::swap(&mut entries, &mut self.registered_sub_resources);
        let found = Self::find(&entries, &path);
        let earlier = match found {
            Some(i) => {
                proof {
                    lemma_book_holds(before, i as int);
                }
                let earlier = entries[i].id;
                entries.set(i, SubResource { path, id });
                Some(earlier)
            },
            None => {
                entries.push(SubResource { path, id });
                None
            },
        };
        proof {
            let after = entries@;
            let at = match found {
                Some(i) => i as int,
                None => before.len() as int,
            };
            assert(after[at].path@ == path@ && after[at].id == id);
            assert forall|i: int, j: int| 0 <= i < j < after.len() implies (#[trigger] after[i]).path@ != (
            #[trigger] after[j]).path@ by {
                if i < before.len() && j < before.len() {
                    assert(before[i].path@ != before[j].path@);
                } else {
                    assert(before[i].path@ != path@);
                }
            }
            lemma_book_holds(after, at);
            assert forall|p: Seq<char>| #[trigger]
                book_of(after).contains_key(p) == book_of(before).insert(path@, id).contains_key(
                    p,
                ) by {
                if book_of(after).contains_key(p) {
                    let k = choose|k: int| 0 <= k < after.len() && (#[trigger] after[k]).path@ == p;
                    if k != at {
                        assert(before[k].path@ == p);
                    }
                }
                if book_of(before).contains_key(p) {
                    let k = choose|k: int| 0 <= k < before.len() && (#[trigger] before[k]).path@ == p;
                    assert(after[k].path@ == p);
                }
            }
            assert forall|p: Seq<char>| book_of(after).contains_key(p) implies #[trigger] book_of(
                after,
            )[p] == book_of(before).insert(path@, id)[p] by {
                if p != path@ {
                    let k = choose|k: int| 0 <= k < after.len() && (#[trigger] after[k]).path@ == p;
                    assert(k != at);
                    assert(before[k] == after[k]);
                    lemma_book_holds(after, k);
                    lemma_book_holds(before, k);
                }
            }
            assert(book_of(after) =~= book_of(before).insert(path@, id));
        }
        self.registered_sub_resources = entries;
        earlier
    }
}

} // verus!
