//! The table of connections a session keeps, one entry per remote identity.

use crate::keys::{
    id_label, key_fingerprint, readable_id, readable_key, same_key, PublicKey, SharedSecret,
};
use vstd::prelude::*;
use vstd::string::StringExecFns;

verus! {

/// What a session knows about its connection to one peer.
#[derive(Clone, Copy, PartialEq, Eq)]
pub struct PeerConnection {
    /// The secret agreed with the peer.
    pub shared_secret: SharedSecret,
    /// Whether the connection is established (`true`) or still pending.
    pub acknowledged: bool,
}

/// Whether no identity occurs twice in a listing.
pub open spec fn distinct_ids(listing: Seq<(PublicKey, PeerConnection)>) -> bool {
    forall|i: int, j: int| 0 <= i < j < listing.len() ==> listing[i].0 != listing[j].0
}

/// Whether a listing has an entry for `id`.
pub open spec fn lists(listing: Seq<(PublicKey, PeerConnection)>, id: PublicKey) -> bool {
    exists|i: int| 0 <= i < listing.len() && #[trigger] listing[i].0 == id
}

/// The mapping a listing stands for: each listed identity to the connection
/// listed with it.
pub open spec fn listing_map(listing: Seq<(PublicKey, PeerConnection)>) -> Map<
    PublicKey,
    PeerConnection,
> {
    Map::new(
        |id: PublicKey| lists(listing, id),
        |id: PublicKey|
            listing[choose|i: int| 0 <= i < listing.len() && #[trigger] listing[i].0 == id].1,
    )
}

/// How one entry is shown: identity label, secret fingerprint, and whether
/// the connection is established.
pub open spec fn entry_text(entry: (PublicKey, PeerConnection)) -> Seq<char> {
    let established = if entry.1.acknowledged {
        "true"@
    } else {
        "false"@
    };
    "("@ + id_label(entry.0) + " => "@ + key_fingerprint(entry.1.shared_secret) + ", "@
        + established + ")"@
}

/// How a listing is shown: its entries in order, separated by `", "`.
pub open spec fn listing_text(listing: Seq<(PublicKey, PeerConnection)>) -> Seq<char>
    decreases listing.len(),
{
    if listing.len() == 0 {
        Seq::empty()
    } else if listing.len() == 1 {
        entry_text(listing[0])
    } else {
        listing_text(listing.drop_last()) + ", "@ + entry_text(listing.last())
    }
}

/// In a listing without repeated identities, every entry is what the
/// mapping holds for its identity.
pub proof fn lemma_listing_lookup(listing: Seq<(PublicKey, PeerConnection)>, i: int)
    requires
        distinct_ids(listing),
        0 <= i < listing.len(),
    ensures
        listing_map(listing).contains_key(listing[i].0),
        listing_map(listing)[listing[i].0] == listing[i].1,
{
    let id = listing[i].0;
    assert(lists(listing, id));
    let k = choose|k: int| 0 <= k < listing.len() && #[trigger] listing[k].0 == id;
    assert(k == i);
}

/// Connections keyed by remote identity. No identity has more than one
/// entry.
pub struct PeerTable {
    entries: Vec<(PublicKey, PeerConnection)>,
}

impl View for PeerTable {
    type V = Map<PublicKey, PeerConnection>;

    open spec fn view(&self) -> Map<PublicKey, PeerConnection> {
        listing_map(self.listing())
    }
}

fn position(entries: &Vec<(PublicKey, PeerConnection)>, id: &PublicKey) -> (found: Option<usize>)
    ensures
        match found {
            Some(i) => i < entries.len() && entries[i as int].0 == *id,
            None => !lists(entries@, *id),
        },
{
    let mut i: usize = 0;
    while i < entries.len()
        invariant
            i <= entries.len(),
            forall|j: int| 0 <= j < i ==> entries[j].0 != *id,
        decreases entries.len() - i,
    {
        if same_key(&entries[i].0, id) {
            return Some(i);
        }
        i += 1;
    }
    None
}

impl PeerTable {
    /// The entries in the order in which they are listed.
    pub closed spec fn listing(&self) -> Seq<(PublicKey, PeerConnection)> {
        self.entries@
    }

    #[verifier::type_invariant]
    spec fn well_formed(self) -> bool {
        distinct_ids(self.entries@)
    }

    /// A table without entries.
    pub fn new() -> (table: PeerTable)
        ensures
            table@ == Map::<PublicKey, PeerConnection>::empty(),
    {
        let table = PeerTable { entries: Vec::new() };
        assert(table@ =~= Map::<PublicKey, PeerConnection>::empty());
        table
    }

    /// The connection recorded for `id`, if there is one.
    pub fn get(&self, id: &PublicKey) -> (found: Option<PeerConnection>)
        ensures
            found == self@.get(*id),
    {
        proof {
            use_type_invariant(self);
        }
        match position(&self.entries, id) {
            Some(i) => {
                proof {
                    lemma_listing_lookup(self.entries@, i as int);
                }
                Some(self.entries[i].1)
            },
            None => None,
        }
    }

    /// Records `link` for `id`, in place of what was recorded for it before.
    pub fn insert(&mut self, id: PublicKey, link: PeerConnection)
        ensures
            final(self)@ == old(self)@.insert(id, link),
    {
        proof {
            use_type_invariant(&*self);
        }
        let mut entries = Vec::new();
        std::mem::swap(&mut entries, &mut self.entries);
        let ghost before = entries@;
        match position(&entries, &id) {
            Some(i) => {
                entries.set(i, (id, link));
            },
            None => {
                entries.push((id, link));
            },
        }
        proof {
            lemma_after_insert(before, entries@, id, link);
        }
        self.entries = entries;
    }

    /// Forgets the connection recorded for `id`, if there is one.
    pub fn remove(&mut self, id: &PublicKey)
        ensures
            final(self)@ == old(self)@.remove(*id),
    {
        proof {
            use_type_invariant(&*self);
        }
        let mut entries = Vec::new();
        std::mem::swap(&mut entries, &mut self.entries);
        let ghost before = entries@;
        match position(&entries, id) {
            Some(i) => {
                entries.remove(i);
            },
            None => {},
        }
        proof {
            lemma_after_remove(before, entries@, *id);
        }
        self.entries = entries;
    }

    /// The entries as text, keys shown as fingerprints only.
    pub fn render(&self) -> (text: String)
        ensures
            text@ == listing_text(self.listing()),
            distinct_ids(self.listing()),
    {
        proof {
            use_type_invariant(self);
        }
        let mut text = String::new();
        let mut i: usize = 0;
        while i < self.entries.len()
            invariant
                i <= self.entries.len(),
                text@ == listing_text(self.entries@.take(i as int)),
            decreases self.entries.len() - i,
        {
            let ghost shown = self.entries@.take(i as int);
            let ghost next = self.entries@.take(i + 1);
            if i > 0 {
                text.append(", ");
            }
            text.append("(");
            let id = readable_id(&self.entries[i].0);
            text.append(id.as_str());
            text.append(" => ");
            let secret = readable_key(&self.entries[i].1.shared_secret);
            text.append(secret.as_str());
            text.append(", ");
            text.append(if self.entries[i].1.acknowledged { "true" } else { "false" });
            text.append(")");
            proof {
                assert(next.drop_last() =~= shown);
                assert(next.last() == self.entries@[i as int]);
                assert(text@ =~= listing_text(next));
            }
            i += 1;
        }
        assert(self.entries@.take(i as int) =~= self.entries@);
        text
    }
}

proof fn lemma_after_insert(
    before: Seq<(PublicKey, PeerConnection)>,
    after: Seq<(PublicKey, PeerConnection)>,
    id: PublicKey,
    link: PeerConnection,
)
    requires
        distinct_ids(before),
        (exists|i: int| 0 <= i < before.len() && before[i].0 == id && after == before.update(i, (id, link)))
            || (!lists(before, id) && after == before.push((id, link))),
    ensures
        distinct_ids(after),
        listing_map(after) == listing_map(before).insert(id, link),
{
    let target = listing_map(before).insert(id, link);
    let at: int = if lists(before, id) {
        choose|i: int| 0 <= i < before.len() && before[i].0 == id && after == before.update(i, (id, link))
    } else {
        before.len() as int
    };
    assert(0 <= at < after.len() && after[at] == (id, link));
    assert(forall|j: int| 0 <= j < after.len() && j != at ==> after[j] == before[j] && before[j].0 != id);
    assert(distinct_ids(after));
    assert forall|p: PublicKey| listing_map(after).contains_key(p) == target.contains_key(p) by {
        if lists(after, p) {
            let j = choose|j: int| 0 <= j < after.len() && #[trigger] after[j].0 == p;
            if j != at {
                assert(before[j].0 == p);
            }
        }
        if target.contains_key(p) && p != id {
            let j = choose|j: int| 0 <= j < before.len() && #[trigger] before[j].0 == p;
            assert(after[j].0 == p);
        }
        if p == id {
            assert(after[at].0 == p);
        }
    }
    assert forall|p: PublicKey| listing_map(after).contains_key(p) implies listing_map(after)[p]
        == target[p] by {
        let j = choose|j: int| 0 <= j < after.len() && #[trigger] after[j].0 == p;
        lemma_listing_lookup(after, j);
        if j != at {
            lemma_listing_lookup(before, j);
        }
    }
    assert(listing_map(after) =~= target);
}

proof fn lemma_after_remove(
    before: Seq<(PublicKey, PeerConnection)>,
    after: Seq<(PublicKey, PeerConnection)>,
    id: PublicKey,
)
    requires
        distinct_ids(before),
        (exists|i: int| 0 <= i < before.len() && before[i].0 == id && after == before.remove(i))
            || (!lists(before, id) && after == before),
    ensures
        distinct_ids(after),
        listing_map(after) == listing_map(before).remove(id),
{
    let target = listing_map(before).remove(id);
    if lists(before, id) {
        let at = choose|i: int| 0 <= i < before.len() && before[i].0 == id && after == before.remove(i);
        assert(forall|j: int| 0 <= j < at ==> after[j] == before[j]);
        assert(forall|j: int| at <= j < after.len() ==> after[j] == before[j + 1]);
        assert(distinct_ids(after));
        assert forall|p: PublicKey| listing_map(after).contains_key(p) == target.contains_key(p) by {
            if lists(after, p) {
                let j = choose|j: int| 0 <= j < after.len() && #[trigger] after[j].0 == p;
                if j < at {
                    assert(before[j].0 == p);
                } else {
                    assert(before[j + 1].0 == p);
                }
            }
            if target.contains_key(p) {
                let j = choose|j: int| 0 <= j < before.len() && #[trigger] before[j].0 == p;
                if j < at {
                    assert(after[j].0 == p);
                } else {
                    assert(after[j - 1].0 == p);
                }
            }
        }
        assert forall|p: PublicKey| listing_map(after).contains_key(p) implies listing_map(after)[p]
            == target[p] by {
            let j = choose|j: int| 0 <= j < after.len() && #[trigger] after[j].0 == p;
            lemma_listing_lookup(after, j);
            if j < at {
                lemma_listing_lookup(before, j);
            } else {
                lemma_listing_lookup(before, j + 1);
            }
        }
        assert(listing_map(after) =~= target);
    } else {
        assert(listing_map(after) =~= target);
    }
}

} // verus!
