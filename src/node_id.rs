//! Node identities, held in their canonical byte form.
use vstd::prelude::*;

verus! {

/// A node of the mesh, identified by the canonical bytes of its public-key
/// derived peer id. Every comparison goes through these bytes.
#[derive(Debug)]
pub struct NodeId {
    pub bytes: Vec<u8>,
}

impl View for NodeId {
    type V = Seq<u8>;

    open spec fn view(&self) -> Seq<u8> {
        self.bytes@
    }
}

impl Clone for NodeId {
    fn clone(&self) -> (r: Self)
        ensures
            r@ == self@,
    {
        NodeId { bytes: self.bytes.clone() }
    }
}

/// The identity of an optional node, by its bytes.
pub open spec fn node_view(n: Option<NodeId>) -> Option<Seq<u8>> {
    match n {
        Some(id) => Some(id@),
        None => None,
    }
}

/// Relies on `bs58::encode(..).into_string()`: the Base58 text of some bytes
/// depends on the bytes alone.
pub uninterp spec fn base58_of(bytes: Seq<u8>) -> Seq<char>;

/// Relies on `bs58::encode(..).into_string()` (Bitcoin alphabet).
#[verifier::external_body]
fn base58_text(bytes: &Vec<u8>) -> (r: String)
    ensures
        r@ == base58_of(bytes@),
{
    bs58::encode(bytes).into_string()
}

impl NodeId {
    pub fn from_bytes(bytes: Vec<u8>) -> (r: Self)
        ensures
            r@ == bytes@,
    {
        NodeId { bytes }
    }

    /// Whether two ids have the same canonical bytes.
    pub fn same_as(&self, other: &NodeId) -> (r: bool)
        ensures
            r == (self@ == other@),
    {
        let n = self.bytes.len();
        if n != other.bytes.len() {
            return false;
        }
        let mut i: usize = 0;
        while i < n
            invariant
                n == self@.len(),
                n == other@.len(),
                i <= n,
                forall|j: int| 0 <= j < i ==> self@[j] == other@[j],
            decreases n - i,
        {
            if self.bytes[i] != other.bytes[i] {
                return false;
            }
            i = i + 1;
        }
        proof {
            assert(self@ =~= other@);
        }
        true
    }

    /// The Base58 text of the id, as shown to people and web clients.
    pub fn to_base58(&self) -> (r: String)
        ensures
            r@ == base58_of(self@),
    {
        base58_text(&self.bytes)
    }
}

/// Whether two optional node ids name the same node (or are both absent).
pub fn same_node(a: &Option<NodeId>, b: &Option<NodeId>) -> (r: bool)
    ensures
        r == (node_view(*a) == node_view(*b)),
{
    match (a, b) {
        (Some(x), Some(y)) => x.same_as(y),
        (None, None) => true,
        _ => false,
    }
}

/// A copy of an optional node id.
pub fn copy_node(a: &Option<NodeId>) -> (r: Option<NodeId>)
    ensures
        node_view(r) == node_view(*a),
{
    match a {
        Some(x) => Some(x.clone()),
        None => None,
    }
}

} // verus!
