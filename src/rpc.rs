use vstd::prelude::*;

verus! {

/// Hands out the ids of JSON-RPC requests: 1, 2, 3, ... in order, owned by
/// one client.
#[derive(Debug)]
pub struct IdGenerator {
    state: u64,
}

impl IdGenerator {
    /// The id that the next request gets.
    pub closed spec fn next_id(self) -> u64 {
        self.state
    }

    pub fn new() -> (r: IdGenerator)
        ensures
            r.next_id() == 1,
    {
        IdGenerator { state: 1 }
    }

    /// Returns the id for a request and moves on to the following one,
    /// wrapping to 0 after `u64::MAX`.
    pub fn next(&mut self) -> (r: u64)
        ensures
            r == old(self).next_id(),
            final(self).next_id() == (if r == u64::MAX {
                0
            } else {
                (r + 1) as u64
            }),
    {
        let r = self.state;
        self.state = if r == u64::MAX {
            0
        } else {
            r + 1
        };
        r
    }
}

impl Default for IdGenerator {
    fn default() -> (r: IdGenerator)
        ensures
            r.next_id() == 1,
    {
        IdGenerator::new()
    }
}

/// How many of the flags hold.
pub open spec fn count_true(s: Seq<bool>) -> nat
    decreases s.len(),
{
    if s.len() == 0 {
        0
    } else {
        count_true(s.drop_last()) + if s.last() {
            1nat
        } else {
            0nat
        }
    }
}

/// Counts the inbound and the outbound peers, given for each peer whether
/// it is outbound.
pub fn peer_counts(is_outbound: &Vec<bool>) -> (r: (usize, usize))
    ensures
        r.1 == count_true(is_outbound@),
        r.0 + r.1 == is_outbound@.len(),
{
    let mut inbound: usize = 0;
    let mut outbound: usize = 0;
    let mut i: usize = 0;
    while i < is_outbound.len()
        invariant
            i <= is_outbound.len(),
            outbound == count_true(is_outbound@.subrange(0, i as int)),
            inbound + outbound == i,
        decreases is_outbound.len() - i,
    {
        proof {
            assert(is_outbound@.subrange(0, i + 1).drop_last() =~= is_outbound@.subrange(0, i as int));
        }
        if is_outbound[i] {
            outbound = outbound + 1;
        } else {
            inbound = inbound + 1;
        }
        i = i + 1;
    }
    assert(is_outbound@.subrange(0, i as int) =~= is_outbound@);
    (inbound, outbound)
}

} // verus!
