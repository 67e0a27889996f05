use vstd::prelude::*;
use vstd::slice::{slice_subrange, slice_to_vec};
use crate::addr::{IpAddress, SocketAddress};

verus! {

/// An explicit-congestion-notification codepoint, as carried in the two
/// low bits of the IP traffic-class byte.
#[derive(Clone, Copy, Debug, PartialEq, Eq, Structural)]
pub enum EcnCodepoint {
    Ect0,
    Ect1,
    Ce,
}

pub open spec fn ecn_of_bits(bits: u8) -> Option<EcnCodepoint> {
    if bits == 0b10 {
        Some(EcnCodepoint::Ect0)
    } else if bits == 0b01 {
        Some(EcnCodepoint::Ect1)
    } else if bits == 0b11 {
        Some(EcnCodepoint::Ce)
    } else {
        None
    }
}

pub open spec fn ecn_bits(e: EcnCodepoint) -> u8 {
    match e {
        EcnCodepoint::Ect0 => 0b10,
        EcnCodepoint::Ect1 => 0b01,
        EcnCodepoint::Ce => 0b11,
    }
}

impl EcnCodepoint {
    /// The codepoint for two ECN bits; `None` for "not ECN-capable" and for
    /// values that are not two bits.
    pub fn from_bits(bits: u8) -> (r: Option<EcnCodepoint>)
        ensures
            r == ecn_of_bits(bits),
    {
        if bits == 0b10 {
            Some(EcnCodepoint::Ect0)
        } else if bits == 0b01 {
            Some(EcnCodepoint::Ect1)
        } else if bits == 0b11 {
            Some(EcnCodepoint::Ce)
        } else {
            None
        }
    }

    pub fn bits(&self) -> (r: u8)
        ensures
            r == ecn_bits(*self),
            ecn_of_bits(r) == Some(*self),
    {
        match self {
            EcnCodepoint::Ect0 => 0b10,
            EcnCodepoint::Ect1 => 0b01,
            EcnCodepoint::Ce => 0b11,
        }
    }
}

/// One outgoing datagram, or, with `segment_size`, a run of datagrams of
/// that size (the last may be shorter) packed into one payload.
#[derive(Debug)]
pub struct Transmit {
    pub destination: SocketAddress,
    pub ecn: Option<EcnCodepoint>,
    pub contents: Vec<u8>,
    pub segment_size: Option<usize>,
}

/// What was received into one buffer slot.
#[derive(Clone, Copy, Debug, PartialEq, Eq, Structural)]
pub struct RecvMeta {
    /// The sender.
    pub addr: SocketAddress,
    /// The local address the datagram was sent to, where the host reports it.
    pub dst_ip: Option<IpAddress>,
    pub ecn: Option<EcnCodepoint>,
    /// Bytes written to the slot.
    pub len: usize,
    /// With coalesced receive, the size of each datagram in the slot (the
    /// last may be shorter).
    pub stride: Option<usize>,
}

/// What the two ends have found usable for batching.
#[derive(Clone, Copy, Debug, PartialEq, Eq, Structural)]
pub struct UdpState {
    /// How many datagrams one segmentation-offload send may carry; 1 where
    /// the host has none.
    pub max_gso_segments: usize,
    /// How many datagrams one coalesced receive may carry.
    pub gro_segments: usize,
}

/// The number of chunks of size `size` (the last may be shorter) that make
/// up `len` bytes; an empty run is one empty chunk.
pub open spec fn chunk_count(len: nat, size: nat) -> nat
    recommends
        size > 0,
    decreases len,
{
    if size == 0 || len <= size {
        1
    } else {
        1 + chunk_count((len - size) as nat, size)
    }
}

pub open spec fn chunk_start(i: nat, size: nat) -> nat {
    i * size
}

pub open spec fn chunk_end(i: nat, size: nat, len: nat) -> nat {
    if (i + 1) * size < len {
        (i + 1) * size
    } else {
        len
    }
}

/// Every chunk but the first starts inside the run.
pub proof fn lemma_chunk_start_within(len: nat, size: nat, i: nat)
    requires
        size > 0,
        i < chunk_count(len, size),
    ensures
        i == 0 || chunk_start(i, size) < len,
    decreases len,
{
    if i > 0 && len > size {
        lemma_chunk_start_within((len - size) as nat, size, (i - 1) as nat);
        assert(i * size == (i - 1) * size + size) by (nonlinear_arith);
    }
}

impl RecvMeta {
    /// The stride in effect: the whole slot unless a nonzero stride was given.
    pub open spec fn spec_stride(self) -> nat {
        match self.stride {
            Some(s) if s > 0 => s as nat,
            _ => if self.len > 0 { self.len as nat } else { 1 },
        }
    }

    /// How many datagrams the slot holds.
    pub open spec fn spec_datagram_count(self) -> nat {
        chunk_count(self.len as nat, self.spec_stride())
    }

    pub fn datagram_count(&self) -> (r: usize)
        ensures
            r == self.spec_datagram_count(),
    {
        let s: usize = match self.stride {
            Some(s) if s > 0 => s,
            _ => if self.len > 0 { self.len } else { 1 },
        };
        datagrams_in(self.len, s)
    }

    /// Where datagram `i` of the slot lies: from the first index up to,
    /// not including, the second.
    pub fn datagram_bounds(&self, i: usize) -> (r: (usize, usize))
        requires
            i < self.spec_datagram_count(),
        ensures
            r.0 == chunk_start(i as nat, self.spec_stride()),
            r.1 == chunk_end(i as nat, self.spec_stride(), self.len as nat),
            r.0 <= r.1 <= self.len,
    {
        let s: usize = match self.stride {
            Some(s) if s > 0 => s,
            _ => if self.len > 0 { self.len } else { 1 },
        };
        proof {
            lemma_chunk_start_within(self.len as nat, s as nat, i as nat);
            assert((i + 1) * s == i * s + s) by (nonlinear_arith);
        }
        let start: usize = if i == 0 { 0 } else { i * s };
        assert(start == i * s);
        if self.len - start > s {
            (start, start + s)
        } else {
            (start, self.len)
        }
    }
}

/// Whether one segmentation-offload send can carry the whole transmit: it
/// is a single datagram, or offload covers all its segments.
pub open spec fn offload_carries(state: UdpState, t: Transmit) -> bool {
    match t.segment_size {
        Some(s) if s > 0 => chunk_count(t.contents@.len(), s as nat) <= state.max_gso_segments,
        _ => true,
    }
}

/// Whether `p` goes to the same place, marked the same way, as `t`.
pub open spec fn same_route(p: Transmit, t: Transmit) -> bool {
    p.destination == t.destination && p.ecn == t.ecn
}

/// Breaks a transmit into the descriptors one send call can carry. Where
/// offload covers it, that is the transmit itself; otherwise one descriptor
/// per datagram, each a plain datagram of its own, in order.
pub fn split_for_send(t: &Transmit, state: &UdpState) -> (r: Vec<Transmit>)
    ensures
        offload_carries(*state, *t) ==> {
            &&& r@.len() == 1
            &&& same_route(r@[0], *t)
            &&& r@[0].contents@ == t.contents@
            &&& r@[0].segment_size == t.segment_size
        },
        !offload_carries(*state, *t) ==> {
            let size = t.segment_size->0 as nat;
            let len = t.contents@.len();
            &&& r@.len() == chunk_count(len, size)
            &&& forall|i: int|
                0 <= i < r@.len() ==> {
                    &&& same_route(#[trigger] r@[i], *t)
                    &&& r@[i].segment_size is None
                    &&& r@[i].contents@ == t.contents@.subrange(
                        chunk_start(i as nat, size) as int,
                        chunk_end(i as nat, size, len) as int,
                    )
                }
        },
{
    let size: usize = match t.segment_size {
        Some(s) if s > 0 => s,
        _ => 0,
    };
    let mut r: Vec<Transmit> = Vec::new();
    let whole = size == 0 || {
        let n = datagrams_in(t.contents.len(), size);
        n <= state.max_gso_segments
    };
    if whole {
        r.push(
            Transmit {
                destination: t.destination,
                ecn: t.ecn,
                contents: slice_to_vec(t.contents.as_slice()),
                segment_size: t.segment_size,
            },
        );
        return r;
    }
    let len = t.contents.len();
    let mut offset: usize = 0;
    let mut i: usize = 0;
    while len - offset > size
        invariant
            size > 0,
            t.segment_size == Some(size),
            !offload_carries(*state, *t),
            len == t.contents@.len(),
            offset <= len,
            i <= offset,
            offset == i * size,
            r@.len() == i,
            chunk_count(len as nat, size as nat) == i + chunk_count((len - offset) as nat, size as nat),
            forall|j: int|
                0 <= j < r@.len() ==> {
                    &&& same_route(#[trigger] r@[j], *t)
                    &&& r@[j].segment_size is None
                    &&& r@[j].contents@ == t.contents@.subrange(
                        chunk_start(j as nat, size as nat) as int,
                        chunk_end(j as nat, size as nat, len as nat) as int,
                    )
                },
        decreases len - offset,
    {
        let piece = slice_subrange(t.contents.as_slice(), offset, offset + size);
        assert((i + 1) * size == i * size + size) by (nonlinear_arith);
        r.push(
            Transmit {
                destination: t.destination,
                ecn: t.ecn,
                contents: slice_to_vec(piece),
                segment_size: None,
            },
        );
        offset = offset + size;
        i = i + 1;
    }
    let piece = slice_subrange(t.contents.as_slice(), offset, len);
    assert((i + 1) * size == i * size + size) by (nonlinear_arith);
    r.push(
        Transmit { destination: t.destination, ecn: t.ecn, contents: slice_to_vec(piece), segment_size: None },
    );
    r
}

/// How many datagrams of `size` bytes (the last may be shorter) `len`
/// bytes make.
pub fn datagrams_in(len: usize, size: usize) -> (r: usize)
    requires
        size > 0,
    ensures
        r == chunk_count(len as nat, size as nat),
{
    let mut rest: usize = len;
    let mut n: usize = 1;
    while rest > size
        invariant
            size > 0,
            rest <= len,
            n >= 1,
            n <= len - rest + 1,
            n + chunk_count(rest as nat, size as nat) - 1 == chunk_count(len as nat, size as nat),
        decreases rest,
    {
        rest = rest - size;
        n = n + 1;
    }
    n
}

} // verus!
