//! Lanes to bytes and back, as the GPU buffers hold them.
//!
//! The bytes of a lane are in the byte order of the machine, so a contract
//! here says that a run of bytes is one of the two orders of a run of lanes.

use crate::simulation::types::{
    Body, SimulationState, BODY_SIZE, DEBUG_SIZE, LANES_PER_BODY, STATE_SIZE,
};
use vstd::prelude::*;

verus! {

/// Byte `k` of a lane, counted from the least significant.
pub open spec fn spec_lane_byte(lane: u32, k: int) -> u8 {
    if k == 0 {
        (lane % 256) as u8
    } else if k == 1 {
        (lane / 256 % 256) as u8
    } else if k == 2 {
        (lane / 65536 % 256) as u8
    } else {
        (lane / 16777216 % 256) as u8
    }
}

/// The lanes as bytes, least significant byte of each lane first.
pub open spec fn spec_le_bytes(lanes: Seq<u32>) -> Seq<u8> {
    Seq::new(4 * lanes.len(), |i: int| spec_lane_byte(lanes[i / 4], i % 4))
}

/// The lanes as bytes, most significant byte of each lane first.
pub open spec fn spec_be_bytes(lanes: Seq<u32>) -> Seq<u8> {
    Seq::new(4 * lanes.len(), |i: int| spec_lane_byte(lanes[i / 4], 3 - i % 4))
}

/// Lane `i` of a run of bytes read least significant byte first.
pub open spec fn spec_le_lane(bytes: Seq<u8>, i: int) -> u32 {
    (bytes[4 * i] + 256 * bytes[4 * i + 1] + 65536 * bytes[4 * i + 2] + 16777216 * bytes[4 * i
        + 3]) as u32
}

/// Lane `i` of a run of bytes read most significant byte first.
pub open spec fn spec_be_lane(bytes: Seq<u8>, i: int) -> u32 {
    (bytes[4 * i + 3] + 256 * bytes[4 * i + 2] + 65536 * bytes[4 * i + 1] + 16777216 * bytes[4
        * i]) as u32
}

/// The lanes that a run of bytes spells, least significant byte first.
pub open spec fn spec_le_lanes(bytes: Seq<u8>) -> Seq<u32> {
    Seq::new(bytes.len() / 4, |i: int| spec_le_lane(bytes, i))
}

/// The lanes that a run of bytes spells, most significant byte first.
pub open spec fn spec_be_lanes(bytes: Seq<u8>) -> Seq<u32> {
    Seq::new(bytes.len() / 4, |i: int| spec_be_lane(bytes, i))
}

/// Whether `bytes` holds `lanes` in one of the two byte orders.
pub open spec fn spec_is_native(bytes: Seq<u8>, lanes: Seq<u32>) -> bool {
    bytes == spec_le_bytes(lanes) || bytes == spec_be_bytes(lanes)
}

/// The lanes of a run of bodies, body after body.
pub open spec fn spec_body_lanes(bodies: Seq<Body>) -> Seq<u32> {
    Seq::new(12 * bodies.len(), |i: int| bodies[i / 12].spec_lanes()[i % 12])
}

/// Calls `bytemuck::cast_slice` from `u32` to `u8`, which reinterprets the
/// slice in place, and copies what it returns. Trusted: the bytes are the
/// lanes in the byte order of the machine, four to a lane. The cast cannot
/// fail, `u8` having no alignment and any number of `u32` being whole bytes.
#[verifier::external_body]
fn cast_lanes(lanes: &Vec<u32>) -> (bytes: Vec<u8>)
    ensures
        spec_is_native(bytes@, lanes@),
{
    bytemuck::cast_slice::<u32, u8>(lanes.as_slice()).to_vec()
}

/// Calls `bytemuck::pod_read_unaligned` for eight `u32`, which reads the
/// bytes as that value wherever they lie in memory. Trusted: the bytes given
/// are the eight lanes in the byte order of the machine. The call panics on
/// any other length than thirty-two, which `requires` leaves out.
#[verifier::external_body]
fn read_lanes(bytes: &Vec<u8>) -> (lanes: [u32; 8])
    requires
        bytes@.len() == 32,
    ensures
        spec_is_native(bytes@, lanes@),
{
    bytemuck::pod_read_unaligned::<[u32; 8]>(bytes.as_slice())
}

/// Lanes written as bytes and read back in the same byte order are the
/// lanes that were written.
pub proof fn lemma_lanes_of_bytes(lanes: Seq<u32>)
    ensures
        spec_le_lanes(spec_le_bytes(lanes)) == lanes,
        spec_be_lanes(spec_be_bytes(lanes)) == lanes,
{
    let le = spec_le_lanes(spec_le_bytes(lanes));
    let be = spec_be_lanes(spec_be_bytes(lanes));
    assert(le.len() == lanes.len());
    assert(be.len() == lanes.len());
    assert forall|i: int| 0 <= i < lanes.len() implies le[i] == lanes[i] && be[i] == lanes[i] by {
        let x = lanes[i];
        assert((4 * i) / 4 == i && (4 * i) % 4 == 0);
        assert((4 * i + 1) / 4 == i && (4 * i + 1) % 4 == 1);
        assert((4 * i + 2) / 4 == i && (4 * i + 2) % 4 == 2);
        assert((4 * i + 3) / 4 == i && (4 * i + 3) % 4 == 3);
        assert(x == x % 256 + 256 * (x / 256 % 256) + 65536 * (x / 65536 % 256) + 16777216 * (x
            / 16777216 % 256));
    }
    assert(le =~= lanes);
    assert(be =~= lanes);
}

/// Appending a body to a run appends its twelve lanes.
pub proof fn lemma_body_lanes_push(bodies: Seq<Body>, body: Body)
    ensures
        spec_body_lanes(bodies.push(body)) == spec_body_lanes(bodies) + body.spec_lanes(),
{
    let left = spec_body_lanes(bodies.push(body));
    let right = spec_body_lanes(bodies) + body.spec_lanes();
    assert(body.spec_lanes().len() == 12);
    assert(left.len() == right.len());
    assert forall|i: int| 0 <= i < left.len() implies left[i] == right[i] by {
        if i < 12 * bodies.len() {
            assert(i / 12 < bodies.len());
        } else {
            assert(i / 12 == bodies.len());
            assert(i % 12 == i - 12 * bodies.len());
        }
    }
    assert(left =~= right);
}

/// The lanes of `bodies`, body after body.
pub fn body_lanes(bodies: &Vec<Body>) -> (lanes: Vec<u32>)
    ensures
        lanes@ == spec_body_lanes(bodies@),
        lanes@.len() == LANES_PER_BODY * bodies@.len(),
{
    let mut lanes: Vec<u32> = Vec::new();
    let mut i: usize = 0;
    assert(spec_body_lanes(bodies@.take(0)) =~= Seq::<u32>::empty());
    while i < bodies.len()
        invariant
            i <= bodies.len(),
            lanes@ == spec_body_lanes(bodies@.take(i as int)),
        decreases bodies.len() - i,
    {
        proof {
            lemma_body_lanes_push(bodies@.take(i as int), bodies@[i as int]);
            assert(bodies@.take(i as int).push(bodies@[i as int]) =~= bodies@.take(i + 1));
        }
        bodies[i].push_lanes(&mut lanes);
        i += 1;
    }
    assert(bodies@.take(bodies.len() as int) =~= bodies@);
    lanes
}

/// The bytes a body buffer holds for `bodies`: forty-eight to a body.
pub fn encode_bodies(bodies: &Vec<Body>) -> (bytes: Vec<u8>)
    ensures
        spec_is_native(bytes@, spec_body_lanes(bodies@)),
        bytes@.len() == BODY_SIZE * bodies@.len(),
{
    let lanes = body_lanes(bodies);
    cast_lanes(&lanes)
}

/// The bytes the uniform buffer holds for `state`.
pub fn encode_state(state: &SimulationState) -> (bytes: Vec<u8>)
    ensures
        spec_is_native(bytes@, state.spec_lanes()),
        bytes@.len() == STATE_SIZE,
{
    let lanes = state.lanes();
    cast_lanes(&lanes)
}

/// The eight lanes that the bytes of a debug buffer spell, in the byte order
/// of the machine, or nothing where `bytes` is not thirty-two bytes long.
pub fn decode_debug_lanes(bytes: &Vec<u8>) -> (lanes: Option<[u32; 8]>)
    ensures
        lanes is Some <==> bytes@.len() == DEBUG_SIZE,
        lanes matches Some(l) ==> l@ == spec_le_lanes(bytes@) || l@ == spec_be_lanes(bytes@),
{
    if bytes.len() == DEBUG_SIZE {
        let lanes = read_lanes(bytes);
        proof {
            lemma_lanes_of_bytes(lanes@);
        }
        Some(lanes)
    } else {
        None
    }
}

} // verus!
