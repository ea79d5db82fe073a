//! Replies that describe the device: the identification string and the
//! metadata record.
use vstd::prelude::*;
use crate::sampler::Sampler;

verus! {

/// Tags of the metadata record.
pub struct Meta;

impl Meta {
    pub const END: u8 = 0x00;
    pub const NAME: u8 = 0x01;
    pub const SAMPLE_MEMORY: u8 = 0x21;
    pub const DYNAMIC_MEMORY: u8 = 0x22;
    pub const MAX_SAMPLERATE: u8 = 0x23;
    pub const NUM_PROBES: u8 = 0x40;
    pub const PROTOCOL_VERSION: u8 = 0x41;
}

/// Number of input lines sampled.
pub const NUM_PROBES: u8 = 8;

/// Version of the SUMP protocol spoken.
pub const PROTOCOL_VERSION: u8 = 2;

/// The identification reply: ASCII `1ALS`.
pub open spec fn id_bytes() -> Seq<u8> {
    seq![0x31u8, 0x41u8, 0x4Cu8, 0x53u8]
}

/// The device name, ASCII `logicalrust`.
pub open spec fn name_bytes() -> Seq<u8> {
    seq![0x6cu8, 0x6fu8, 0x67u8, 0x69u8, 0x63u8, 0x61u8, 0x6cu8, 0x72u8, 0x75u8, 0x73u8, 0x74u8]
}

/// Big-endian bytes of a 32-bit value.
pub open spec fn be32(v: u32) -> Seq<u8> {
    seq![
        (v / 0x100_0000) as u8,
        (v / 0x1_0000 % 0x100) as u8,
        (v / 0x100 % 0x100) as u8,
        (v % 0x100) as u8,
    ]
}

/// The metadata record: tagged fields, closed by the end tag.
pub open spec fn metadata_bytes() -> Seq<u8> {
    seq![Meta::NAME] + name_bytes() + seq![Meta::END]
        + seq![Meta::SAMPLE_MEMORY] + be32(Sampler::SAMPLE_MEMORY as u32)
        + seq![Meta::DYNAMIC_MEMORY] + be32(0)
        + seq![Meta::MAX_SAMPLERATE] + be32(Sampler::MAX_SAMPLERATE as u32)
        + seq![Meta::NUM_PROBES, NUM_PROBES]
        + seq![Meta::PROTOCOL_VERSION, PROTOCOL_VERSION]
        + seq![Meta::END]
}

/// The reply to an identification request.
pub fn id_reply() -> (r: Vec<u8>)
    ensures
        r@ == id_bytes(),
{
    let mut r: Vec<u8> = Vec::new();
    r.push(0x31);
    r.push(0x41);
    r.push(0x4C);
    r.push(0x53);
    assert(r@ =~= id_bytes());
    r
}

/// Appends the big-endian bytes of `v`.
fn push_be32(out: &mut Vec<u8>, v: u32)
    ensures
        final(out)@ == old(out)@ + be32(v),
{
    out.push((v / 0x100_0000) as u8);
    out.push((v / 0x1_0000 % 0x100) as u8);
    out.push((v / 0x100 % 0x100) as u8);
    out.push((v % 0x100) as u8);
    assert(final(out)@ =~= old(out)@ + be32(v));
}

/// Appends the device name.
fn push_name(out: &mut Vec<u8>)
    ensures
        final(out)@ == old(out)@ + name_bytes(),
{
    out.push(0x6c);
    out.push(0x6f);
    out.push(0x67);
    out.push(0x69);
    out.push(0x63);
    out.push(0x61);
    out.push(0x6c);
    out.push(0x72);
    out.push(0x75);
    out.push(0x73);
    out.push(0x74);
    assert(final(out)@ =~= old(out)@ + name_bytes());
}

/// The reply to a metadata request.
pub fn metadata_reply() -> (r: Vec<u8>)
    ensures
        r@ == metadata_bytes(),
{
    let mut r: Vec<u8> = Vec::new();
    r.push(Meta::NAME);
    push_name(&mut r);
    r.push(Meta::END);
    r.push(Meta::SAMPLE_MEMORY);
    push_be32(&mut r, Sampler::SAMPLE_MEMORY as u32);
    r.push(Meta::DYNAMIC_MEMORY);
    push_be32(&mut r, 0);
    r.push(Meta::MAX_SAMPLERATE);
    push_be32(&mut r, Sampler::MAX_SAMPLERATE as u32);
    r.push(Meta::NUM_PROBES);
    r.push(NUM_PROBES);
    r.push(Meta::PROTOCOL_VERSION);
    r.push(PROTOCOL_VERSION);
    r.push(Meta::END);
    assert(r@ =~= metadata_bytes());
    r
}

/// The metadata record ends with the end tag and carries the sample-memory
/// tag followed by 100000 in big-endian order.
pub proof fn lemma_metadata_shape()
    ensures
        metadata_bytes().last() == 0x00,
        exists|k: int|
            0 <= k && k + 5 <= metadata_bytes().len() && #[trigger] metadata_bytes().subrange(
                k,
                k + 5,
            ) == seq![0x21u8, 0x00u8, 0x01u8, 0x86u8, 0xA0u8],
{
    let k: int = 13;
    assert(metadata_bytes().subrange(k, k + 5) =~= seq![0x21u8, 0x00u8, 0x01u8, 0x86u8, 0xA0u8]);
}

/// The identification reply is exactly the four bytes `1ALS`.
pub proof fn lemma_id_bytes()
    ensures
        id_bytes().len() == 4,
        id_bytes() == seq![0x31u8, 0x41u8, 0x4Cu8, 0x53u8],
{
}

} // verus!
