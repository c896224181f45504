use crate::errors::Error;
use vstd::prelude::*;

verus! {

/// Largest encoding symbol id plus one: the id travels in a 24-bit field.
pub const MAX_ENCODING_SYMBOL_ID: u32 = 16777216;

/// Identifies one encoding symbol of one source block on the wire:
/// a source block number and a 24-bit encoding symbol id, carried in
/// four bytes, big-endian, block number first.
#[derive(Clone, Copy, Debug, PartialEq, Eq, Structural)]
pub struct PayloadId {
    source_block_number: u8,
    encoding_symbol_id: u32,
}

impl PayloadId {
    /// The source block number as a mathematical value.
    pub closed spec fn spec_source_block_number(&self) -> u8 {
        self.source_block_number
    }

    /// The encoding symbol id as a mathematical value.
    pub closed spec fn spec_encoding_symbol_id(&self) -> u32 {
        self.encoding_symbol_id
    }

    /// A well-formed identifier keeps its symbol id inside the 24-bit
    /// wire field; every constructor establishes this.
    pub open spec fn wf(&self) -> bool {
        self.spec_encoding_symbol_id() < MAX_ENCODING_SYMBOL_ID
    }

    /// The four wire bytes of this identifier.
    pub open spec fn spec_serialize(&self) -> Seq<u8> {
        seq![
            self.spec_source_block_number(),
            (self.spec_encoding_symbol_id() >> 16) as u8,
            (self.spec_encoding_symbol_id() >> 8) as u8,
            self.spec_encoding_symbol_id() as u8,
        ]
    }

    /// The identifier encoded by four wire bytes.
    pub closed spec fn spec_deserialize(data: Seq<u8>) -> PayloadId
        recommends
            data.len() == 4,
    {
        PayloadId {
            source_block_number: data[0],
            encoding_symbol_id: (((data[1] as u32) << 16) + ((data[2] as u32) << 8) + (
            data[3] as u32)) as u32,
        }
    }

    /// Builds an identifier, rejecting a symbol id that does not fit the
    /// 24-bit wire field.
    pub fn new(source_block_number: u8, encoding_symbol_id: u32) -> (r: Result<PayloadId, Error>)
        ensures
            r is Ok <==> encoding_symbol_id < MAX_ENCODING_SYMBOL_ID,
            r matches Ok(p) ==> p.spec_source_block_number() == source_block_number
                && p.spec_encoding_symbol_id() == encoding_symbol_id && p.wf(),
            r matches Err(e) ==> e == Error::SymbolIdTooLarge,
    {
        if encoding_symbol_id >= MAX_ENCODING_SYMBOL_ID {
            return Err(Error::SymbolIdTooLarge);
        }
        Ok(PayloadId { source_block_number, encoding_symbol_id })
    }

    /// Decodes four wire bytes; total over any input, since the 24-bit
    /// field cannot overflow its three bytes.
    pub fn deserialize(data: &[u8; 4]) -> (r: PayloadId)
        ensures
            r == PayloadId::spec_deserialize(data@),
            r.spec_source_block_number() == data@[0],
            r.spec_encoding_symbol_id() == ((data@[1] as u32) << 16) + ((data@[2] as u32) << 8) + (
            data@[3] as u32),
            r.wf(),
    {
        let b1 = data[1];
        let b2 = data[2];
        let b3 = data[3];
        proof {
            assert(((b1 as u32) << 16) + ((b2 as u32) << 8) + (b3 as u32)
                < MAX_ENCODING_SYMBOL_ID) by (bit_vector);
        }
        PayloadId {
            source_block_number: data[0],
            encoding_symbol_id: ((b1 as u32) << 16) + ((b2 as u32) << 8) + (b3 as u32),
        }
    }

    /// Encodes this identifier into its four wire bytes.
    pub fn serialize(&self) -> (r: [u8; 4])
        ensures
            r@ == self.spec_serialize(),
    {
        let r: [u8; 4] = [
            self.source_block_number,
            (self.encoding_symbol_id >> 16) as u8,
            (self.encoding_symbol_id >> 8) as u8,
            self.encoding_symbol_id as u8,
        ];
        proof {
            assert(r@ =~= self.spec_serialize());
        }
        r
    }

    /// The source block number.
    #[verifier::when_used_as_spec(spec_source_block_number)]
    pub fn source_block_number(&self) -> (r: u8)
        ensures
            r == self.spec_source_block_number(),
    {
        self.source_block_number
    }

    /// The encoding symbol id.
    #[verifier::when_used_as_spec(spec_encoding_symbol_id)]
    pub fn encoding_symbol_id(&self) -> (r: u32)
        ensures
            r == self.spec_encoding_symbol_id(),
    {
        self.encoding_symbol_id
    }
}

/// A transmittable unit: one payload identifier followed by the raw
/// bytes of one encoding symbol.  The payload length is not validated
/// here; transport framing carries it implicitly.
#[derive(Clone, Debug, PartialEq)]
pub struct EncodingPacket {
    payload_id: PayloadId,
    data: Vec<u8>,
}

impl EncodingPacket {
    /// The payload identifier as a mathematical value.
    pub closed spec fn spec_payload_id(&self) -> PayloadId {
        self.payload_id
    }

    /// The payload bytes as a mathematical sequence.
    pub closed spec fn spec_data(&self) -> Seq<u8> {
        self.data@
    }

    /// A packet is well formed when its identifier is.
    pub open spec fn wf(&self) -> bool {
        self.spec_payload_id().wf()
    }

    /// The wire bytes of this packet: the identifier's four bytes, then
    /// the payload, with no length prefix.
    pub open spec fn spec_serialize(&self) -> Seq<u8> {
        self.spec_payload_id().spec_serialize() + self.spec_data()
    }

    /// Wraps one identifier and one payload; nothing is validated.
    pub fn new(payload_id: PayloadId, data: Vec<u8>) -> (r: EncodingPacket)
        ensures
            r.spec_payload_id() == payload_id,
            r.spec_data() == data@,
    {
        EncodingPacket { payload_id, data }
    }

    /// Decodes a packet: the first four bytes name the symbol, the rest
    /// is its payload.  The input must hold at least the four identifier
    /// bytes; external framing guarantees this.
    pub fn deserialize(data: &[u8]) -> (r: EncodingPacket)
        requires
            data@.len() >= 4,
        ensures
            r.spec_payload_id() == PayloadId::spec_deserialize(data@.subrange(0, 4)),
            r.spec_data() == data@.skip(4),
            r.wf(),
    {
        let header: [u8; 4] = [data[0], data[1], data[2], data[3]];
        proof {
            assert(header@ =~= data@.subrange(0, 4));
        }
        let payload_id = PayloadId::deserialize(&header);
        let mut rest: Vec<u8> = Vec::new();
        let mut k: usize = 4;
        while k < data.len()
            invariant
                4 <= k <= data@.len(),
                rest@ == data@.subrange(4, k as int),
            decreases data@.len() - k,
        {
            rest.push(data[k]);
            proof {
                assert(rest@ =~= data@.subrange(4, k + 1));
            }
            k = k + 1;
        }
        proof {
            assert(rest@ =~= data@.skip(4));
        }
        EncodingPacket { payload_id, data: rest }
    }

    /// Encodes this packet into its wire bytes.
    pub fn serialize(&self) -> (r: Vec<u8>)
        ensures
            r@ == self.spec_serialize(),
    {
        let header = self.payload_id.serialize();
        let mut out: Vec<u8> = Vec::new();
        out.push(header[0]);
        out.push(header[1]);
        out.push(header[2]);
        out.push(header[3]);
        proof {
            assert(out@ =~= self.spec_payload_id().spec_serialize());
        }
        let mut k: usize = 0;
        while k < self.data.len()
            invariant
                0 <= k <= self.data@.len(),
                out@ == self.spec_payload_id().spec_serialize() + self.spec_data().subrange(
                    0,
                    k as int,
                ),
            decreases self.data@.len() - k,
        {
            out.push(self.data[k]);
            proof {
                assert(out@ =~= self.spec_payload_id().spec_serialize()
                    + self.spec_data().subrange(0, k + 1));
            }
            k = k + 1;
        }
        proof {
            assert(out@ =~= self.spec_serialize());
        }
        out
    }

    /// A copy of the payload identifier.
    pub fn payload_id(&self) -> (r: PayloadId)
        ensures
            r == self.spec_payload_id(),
    {
        self.payload_id.clone()
    }

    /// The payload bytes.
    pub fn data(&self) -> (r: &Vec<u8>)
        ensures
            r@ == self.spec_data(),
    {
        &self.data
    }
}

/// Round trip: decoding the four bytes that a well-formed identifier
/// encodes to yields that identifier again.
pub proof fn lemma_payload_id_round_trip(p: PayloadId)
    requires
        p.wf(),
    ensures
        PayloadId::spec_deserialize(p.spec_serialize()) == p,
{
    let esi = p.spec_encoding_symbol_id();
    assert((((esi >> 16) as u8 as u32) << 16) + (((esi >> 8) as u8 as u32) << 8) + (
    esi as u8 as u32) == esi) by (bit_vector)
        requires
            esi < 16777216u32,
    ;
}

/// Round trip: the wire bytes of a well-formed packet decode to the
/// same identifier and the same payload, split at byte four.
pub proof fn lemma_encoding_packet_round_trip(p: EncodingPacket)
    requires
        p.wf(),
    ensures
        PayloadId::spec_deserialize(p.spec_serialize().subrange(0, 4)) == p.spec_payload_id(),
        p.spec_serialize().skip(4) == p.spec_data(),
{
    assert(p.spec_serialize().subrange(0, 4) =~= p.spec_payload_id().spec_serialize());
    lemma_payload_id_round_trip(p.spec_payload_id());
    assert(p.spec_serialize().skip(4) =~= p.spec_data());
}

} // verus!
