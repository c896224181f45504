use crate::constants::SystematicConstants;
use crate::constants::SystematicRow;
use crate::constants::spec_kl;
use crate::errors::Error;
use crate::partition::ceil_div;
use vstd::prelude::*;

verus! {

/// Largest transfer length the 40-bit wire field may carry.
pub const MAX_TRANSFER_LENGTH: u64 = 946270874880;

/// Object Transmission Information: the parameter set an encoder and a
/// decoder must agree on for one object.  Twelve wire bytes: a 40-bit
/// transfer length, a reserved zero byte, the symbol size, the number
/// of source blocks, the number of sub-blocks, and the symbol
/// alignment, all big-endian.
#[derive(Clone, Copy, Debug, PartialEq, Eq, Structural)]
pub struct ObjectTransmissionInformation {
    transfer_length: u64,
    symbol_size: u16,
    num_source_blocks: u8,
    num_sub_blocks: u16,
    symbol_alignment: u8,
}

impl ObjectTransmissionInformation {
    /// The transfer length as a mathematical value.
    pub closed spec fn spec_transfer_length(&self) -> u64 {
        self.transfer_length
    }

    /// The symbol size as a mathematical value.
    pub closed spec fn spec_symbol_size(&self) -> u16 {
        self.symbol_size
    }

    /// The number of source blocks as a mathematical value.
    pub closed spec fn spec_source_blocks(&self) -> u8 {
        self.num_source_blocks
    }

    /// The number of sub-blocks as a mathematical value.
    pub closed spec fn spec_sub_blocks(&self) -> u16 {
        self.num_sub_blocks
    }

    /// The symbol alignment as a mathematical value.
    pub closed spec fn spec_symbol_alignment(&self) -> u8 {
        self.symbol_alignment
    }

    /// The invariants every constructed record satisfies: the transfer
    /// length fits the 40-bit wire ceiling and the symbol size is an
    /// exact multiple of the (positive) symbol alignment.
    pub open spec fn wf(&self) -> bool {
        &&& self.spec_transfer_length() <= MAX_TRANSFER_LENGTH
        &&& self.spec_symbol_alignment() >= 1
        &&& self.spec_symbol_size() as int % self.spec_symbol_alignment() as int == 0
    }

    /// The twelve wire bytes of this record; byte five is reserved and
    /// always zero.
    pub open spec fn spec_serialize(&self) -> Seq<u8> {
        seq![
            (self.spec_transfer_length() >> 32) as u8,
            (self.spec_transfer_length() >> 24) as u8,
            (self.spec_transfer_length() >> 16) as u8,
            (self.spec_transfer_length() >> 8) as u8,
            self.spec_transfer_length() as u8,
            0u8,
            (self.spec_symbol_size() >> 8) as u8,
            self.spec_symbol_size() as u8,
            self.spec_source_blocks(),
            (self.spec_sub_blocks() >> 8) as u8,
            self.spec_sub_blocks() as u8,
            self.spec_symbol_alignment(),
        ]
    }

    /// The record encoded by twelve wire bytes; the reserved byte is
    /// ignored.
    pub closed spec fn spec_deserialize(data: Seq<u8>) -> ObjectTransmissionInformation
        recommends
            data.len() == 12,
    {
        ObjectTransmissionInformation {
            transfer_length: (((data[0] as u64) << 32) + ((data[1] as u64) << 24) + ((
            data[2] as u64) << 16) + ((data[3] as u64) << 8) + (data[4] as u64)) as u64,
            symbol_size: (((data[6] as u16) << 8) + (data[7] as u16)) as u16,
            num_source_blocks: data[8],
            num_sub_blocks: (((data[9] as u16) << 8) + (data[10] as u16)) as u16,
            symbol_alignment: data[11],
        }
    }

    /// Builds a record from explicit values, rejecting a transfer length
    /// over the 40-bit ceiling and a symbol size that is not a multiple
    /// of the alignment.
    pub fn new(
        transfer_length: u64,
        symbol_size: u16,
        source_blocks: u8,
        sub_blocks: u16,
        alignment: u8,
    ) -> (r: Result<ObjectTransmissionInformation, Error>)
        requires
            alignment >= 1,
        ensures
            r is Ok <==> transfer_length <= MAX_TRANSFER_LENGTH && symbol_size as int
                % alignment as int == 0,
            r matches Ok(oti) ==> oti.spec_transfer_length() == transfer_length
                && oti.spec_symbol_size() == symbol_size && oti.spec_source_blocks()
                == source_blocks && oti.spec_sub_blocks() == sub_blocks
                && oti.spec_symbol_alignment() == alignment && oti.wf(),
            r matches Err(e) ==> (e == Error::TransferLengthTooLarge <==> transfer_length
                > MAX_TRANSFER_LENGTH) && (transfer_length <= MAX_TRANSFER_LENGTH ==> e
                == Error::SymbolSizeNotAligned),
    {
        if transfer_length > MAX_TRANSFER_LENGTH {
            return Err(Error::TransferLengthTooLarge);
        }
        if symbol_size % (alignment as u16) != 0 {
            return Err(Error::SymbolSizeNotAligned);
        }
        Ok(
            ObjectTransmissionInformation {
                transfer_length,
                symbol_size,
                num_source_blocks: source_blocks,
                num_sub_blocks: sub_blocks,
                symbol_alignment: alignment,
            },
        )
    }

    /// Decodes twelve wire bytes; total over any input.
    pub fn deserialize(data: &[u8; 12]) -> (r: ObjectTransmissionInformation)
        ensures
            r == ObjectTransmissionInformation::spec_deserialize(data@),
    {
        let t0 = data[0];
        let t1 = data[1];
        let t2 = data[2];
        let t3 = data[3];
        let t4 = data[4];
        proof {
            assert(((t0 as u64) << 32) + ((t1 as u64) << 24) + ((t2 as u64) << 16) + ((
            t3 as u64) << 8) + (t4 as u64) < 0x10000000000u64) by (bit_vector);
        }
        let s0 = data[6];
        let s1 = data[7];
        let n0 = data[9];
        let n1 = data[10];
        proof {
            assert(((s0 as u16) << 8) + (s1 as u16) <= 0xffffu16) by (bit_vector);
            assert(((n0 as u16) << 8) + (n1 as u16) <= 0xffffu16) by (bit_vector);
        }
        ObjectTransmissionInformation {
            transfer_length: ((t0 as u64) << 32) + ((t1 as u64) << 24) + ((t2 as u64) << 16) + ((
            t3 as u64) << 8) + (t4 as u64),
            symbol_size: ((s0 as u16) << 8) + (s1 as u16),
            num_source_blocks: data[8],
            num_sub_blocks: ((n0 as u16) << 8) + (n1 as u16),
            symbol_alignment: data[11],
        }
    }

    /// Encodes this record into its twelve wire bytes.
    pub fn serialize(&self) -> (r: [u8; 12])
        ensures
            r@ == self.spec_serialize(),
    {
        let r: [u8; 12] = [
            (self.transfer_length >> 32) as u8,
            (self.transfer_length >> 24) as u8,
            (self.transfer_length >> 16) as u8,
            (self.transfer_length >> 8) as u8,
            self.transfer_length as u8,
            0,
            (self.symbol_size >> 8) as u8,
            self.symbol_size as u8,
            self.num_source_blocks,
            (self.num_sub_blocks >> 8) as u8,
            self.num_sub_blocks as u8,
            self.symbol_alignment,
        ];
        proof {
            assert(r@ =~= self.spec_serialize());
        }
        r
    }

    /// The transfer length.
    #[verifier::when_used_as_spec(spec_transfer_length)]
    pub fn transfer_length(&self) -> (r: u64)
        ensures
            r == self.spec_transfer_length(),
    {
        self.transfer_length
    }

    /// The symbol size.
    #[verifier::when_used_as_spec(spec_symbol_size)]
    pub fn symbol_size(&self) -> (r: u16)
        ensures
            r == self.spec_symbol_size(),
    {
        self.symbol_size
    }

    /// The number of source blocks.
    #[verifier::when_used_as_spec(spec_source_blocks)]
    pub fn source_blocks(&self) -> (r: u8)
        ensures
            r == self.spec_source_blocks(),
    {
        self.num_source_blocks
    }

    /// The number of sub-blocks.
    #[verifier::when_used_as_spec(spec_sub_blocks)]
    pub fn sub_blocks(&self) -> (r: u16)
        ensures
            r == self.spec_sub_blocks(),
    {
        self.num_sub_blocks
    }

    /// The symbol alignment.
    #[verifier::when_used_as_spec(spec_symbol_alignment)]
    pub fn symbol_alignment(&self) -> (r: u8)
        ensures
            r == self.spec_symbol_alignment(),
    {
        self.symbol_alignment
    }
}

/// The per-block memory bound that `n` sub-blocks leave for a block's
/// symbol count: with a 10 MiB working-set ceiling, an alignment of
/// eight and sub-symbols of `ceil(symbol_size / (8 n))` bytes, a block
/// may carry at most this many source symbols.
pub open spec fn spec_kl_bound(symbol_size: int, n: int) -> int
    recommends
        symbol_size >= 8,
        n >= 1,
{
    10485760int / (8 * ceil_div(symbol_size, 8 * n))
}

/// The sub-block scan of the derivation: starting at `i`, the first
/// sub-block count whose memory bound admits `per_block` symbols, or
/// `n_max` when none does.  `None` marks the fatal case of a table
/// none of whose rows fits the bound at some step.
pub open spec fn spec_scan(
    rows: Seq<SystematicRow>,
    symbol_size: int,
    per_block: int,
    i: int,
    n_max: int,
) -> Option<int>
    recommends
        1 <= i <= n_max,
        symbol_size >= 64,
    decreases n_max - i,
{
    match spec_kl(rows, spec_kl_bound(symbol_size, i)) {
        None => None,
        Some(kl_i) => if per_block <= kl_i {
            Some(i)
        } else if i >= n_max {
            Some(n_max)
        } else {
            spec_scan(rows, symbol_size, per_block, i + 1, n_max)
        },
    }
}

/// The whole parameter derivation, as a mathematical function from the
/// systematic table, the transfer length and the packet-size ceiling
/// to either `(symbol_size, num_source_blocks, num_sub_blocks)` or the
/// error the derivation stops with.
pub open spec fn spec_derive(rows: Seq<SystematicRow>, transfer_length: u64, max_packet_size: u16)
    -> Result<(int, int, int), Error> {
    if max_packet_size < 8 {
        Err(Error::PacketSizeTooSmall)
    } else if transfer_length > MAX_TRANSFER_LENGTH {
        Err(Error::TransferLengthTooLarge)
    } else {
        let ss = max_packet_size - (max_packet_size % 8);
        let kt = ceil_div(transfer_length as int, ss as int);
        let n_max = ss as int / 64;
        if n_max < 1 {
            Err(Error::NoFittingRow)
        } else {
            match spec_kl(rows, spec_kl_bound(ss as int, n_max)) {
                None => Err(Error::NoFittingRow),
                Some(kl_max) => {
                    let nsb = ceil_div(kt, kl_max as int);
                    if nsb > 255 {
                        Err(Error::TooManySourceBlocks)
                    } else {
                        let per_block = if nsb == 0 {
                            0int
                        } else {
                            ceil_div(kt, nsb)
                        };
                        match spec_scan(rows, ss as int, per_block, 1, n_max) {
                            None => Err(Error::NoFittingRow),
                            Some(n) => Ok((ss as int, nsb, n)),
                        }
                    }
                },
            }
        }
    }
}

/// Evaluates the memory bound `spec_kl_bound` in machine integers.
fn kl_bound(symbol_size: u16, n: u16) -> (r: u64)
    requires
        symbol_size >= 8,
        n >= 1,
    ensures
        r == spec_kl_bound(symbol_size as int, n as int),
{
    let denom: u32 = 8 * (n as u32);
    let x: u32 = ((symbol_size as u32) + denom - 1) / denom;
    proof {
        assert(((symbol_size as u32) + denom - 1) as int / (denom as int) >= 1) by (nonlinear_arith)
            requires
                (symbol_size as u32) + denom - 1 >= denom,
                denom >= 1,
        ;
    }
    10485760u64 / (8u64 * (x as u64))
}

impl ObjectTransmissionInformation {
    /// Derives the transmission parameters a sender uses when none were
    /// negotiated: an alignment of eight, the largest aligned symbol
    /// size within `max_packet_size`, and the block and sub-block
    /// counts that the memory-bounded table scan of the specification
    /// selects.  The result is pinned to [`spec_derive`] over the
    /// supplied systematic table; the narrowing of the block count to
    /// its 8-bit wire field is checked, never wrapped.
    pub fn with_defaults(
        transfer_length: u64,
        max_packet_size: u16,
        constants: &SystematicConstants,
    ) -> (r: Result<ObjectTransmissionInformation, Error>)
        requires
            constants.wf(),
        ensures
            r is Ok <==> spec_derive(constants.spec_rows(), transfer_length, max_packet_size)
                is Ok,
            r matches Ok(oti) ==> {
                let t = spec_derive(constants.spec_rows(), transfer_length, max_packet_size)
                    ->Ok_0;
                &&& oti.spec_transfer_length() == transfer_length
                &&& oti.spec_symbol_size() == t.0
                &&& oti.spec_source_blocks() == t.1
                &&& oti.spec_sub_blocks() == t.2
                &&& oti.spec_symbol_alignment() == 8
                &&& oti.spec_symbol_size() as int % 8 == 0
                &&& oti.wf()
                &&& oti.spec_sub_blocks() >= 1
                &&& (oti.spec_source_blocks() >= 1 <==> transfer_length >= 1)
            },
            r matches Err(e) ==> e == spec_derive(
                constants.spec_rows(),
                transfer_length,
                max_packet_size,
            )->Err_0,
    {
        if max_packet_size < 8 {
            return Err(Error::PacketSizeTooSmall);
        }
        if transfer_length > MAX_TRANSFER_LENGTH {
            return Err(Error::TransferLengthTooLarge);
        }
        let symbol_size: u16 = max_packet_size - (max_packet_size % 8);
        proof {
            lemma_aligned_symbol_size(max_packet_size as int);
        }
        let ss64: u64 = symbol_size as u64;
        let kt: u64 = (transfer_length + ss64 - 1) / ss64;
        let n_max: u16 = symbol_size / 64;
        if n_max == 0 {
            return Err(Error::NoFittingRow);
        }
        let kl_max: u32 = match constants.kl(kl_bound(symbol_size, n_max)) {
            None => {
                return Err(Error::NoFittingRow);
            },
            Some(k) => k,
        };
        let nsb: u64 = (kt + (kl_max as u64) - 1) / (kl_max as u64);
        if nsb > 255 {
            return Err(Error::TooManySourceBlocks);
        }
        proof {
            if transfer_length == 0 {
                vstd::arithmetic::div_mod::lemma_basic_div(ss64 - 1, ss64 as int);
                assert(kt == 0);
                vstd::arithmetic::div_mod::lemma_basic_div(kl_max - 1, kl_max as int);
                assert(nsb == 0);
            }
            if transfer_length >= 1 {
                assert(kt >= 1) by (nonlinear_arith)
                    requires
                        kt == (transfer_length + ss64 - 1) as int / (ss64 as int),
                        transfer_length >= 1,
                        ss64 >= 8,
                ;
                assert(nsb >= 1) by (nonlinear_arith)
                    requires
                        nsb == (kt + kl_max - 1) as int / (kl_max as int),
                        kt >= 1,
                        kl_max >= 1,
                ;
            }
        }
        let per_block: u64 = if nsb == 0 {
            0
        } else {
            (kt + nsb - 1) / nsb
        };
        let ghost rows = constants.spec_rows();
        let ghost expect = spec_derive(rows, transfer_length, max_packet_size);
        let mut i: u16 = 1;
        loop
            invariant
                constants.wf(),
                rows == constants.spec_rows(),
                symbol_size == max_packet_size - (max_packet_size % 8),
                symbol_size as int % 8 == 0,
                symbol_size >= 64,
                transfer_length <= MAX_TRANSFER_LENGTH,
                kt == ceil_div(transfer_length as int, symbol_size as int),
                n_max == symbol_size as int / 64,
                n_max >= 1,
                0 <= nsb <= 255,
                per_block == if nsb == 0 {
                    0int
                } else {
                    ceil_div(kt as int, nsb as int)
                },
                transfer_length >= 1 ==> nsb >= 1,
                transfer_length == 0 ==> nsb == 0,
                1 <= i <= n_max,
                expect == spec_derive(rows, transfer_length, max_packet_size),
                expect == match spec_scan(rows, symbol_size as int, per_block as int, i as int,
                n_max as int) {
                    None => Err::<(int, int, int), Error>(Error::NoFittingRow),
                    Some(n) => Ok((symbol_size as int, nsb as int, n)),
                },
            decreases n_max - i,
        {
            let kl_i: u32 = match constants.kl(kl_bound(symbol_size, i)) {
                None => {
                    return Err(Error::NoFittingRow);
                },
                Some(k) => k,
            };
            if per_block <= kl_i as u64 {
                return Ok(
                    ObjectTransmissionInformation {
                        transfer_length,
                        symbol_size,
                        num_source_blocks: nsb as u8,
                        num_sub_blocks: i,
                        symbol_alignment: 8,
                    },
                );
            }
            if i >= n_max {
                return Ok(
                    ObjectTransmissionInformation {
                        transfer_length,
                        symbol_size,
                        num_source_blocks: nsb as u8,
                        num_sub_blocks: n_max,
                        symbol_alignment: 8,
                    },
                );
            }
            i = i + 1;
        }
    }
}

/// Stripping the remainder modulo eight leaves a multiple of eight.
proof fn lemma_aligned_symbol_size(mps: int)
    requires
        mps >= 8,
    ensures
        (mps - mps % 8) % 8 == 0,
        mps - mps % 8 >= 8,
{
    vstd::arithmetic::div_mod::lemma_fundamental_div_mod(mps, 8);
    vstd::arithmetic::div_mod::lemma_mod_division_less_than_divisor(mps, 8);
    let q = mps / 8;
    assert(mps - mps % 8 == 8 * q);
    vstd::arithmetic::div_mod::lemma_mod_multiples_basic(q, 8);
    assert(q * 8 == 8 * q) by (nonlinear_arith);
    assert(q >= 1) by (nonlinear_arith)
        requires
            8 * q == mps - mps % 8,
            mps >= 8,
            0 <= mps % 8 < 8,
    ;
}

/// Round trip: the twelve wire bytes of any record whose transfer
/// length fits the 40-bit field decode to that record again.  Every
/// constructed record satisfies the bound.
pub proof fn lemma_oti_round_trip(oti: ObjectTransmissionInformation)
    requires
        oti.spec_transfer_length() < 0x10000000000,
    ensures
        ObjectTransmissionInformation::spec_deserialize(oti.spec_serialize()) == oti,
{
    let tl = oti.spec_transfer_length();
    assert((((tl >> 32) as u8 as u64) << 32) + (((tl >> 24) as u8 as u64) << 24) + (((
    tl >> 16) as u8 as u64) << 16) + (((tl >> 8) as u8 as u64) << 8) + (tl as u8 as u64)
        == tl) by (bit_vector)
        requires
            tl < 0x10000000000u64,
    ;
    let ss = oti.spec_symbol_size();
    assert((((ss >> 8) as u8 as u16) << 8) + (ss as u8 as u16) == ss) by (bit_vector);
    let ns = oti.spec_sub_blocks();
    assert((((ns >> 8) as u8 as u16) << 8) + (ns as u8 as u16) == ns) by (bit_vector);
}

} // verus!
