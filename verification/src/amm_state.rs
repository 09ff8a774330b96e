//! Persisted pool state of the return/fixed-fee schema: a 412-byte record,
//! one leading version byte followed by a 411-byte version-1 body laid out
//! at fixed offsets.
//!
//! This schema carries the market-making context (AMM id, order-book
//! program and market ids) and two fixed fee accounts beside the fields the
//! single-trade-fee schema has; the two wire formats are not
//! interchangeable.

use vstd::prelude::*;

use vstd::bytes::spec_u64_from_le_bytes;
use vstd::slice::{slice_index_get, slice_subrange};

use crate::amm_fees::{lemma_fees_round_trip, spec_fees_bytes, Fees};
use crate::base::{
    lemma_swap_curve_round_trip, spec_curve_type_u8, spec_swap_curve_bytes, SwapCurve,
};
use crate::calculator::CurveCalculator;
use crate::codec::{read_key, write_key};
use crate::error::SwapError;

verus! {

/// Version-1 pool state of the return/fixed-fee schema.
#[derive(Clone, Copy, Debug, Default, PartialEq)]
pub struct SwapV1 {
    /// Whether the pool has been initialized.
    pub is_initialized: bool,
    /// Bump seed of the pool authority address.
    pub nonce: u8,
    /// Identity of this AMM account.
    pub amm_id: [u8; 32],
    /// Identity of the order-book program the pool trades against.
    pub dex_program_id: [u8; 32],
    /// Identity of the order-book market.
    pub market_id: [u8; 32],
    /// Identity of the token program the pool works through.
    pub token_program_id: [u8; 32],
    /// Identity of the token A liquidity account.
    pub token_a: [u8; 32],
    /// Identity of the token B liquidity account.
    pub token_b: [u8; 32],
    /// Identity of the pool token mint.
    pub pool_mint: [u8; 32],
    /// Identity of the token A mint.
    pub token_a_mint: [u8; 32],
    /// Identity of the token B mint.
    pub token_b_mint: [u8; 32],
    /// Identity of the token A account collecting fixed fees.
    pub fixed_fee_account_a: [u8; 32],
    /// Identity of the token B account collecting fixed fees.
    pub fixed_fee_account_b: [u8; 32],
    /// The pool's fee schedule.
    pub fees: Fees,
    /// The pool's pricing curve.
    pub swap_curve: SwapCurve,
}

/// The 411-byte body of a version-1 record.
pub open spec fn spec_v1_bytes(s: SwapV1) -> Seq<u8> {
    seq![
        if s.is_initialized {
            1u8
        } else {
            0u8
        },
        s.nonce,
    ] + s.amm_id@ + s.dex_program_id@ + s.market_id@ + s.token_program_id@ + s.token_a@
        + s.token_b@ + s.pool_mint@ + s.token_a_mint@ + s.token_b_mint@ + s.fixed_fee_account_a@
        + s.fixed_fee_account_b@ + spec_fees_bytes(s.fees) + spec_swap_curve_bytes(s.swap_curve)
}

/// The field equations a decoded record satisfies against its 411-byte
/// source (the curve's padding bytes carry no information).
pub open spec fn spec_v1_fields(s: Seq<u8>, v: SwapV1) -> bool {
    &&& v.is_initialized == (s[0] == 1)
    &&& v.nonce == s[1]
    &&& v.amm_id@ == s.subrange(2, 34)
    &&& v.dex_program_id@ == s.subrange(34, 66)
    &&& v.market_id@ == s.subrange(66, 98)
    &&& v.token_program_id@ == s.subrange(98, 130)
    &&& v.token_a@ == s.subrange(130, 162)
    &&& v.token_b@ == s.subrange(162, 194)
    &&& v.pool_mint@ == s.subrange(194, 226)
    &&& v.token_a_mint@ == s.subrange(226, 258)
    &&& v.token_b_mint@ == s.subrange(258, 290)
    &&& v.fixed_fee_account_a@ == s.subrange(290, 322)
    &&& v.fixed_fee_account_b@ == s.subrange(322, 354)
    &&& v.fees.return_fee_numerator == spec_u64_from_le_bytes(s.subrange(354, 362))
    &&& v.fees.fixed_fee_numerator == spec_u64_from_le_bytes(s.subrange(362, 370))
    &&& v.fees.fee_denominator == spec_u64_from_le_bytes(s.subrange(370, 378))
    &&& spec_curve_type_u8(v.swap_curve.curve_type) == s[378]
    &&& match v.swap_curve.calculator {
        CurveCalculator::ConstantProduct(_) => true,
        CurveCalculator::ConstantPrice(p) => p.token_b_price == spec_u64_from_le_bytes(
            s.subrange(379, 387),
        ),
        CurveCalculator::Stable(st) => st.amp == spec_u64_from_le_bytes(s.subrange(379, 387)),
        CurveCalculator::Offset(o) => o.token_b_offset == spec_u64_from_le_bytes(
            s.subrange(379, 387),
        ),
    }
}

impl SwapV1 {
    /// Length of the version-1 body on the wire.
    pub const LEN: usize = 411;

    /// The curve tag agrees with the calculator variant.
    pub open spec fn wf(self) -> bool {
        self.swap_curve.wf()
    }

    /// Appends the 411-byte body.
    pub fn pack_into_slice(&self, output: &mut Vec<u8>)
        ensures
            final(output)@ == old(output)@ + spec_v1_bytes(*self),
    {
        output.push(if self.is_initialized {
            1
        } else {
            0
        });
        output.push(self.nonce);
        write_key(output, &self.amm_id);
        write_key(output, &self.dex_program_id);
        write_key(output, &self.market_id);
        write_key(output, &self.token_program_id);
        write_key(output, &self.token_a);
        write_key(output, &self.token_b);
        write_key(output, &self.pool_mint);
        write_key(output, &self.token_a_mint);
        write_key(output, &self.token_b_mint);
        write_key(output, &self.fixed_fee_account_a);
        write_key(output, &self.fixed_fee_account_b);
        self.fees.pack_into_slice(output);
        self.swap_curve.pack_into_slice(output);
        proof {
            assert(output@ =~= old(output)@ + spec_v1_bytes(*self));
        }
    }

    /// Reads a version-1 body from the first 411 bytes of `input`.  Fails
    /// exactly on a flag byte or curve tag the encoder never writes.
    pub fn unpack_from_slice(input: &[u8]) -> (r: Result<SwapV1, SwapError>)
        requires
            input@.len() >= 411,
        ensures
            r is Ok <==> (input@[0] == 0 || input@[0] == 1) && input@[378] <= 3,
            r matches Err(e) ==> e == SwapError::InvalidAccountData,
            r matches Ok(v) ==> spec_v1_fields(input@, v) && v.wf(),
    {
        let flag = *slice_index_get(input, 0);
        let is_initialized = match flag {
            0 => false,
            1 => true,
            _ => {
                return Err(SwapError::InvalidAccountData);
            },
        };
        let curve_slice = slice_subrange(input, 378, 411);
        proof {
            assert(curve_slice@.subrange(1, 9) =~= input@.subrange(379, 387));
        }
        let swap_curve = SwapCurve::unpack_from_slice(curve_slice)?;
        let fees_slice = slice_subrange(input, 354, 378);
        proof {
            assert(fees_slice@.subrange(0, 8) =~= input@.subrange(354, 362));
            assert(fees_slice@.subrange(8, 16) =~= input@.subrange(362, 370));
            assert(fees_slice@.subrange(16, 24) =~= input@.subrange(370, 378));
        }
        let fees = Fees::unpack_from_slice(fees_slice);
        Ok(
            SwapV1 {
                is_initialized,
                nonce: *slice_index_get(input, 1),
                amm_id: read_key(input, 2),
                dex_program_id: read_key(input, 34),
                market_id: read_key(input, 66),
                token_program_id: read_key(input, 98),
                token_a: read_key(input, 130),
                token_b: read_key(input, 162),
                pool_mint: read_key(input, 194),
                token_a_mint: read_key(input, 226),
                token_b_mint: read_key(input, 258),
                fixed_fee_account_a: read_key(input, 290),
                fixed_fee_account_b: read_key(input, 322),
                fees,
                swap_curve,
            },
        )
    }

    /// Reads a version-1 body from a buffer that must be exactly the
    /// declared length, without the initialization check.
    pub fn unpack_unchecked(input: &[u8]) -> (r: Result<SwapV1, SwapError>)
        ensures
            r is Ok <==> input@.len() == 411 && (input@[0] == 0 || input@[0] == 1) && input@[378]
                <= 3,
            r matches Err(e) ==> e == SwapError::InvalidAccountData,
            r matches Ok(v) ==> spec_v1_fields(input@, v) && v.wf(),
    {
        if input.len() != 411 {
            return Err(SwapError::InvalidAccountData);
        }
        SwapV1::unpack_from_slice(input)
    }

    /// Reads a version-1 body, demanding the exact length and an
    /// initialized record.
    pub fn unpack(input: &[u8]) -> (r: Result<SwapV1, SwapError>)
        ensures
            r is Ok <==> input@.len() == 411 && input@[0] == 1 && input@[378] <= 3,
            r matches Err(e) ==> if input@.len() == 411 && input@[0] == 0 && input@[378] <= 3 {
                e == SwapError::UninitializedAccount
            } else {
                e == SwapError::InvalidAccountData
            },
            r matches Ok(v) ==> spec_v1_fields(input@, v) && v.wf() && v.is_initialized,
    {
        let value = SwapV1::unpack_unchecked(input)?;
        if !value.is_initialized {
            return Err(SwapError::UninitializedAccount);
        }
        Ok(value)
    }
}

/// Round-trip law for the version-1 body: any record `w` that satisfies the
/// decoder's field equations against the encoding of `v` is `v` itself.
pub proof fn lemma_v1_round_trip(v: SwapV1, w: SwapV1, s: Seq<u8>)
    requires
        v.wf(),
        w.wf(),
        s == spec_v1_bytes(v),
        spec_v1_fields(s, w),
    ensures
        w == v,
{
    vstd::bytes::lemma_auto_spec_u64_to_from_le_bytes();
    assert(spec_fees_bytes(v.fees).len() == 24);
    assert(spec_swap_curve_bytes(v.swap_curve).len() == 33);
    assert(s.len() == 411);
    assert(s[0] == if v.is_initialized {
        1u8
    } else {
        0u8
    });
    assert(s[1] == v.nonce);
    assert(s.subrange(2, 34) =~= v.amm_id@);
    assert(s.subrange(34, 66) =~= v.dex_program_id@);
    assert(s.subrange(66, 98) =~= v.market_id@);
    assert(s.subrange(98, 130) =~= v.token_program_id@);
    assert(s.subrange(130, 162) =~= v.token_a@);
    assert(s.subrange(162, 194) =~= v.token_b@);
    assert(s.subrange(194, 226) =~= v.pool_mint@);
    assert(s.subrange(226, 258) =~= v.token_a_mint@);
    assert(s.subrange(258, 290) =~= v.token_b_mint@);
    assert(s.subrange(290, 322) =~= v.fixed_fee_account_a@);
    assert(s.subrange(322, 354) =~= v.fixed_fee_account_b@);
    assert(w.amm_id =~= v.amm_id);
    assert(w.dex_program_id =~= v.dex_program_id);
    assert(w.market_id =~= v.market_id);
    assert(w.token_program_id =~= v.token_program_id);
    assert(w.token_a =~= v.token_a);
    assert(w.token_b =~= v.token_b);
    assert(w.pool_mint =~= v.pool_mint);
    assert(w.token_a_mint =~= v.token_a_mint);
    assert(w.token_b_mint =~= v.token_b_mint);
    assert(w.fixed_fee_account_a =~= v.fixed_fee_account_a);
    assert(w.fixed_fee_account_b =~= v.fixed_fee_account_b);
    let fs = s.subrange(354, 378);
    assert(fs.subrange(0, 24) =~= fs);
    assert(fs =~= spec_fees_bytes(v.fees));
    lemma_fees_round_trip(v.fees, fs);
    assert(s.subrange(354, 362) =~= fs.subrange(0, 8));
    assert(s.subrange(362, 370) =~= fs.subrange(8, 16));
    assert(s.subrange(370, 378) =~= fs.subrange(16, 24));
    assert(w.fees == v.fees);
    let cs = s.subrange(378, 411);
    assert(cs.subrange(0, 33) =~= cs);
    assert(cs =~= spec_swap_curve_bytes(v.swap_curve));
    lemma_swap_curve_round_trip(v.swap_curve, cs);
    assert(s[378] == cs[0]);
    assert(s.subrange(379, 387) =~= cs.subrange(1, 9));
    assert(w.swap_curve.curve_type == v.swap_curve.curve_type);
    assert(w.swap_curve == v.swap_curve);
}

/// All versions of the persisted pool state.
#[derive(Debug)]
pub enum SwapVersion {
    /// The latest (and only) version.
    SwapV1(SwapV1),
}

/// The full wire form: the version byte, then the version's body.
pub open spec fn spec_version_bytes(v: SwapVersion) -> Seq<u8> {
    match v {
        SwapVersion::SwapV1(s) => seq![1u8] + spec_v1_bytes(s),
    }
}

impl SwapVersion {
    /// Length of the latest version on the wire, version byte included.
    pub const LATEST_LEN: usize = 412;

    /// Encodes a pool state, version byte first.
    pub fn pack(src: SwapVersion) -> (r: Vec<u8>)
        ensures
            r@ == spec_version_bytes(src),
            r@.len() == 412,
    {
        let mut out: Vec<u8> = Vec::new();
        match src {
            SwapVersion::SwapV1(v) => {
                out.push(1);
                v.pack_into_slice(&mut out);
                proof {
                    vstd::bytes::lemma_auto_spec_u64_to_from_le_bytes();
                    assert(spec_fees_bytes(v.fees).len() == 24);
                    assert(spec_swap_curve_bytes(v.swap_curve).len() == 33);
                }
            },
        }
        out
    }

    /// Decodes a pool state according to its leading version byte.  An
    /// empty buffer and a wrong-length version-1 buffer are data errors; an
    /// unknown version byte and an uninitialized record are uninitialized-
    /// account errors.
    pub fn unpack(input: &[u8]) -> (r: Result<SwapVersion, SwapError>)
        ensures
            r is Ok <==> input@.len() == 412 && input@[0] == 1 && input@[1] == 1 && input@[379]
                <= 3,
            r matches Err(e) ==> e == if input@.len() == 0 {
                SwapError::InvalidAccountData
            } else if input@[0] != 1 {
                SwapError::UninitializedAccount
            } else if input@.len() != 412 {
                SwapError::InvalidAccountData
            } else if !(input@[1] == 0 || input@[1] == 1) || input@[379] > 3 {
                SwapError::InvalidAccountData
            } else {
                SwapError::UninitializedAccount
            },
            r matches Ok(SwapVersion::SwapV1(v)) ==> spec_v1_fields(
                input@.subrange(1, 412),
                v,
            ) && v.wf() && v.is_initialized,
    {
        if input.is_empty() {
            return Err(SwapError::InvalidAccountData);
        }
        let version = *slice_index_get(input, 0);
        if version != 1 {
            return Err(SwapError::UninitializedAccount);
        }
        let n = input.len();
        if n != 412 {
            return Err(SwapError::InvalidAccountData);
        }
        let rest = slice_subrange(input, 1, 412);
        let v = SwapV1::unpack(rest)?;
        Ok(SwapVersion::SwapV1(v))
    }

    /// Round-trip law, version level: the encoding of an initialized,
    /// well-formed state satisfies every condition `unpack` checks, and any
    /// record satisfying the decoder's field equations against it is the
    /// state itself.  Together with the contracts of `pack` and `unpack`
    /// this gives `unpack(pack(state)) == Ok(state)`.
    pub proof fn lemma_round_trip(v: SwapV1, w: SwapV1)
        requires
            v.wf(),
            v.is_initialized,
            spec_v1_fields(spec_version_bytes(SwapVersion::SwapV1(v)).subrange(1, 412), w),
            w.wf(),
        ensures
            spec_version_bytes(SwapVersion::SwapV1(v)).len() == 412,
            spec_version_bytes(SwapVersion::SwapV1(v))[0] == 1,
            spec_version_bytes(SwapVersion::SwapV1(v))[1] == 1,
            spec_version_bytes(SwapVersion::SwapV1(v))[379] <= 3,
            w == v,
    {
        vstd::bytes::lemma_auto_spec_u64_to_from_le_bytes();
        let s = spec_version_bytes(SwapVersion::SwapV1(v));
        assert(spec_fees_bytes(v.fees).len() == 24);
        assert(spec_swap_curve_bytes(v.swap_curve).len() == 33);
        assert(s.len() == 412);
        let body = s.subrange(1, 412);
        assert(body =~= spec_v1_bytes(v));
        lemma_v1_round_trip(v, w, body);
        assert(s[379] == body[378]);
        assert(body[378] == spec_curve_type_u8(v.swap_curve.curve_type));
    }

    /// Probes arbitrary account bytes: `true` exactly when they decode to
    /// an initialized pool state, `false` on every decode failure.
    pub fn is_initialized(input: &[u8]) -> (r: bool)
        ensures
            r <==> input@.len() == 412 && input@[0] == 1 && input@[1] == 1 && input@[379] <= 3,
    {
        match SwapVersion::unpack(input) {
            Ok(_) => true,
            Err(_) => false,
        }
    }
}

} // verus!
