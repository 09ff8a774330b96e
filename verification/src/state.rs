//! Persisted pool state of the single-trade-fee schema: a 324-byte record,
//! one leading version byte followed by a 323-byte version-1 body laid out
//! at fixed offsets.
//!
//! Decoding demands the exact record length and rejects any byte the encoder
//! never writes; `is_initialized` downgrades every decode failure to `false`
//! so foreign account bytes can be probed without an error path.

use vstd::prelude::*;

use vstd::bytes::spec_u64_from_le_bytes;
use vstd::slice::{slice_index_get, slice_subrange};

use crate::base::{
    lemma_swap_curve_round_trip, spec_curve_type_u8, spec_swap_curve_bytes, SwapCurve,
};
use crate::calculator::CurveCalculator;
use crate::codec::{read_key, write_key, write_zeros, zero_bytes};
use crate::error::SwapError;
use crate::fees::{lemma_fees_round_trip, spec_fees_bytes, Fees};

verus! {

/// Version-1 pool state: identities, fee schedule and curve.
#[derive(Clone, Copy, Debug, Default, PartialEq)]
pub struct SwapV1 {
    /// Whether the pool has been initialized.
    pub is_initialized: bool,
    /// Bump seed of the pool authority address.
    pub nonce: u8,
    /// Identity of the token program the pool works through.
    pub token_program_id: [u8; 32],
    /// Identity of the token A liquidity account.
    pub token_a: [u8; 32],
    /// Identity of the token B liquidity account.
    pub token_b: [u8; 32],
    /// Identity of the pool token mint.
    pub pool_mint: [u8; 32],
    /// Identity of the token A mint.
    pub token_a_mint: [u8; 32],
    /// Identity of the token B mint.
    pub token_b_mint: [u8; 32],
    /// Identity of the account collecting pool fees.
    pub pool_fee_account: [u8; 32],
    /// The pool's fee schedule.
    pub fees: Fees,
    /// The pool's pricing curve.
    pub swap_curve: SwapCurve,
}

/// The 323-byte body of a version-1 record.
pub open spec fn spec_v1_bytes(s: SwapV1) -> Seq<u8> {
    seq![
        if s.is_initialized {
            1u8
        } else {
            0u8
        },
        s.nonce,
    ] + s.token_program_id@ + s.token_a@ + s.token_b@ + s.pool_mint@ + s.token_a_mint@
        + s.token_b_mint@ + s.pool_fee_account@ + spec_fees_bytes(s.fees) + zero_bytes(48)
        + spec_swap_curve_bytes(s.swap_curve)
}

/// The field equations a decoded record satisfies against its 323-byte
/// source (padding bytes carry no information and are not constrained).
pub open spec fn spec_v1_fields(s: Seq<u8>, v: SwapV1) -> bool {
    &&& v.is_initialized == (s[0] == 1)
    &&& v.nonce == s[1]
    &&& v.token_program_id@ == s.subrange(2, 34)
    &&& v.token_a@ == s.subrange(34, 66)
    &&& v.token_b@ == s.subrange(66, 98)
    &&& v.pool_mint@ == s.subrange(98, 130)
    &&& v.token_a_mint@ == s.subrange(130, 162)
    &&& v.token_b_mint@ == s.subrange(162, 194)
    &&& v.pool_fee_account@ == s.subrange(194, 226)
    &&& v.fees.trade_fee_numerator == spec_u64_from_le_bytes(s.subrange(226, 234))
    &&& v.fees.trade_fee_denominator == spec_u64_from_le_bytes(s.subrange(234, 242))
    &&& spec_curve_type_u8(v.swap_curve.curve_type) == s[290]
    &&& match v.swap_curve.calculator {
        CurveCalculator::ConstantProduct(_) => true,
        CurveCalculator::ConstantPrice(p) => p.token_b_price == spec_u64_from_le_bytes(
            s.subrange(291, 299),
        ),
        CurveCalculator::Stable(st) => st.amp == spec_u64_from_le_bytes(s.subrange(291, 299)),
        CurveCalculator::Offset(o) => o.token_b_offset == spec_u64_from_le_bytes(
            s.subrange(291, 299),
        ),
    }
}

impl SwapV1 {
    /// Length of the version-1 body on the wire.
    pub const LEN: usize = 323;

    /// The curve tag agrees with the calculator variant.
    pub open spec fn wf(self) -> bool {
        self.swap_curve.wf()
    }

    /// Appends the 323-byte body.
    pub fn pack_into_slice(&self, output: &mut Vec<u8>)
        ensures
            final(output)@ == old(output)@ + spec_v1_bytes(*self),
    {
        output.push(if self.is_initialized {
            1
        } else {
            0
        });
        output.push(self.nonce);
        write_key(output, &self.token_program_id);
        write_key(output, &self.token_a);
        write_key(output, &self.token_b);
        write_key(output, &self.pool_mint);
        write_key(output, &self.token_a_mint);
        write_key(output, &self.token_b_mint);
        write_key(output, &self.pool_fee_account);
        self.fees.pack_into_slice(output);
        write_zeros(output, 48);
        self.swap_curve.pack_into_slice(output);
        proof {
            assert(output@ =~= old(output)@ + spec_v1_bytes(*self));
        }
    }

    /// Reads a version-1 body from the first 323 bytes of `input`.  Fails
    /// exactly on a flag byte or curve tag the encoder never writes.
    pub fn unpack_from_slice(input: &[u8]) -> (r: Result<SwapV1, SwapError>)
        requires
            input@.len() >= 323,
        ensures
            r is Ok <==> (input@[0] == 0 || input@[0] == 1) && input@[290] <= 3,
            r matches Err(e) ==> e == SwapError::InvalidAccountData,
            r matches Ok(v) ==> spec_v1_fields(input@, v) && v.wf(),
    {
        let flag = *slice_index_get(input, 0);
        let is_initialized = match flag {
            0 => false,
            1 => true,
            _ => {
                return Err(SwapError::InvalidAccountData);
            },
        };
        let curve_slice = slice_subrange(input, 290, 323);
        proof {
            assert(curve_slice@.subrange(1, 9) =~= input@.subrange(291, 299));
        }
        let swap_curve = SwapCurve::unpack_from_slice(curve_slice)?;
        let fees_slice = slice_subrange(input, 226, 242);
        proof {
            assert(fees_slice@.subrange(0, 8) =~= input@.subrange(226, 234));
            assert(fees_slice@.subrange(8, 16) =~= input@.subrange(234, 242));
        }
        let fees = Fees::unpack_from_slice(fees_slice);
        Ok(
            SwapV1 {
                is_initialized,
                nonce: *slice_index_get(input, 1),
                token_program_id: read_key(input, 2),
                token_a: read_key(input, 34),
                token_b: read_key(input, 66),
                pool_mint: read_key(input, 98),
                token_a_mint: read_key(input, 130),
                token_b_mint: read_key(input, 162),
                pool_fee_account: read_key(input, 194),
                fees,
                swap_curve,
            },
        )
    }

    /// Reads a version-1 body from a buffer that must be exactly the
    /// declared length, without the initialization check.
    pub fn unpack_unchecked(input: &[u8]) -> (r: Result<SwapV1, SwapError>)
        ensures
            r is Ok <==> input@.len() == 323 && (input@[0] == 0 || input@[0] == 1) && input@[290]
                <= 3,
            r matches Err(e) ==> e == SwapError::InvalidAccountData,
            r matches Ok(v) ==> spec_v1_fields(input@, v) && v.wf(),
    {
        if input.len() != 323 {
            return Err(SwapError::InvalidAccountData);
        }
        SwapV1::unpack_from_slice(input)
    }

    /// Reads a version-1 body, demanding the exact length and an
    /// initialized record.
    pub fn unpack(input: &[u8]) -> (r: Result<SwapV1, SwapError>)
        ensures
            r is Ok <==> input@.len() == 323 && input@[0] == 1 && input@[290] <= 3,
            r matches Err(e) ==> if input@.len() == 323 && input@[0] == 0 && input@[290] <= 3 {
                e == SwapError::UninitializedAccount
            } else {
                e == SwapError::InvalidAccountData
            },
            r matches Ok(v) ==> spec_v1_fields(input@, v) && v.wf() && v.is_initialized,
    {
        let value = SwapV1::unpack_unchecked(input)?;
        if !value.is_initialized {
            return Err(SwapError::UninitializedAccount);
        }
        Ok(value)
    }
}

/// Round-trip law for the version-1 body: any record `w` that satisfies the
/// decoder's field equations against the encoding of `v` is `v` itself, so
/// decoding an encoded state gives the state back, field for field.
pub proof fn lemma_v1_round_trip(v: SwapV1, w: SwapV1, s: Seq<u8>)
    requires
        v.wf(),
        w.wf(),
        s == spec_v1_bytes(v),
        spec_v1_fields(s, w),
    ensures
        w == v,
{
    vstd::bytes::lemma_auto_spec_u64_to_from_le_bytes();
    assert(spec_fees_bytes(v.fees).len() == 16);
    assert(spec_swap_curve_bytes(v.swap_curve).len() == 33);
    assert(s.len() == 323);
    assert(s[0] == if v.is_initialized {
        1u8
    } else {
        0u8
    });
    assert(s[1] == v.nonce);
    assert(s.subrange(2, 34) =~= v.token_program_id@);
    assert(s.subrange(34, 66) =~= v.token_a@);
    assert(s.subrange(66, 98) =~= v.token_b@);
    assert(s.subrange(98, 130) =~= v.pool_mint@);
    assert(s.subrange(130, 162) =~= v.token_a_mint@);
    assert(s.subrange(162, 194) =~= v.token_b_mint@);
    assert(s.subrange(194, 226) =~= v.pool_fee_account@);
    assert(w.token_program_id =~= v.token_program_id);
    assert(w.token_a =~= v.token_a);
    assert(w.token_b =~= v.token_b);
    assert(w.pool_mint =~= v.pool_mint);
    assert(w.token_a_mint =~= v.token_a_mint);
    assert(w.token_b_mint =~= v.token_b_mint);
    assert(w.pool_fee_account =~= v.pool_fee_account);
    let fs = s.subrange(226, 242);
    assert(fs.subrange(0, 16) =~= fs);
    assert(fs =~= spec_fees_bytes(v.fees));
    lemma_fees_round_trip(v.fees, fs);
    assert(s.subrange(226, 234) =~= fs.subrange(0, 8));
    assert(s.subrange(234, 242) =~= fs.subrange(8, 16));
    assert(w.fees == v.fees);
    let cs = s.subrange(290, 323);
    assert(cs.subrange(0, 33) =~= cs);
    assert(cs =~= spec_swap_curve_bytes(v.swap_curve));
    lemma_swap_curve_round_trip(v.swap_curve, cs);
    assert(s[290] == cs[0]);
    assert(s.subrange(291, 299) =~= cs.subrange(1, 9));
    assert(w.swap_curve.curve_type == v.swap_curve.curve_type);
    assert(w.swap_curve == v.swap_curve);
}

/// All versions of the persisted pool state.
#[derive(Debug)]
pub enum SwapVersion {
    /// The latest (and only) version.
    SwapV1(SwapV1),
}

/// The full wire form: the version byte, then the version's body.
pub open spec fn spec_version_bytes(v: SwapVersion) -> Seq<u8> {
    match v {
        SwapVersion::SwapV1(s) => seq![1u8] + spec_v1_bytes(s),
    }
}

impl SwapVersion {
    /// Length of the latest version on the wire, version byte included.
    pub const LATEST_LEN: usize = 324;

    /// Encodes a pool state, version byte first.
    pub fn pack(src: SwapVersion) -> (r: Vec<u8>)
        ensures
            r@ == spec_version_bytes(src),
            r@.len() == 324,
    {
        let mut out: Vec<u8> = Vec::new();
        match src {
            SwapVersion::SwapV1(v) => {
                out.push(1);
                v.pack_into_slice(&mut out);
                proof {
                    vstd::bytes::lemma_auto_spec_u64_to_from_le_bytes();
                    assert(spec_fees_bytes(v.fees).len() == 16);
                    assert(spec_swap_curve_bytes(v.swap_curve).len() == 33);
                }
            },
        }
        out
    }

    /// Decodes a pool state according to its leading version byte.  An
    /// empty buffer and a wrong-length version-1 buffer are data errors; an
    /// unknown version byte and an uninitialized record are uninitialized-
    /// account errors.
    pub fn unpack(input: &[u8]) -> (r: Result<SwapVersion, SwapError>)
        ensures
            r is Ok <==> input@.len() == 324 && input@[0] == 1 && input@[1] == 1 && input@[291]
                <= 3,
            r matches Err(e) ==> e == if input@.len() == 0 {
                SwapError::InvalidAccountData
            } else if input@[0] != 1 {
                SwapError::UninitializedAccount
            } else if input@.len() != 324 {
                SwapError::InvalidAccountData
            } else if !(input@[1] == 0 || input@[1] == 1) || input@[291] > 3 {
                SwapError::InvalidAccountData
            } else {
                SwapError::UninitializedAccount
            },
            r matches Ok(SwapVersion::SwapV1(v)) ==> spec_v1_fields(
                input@.subrange(1, 324),
                v,
            ) && v.wf() && v.is_initialized,
    {
        if input.is_empty() {
            return Err(SwapError::InvalidAccountData);
        }
        let version = *slice_index_get(input, 0);
        if version != 1 {
            return Err(SwapError::UninitializedAccount);
        }
        let n = input.len();
        if n != 324 {
            return Err(SwapError::InvalidAccountData);
        }
        let rest = slice_subrange(input, 1, 324);
        let v = SwapV1::unpack(rest)?;
        Ok(SwapVersion::SwapV1(v))
    }

    /// Round-trip law, version level: the encoding of an initialized,
    /// well-formed state satisfies every condition `unpack` checks, and any
    /// record satisfying the decoder's field equations against it is the
    /// state itself.  Together with the contracts of `pack` and `unpack`
    /// this gives `unpack(pack(state)) == Ok(state)`.
    pub proof fn lemma_round_trip(v: SwapV1, w: SwapV1)
        requires
            v.wf(),
            v.is_initialized,
            spec_v1_fields(spec_version_bytes(SwapVersion::SwapV1(v)).subrange(1, 324), w),
            w.wf(),
        ensures
            spec_version_bytes(SwapVersion::SwapV1(v)).len() == 324,
            spec_version_bytes(SwapVersion::SwapV1(v))[0] == 1,
            spec_version_bytes(SwapVersion::SwapV1(v))[1] == 1,
            spec_version_bytes(SwapVersion::SwapV1(v))[291] <= 3,
            w == v,
    {
        vstd::bytes::lemma_auto_spec_u64_to_from_le_bytes();
        let s = spec_version_bytes(SwapVersion::SwapV1(v));
        assert(spec_fees_bytes(v.fees).len() == 16);
        assert(spec_swap_curve_bytes(v.swap_curve).len() == 33);
        assert(s.len() == 324);
        let body = s.subrange(1, 324);
        assert(body =~= spec_v1_bytes(v));
        lemma_v1_round_trip(v, w, body);
        assert(s[291] == body[290]);
        assert(body[290] == spec_curve_type_u8(v.swap_curve.curve_type));
    }

    /// Probes arbitrary account bytes: `true` exactly when they decode to
    /// an initialized pool state, `false` on every decode failure.
    pub fn is_initialized(input: &[u8]) -> (r: bool)
        ensures
            r <==> input@.len() == 324 && input@[0] == 1 && input@[1] == 1 && input@[291] <= 3,
    {
        match SwapVersion::unpack(input) {
            Ok(_) => true,
            Err(_) => false,
        }
    }
}

} // verus!
