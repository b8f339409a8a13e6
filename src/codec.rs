use vstd::prelude::*;
use crate::types::Address;

verus! {

/// The lowercase hexadecimal digit of `n` (below sixteen).
pub open spec fn hex_digit(n: u8) -> char {
    seq!['0', '1', '2', '3', '4', '5', '6', '7', '8', '9', 'a', 'b', 'c', 'd', 'e', 'f'][n as int]
}

/// Bytes written as lowercase hexadecimal, two digits per byte, high digit first.
pub open spec fn hex_of(b: Seq<u8>) -> Seq<char>
    decreases b.len(),
{
    if b.len() == 0 {
        Seq::empty()
    } else {
        hex_of(b.drop_last()) + seq![hex_digit(b.last() / 16), hex_digit(b.last() % 16)]
    }
}

/// The Keccak-256 digest of `data`.
pub uninterp spec fn keccak_of(data: Seq<u8>) -> Seq<u8>;

/// Relies on hex::encode: each byte becomes two lowercase hexadecimal digits,
/// in order.
#[verifier::external_body]
pub(crate) fn to_hex(b: &Vec<u8>) -> (r: String)
    ensures
        r@ == hex_of(b@),
{
    hex::encode(b)
}

/// Relies on alloy_primitives::keccak256: the 32-byte Keccak-256 digest of the
/// input, which depends on the input alone.
#[verifier::external_body]
pub(crate) fn keccak(data: &[u8]) -> (r: Vec<u8>)
    ensures
        r@ == keccak_of(data@),
        r@.len() == 32,
{
    alloy_primitives::keccak256(data).to_vec()
}

/// The token path of the parameters of a `swapExactETHForTokens` call
/// (`uint256, address[], address, uint256`), or `None` when they do not decode.
pub uninterp spec fn swap_path_of(params: Seq<u8>) -> Option<Seq<Address>>;

/// Relies on alloy_sol_types' `SolValue::abi_decode_params` for the tuple
/// `(uint256, address[], address, uint256)`: the addresses of the array, in
/// order, or `None` when the data does not decode.
#[verifier::external_body]
pub(crate) fn decode_swap_path(params: &[u8]) -> (r: Option<Vec<Address>>)
    ensures
        r matches Some(p) ==> swap_path_of(params@) == Some(p@),
        r is None ==> swap_path_of(params@) is None,
{
    let (_, path, _, _) = <(
        alloy_primitives::U256,
        Vec<alloy_primitives::Address>,
        alloy_primitives::Address,
        alloy_primitives::U256,
    ) as alloy_sol_types::SolValue>::abi_decode_params(params).ok()?;
    Some(path.iter().map(|a| Address {
        hi: u128::from_be_bytes(a.0[..16].try_into().unwrap()),
        lo: u32::from_be_bytes(a.0[16..].try_into().unwrap()),
    }).collect())
}

/// The byte `k` (0 to 15, most significant first) of `x`.
pub open spec fn u128_byte(x: u128, k: int) -> u8 {
    ((x >> (((15 - k) * 8) as u128)) & 0xff) as u8
}

/// The byte `k` (0 to 3, most significant first) of `x`.
pub open spec fn u32_byte(x: u32, k: int) -> u8 {
    ((x >> (((3 - k) * 8) as u32)) & 0xff) as u8
}

/// The twenty bytes of an address.
pub open spec fn address_bytes(a: Address) -> Seq<u8> {
    Seq::new(16, |k: int| u128_byte(a.hi, k)) + Seq::new(4, |k: int| u32_byte(a.lo, k))
}

/// An address as a 32-byte ABI word: left-padded with zeros.
pub open spec fn address_word(a: Address) -> Seq<u8> {
    Seq::new(12, |k: int| 0u8) + address_bytes(a)
}

/// An unsigned amount as a 32-byte ABI word (big-endian).
pub open spec fn amount_word(x: u128) -> Seq<u8> {
    Seq::new(16, |k: int| 0u8) + Seq::new(16, |k: int| u128_byte(x, k))
}

/// The four-byte selector of the function with the given signature.
pub open spec fn selector_of(signature: Seq<u8>) -> Seq<u8> {
    keccak_of(signature).subrange(0, 4)
}

/// Appends `n` zero bytes.
fn push_zeros(out: &mut Vec<u8>, n: usize)
    ensures
        final(out)@ == old(out)@ + Seq::new(n as nat, |k: int| 0u8),
{
    let mut i: usize = 0;
    while i < n
        invariant
            i <= n,
            out@ == old(out)@ + Seq::new(i as nat, |k: int| 0u8),
        decreases n - i,
    {
        out.push(0u8);
        i = i + 1;
        proof {
            assert(out@ =~= old(out)@ + Seq::new(i as nat, |k: int| 0u8));
        }
    }
}

/// Appends the sixteen bytes of `x`, most significant first.
fn push_u128(out: &mut Vec<u8>, x: u128)
    ensures
        final(out)@ == old(out)@ + Seq::new(16, |k: int| u128_byte(x, k)),
{
    let mut k: usize = 0;
    while k < 16
        invariant
            k <= 16,
            out@ == old(out)@ + Seq::new(k as nat, |j: int| u128_byte(x, j)),
        decreases 16 - k,
    {
        let b = ((x >> (((15 - k) * 8) as u128)) & 0xff) as u8;
        assert(b == u128_byte(x, k as int));
        out.push(b);
        k = k + 1;
        proof {
            assert(out@ =~= old(out)@ + Seq::new(k as nat, |j: int| u128_byte(x, j)));
        }
    }
}

/// Appends the four bytes of `x`, most significant first.
fn push_u32(out: &mut Vec<u8>, x: u32)
    ensures
        final(out)@ == old(out)@ + Seq::new(4, |k: int| u32_byte(x, k)),
{
    let mut k: usize = 0;
    while k < 4
        invariant
            k <= 4,
            out@ == old(out)@ + Seq::new(k as nat, |j: int| u32_byte(x, j)),
        decreases 4 - k,
    {
        let b = ((x >> (((3 - k) * 8) as u32)) & 0xff) as u8;
        assert(b == u32_byte(x, k as int));
        out.push(b);
        k = k + 1;
        proof {
            assert(out@ =~= old(out)@ + Seq::new(k as nat, |j: int| u32_byte(x, j)));
        }
    }
}

/// Appends an address as an ABI word.
pub fn push_address_word(out: &mut Vec<u8>, a: Address)
    ensures
        final(out)@ == old(out)@ + address_word(a),
{
    push_zeros(out, 12);
    push_u128(out, a.hi);
    push_u32(out, a.lo);
    proof {
        assert(final(out)@ =~= old(out)@ + address_word(a));
    }
}

/// Appends an amount as an ABI word.
pub fn push_amount_word(out: &mut Vec<u8>, x: u128)
    ensures
        final(out)@ == old(out)@ + amount_word(x),
{
    push_zeros(out, 16);
    push_u128(out, x);
    proof {
        assert(final(out)@ =~= old(out)@ + amount_word(x));
    }
}

/// Appends the selector of the function with the given signature.
pub fn push_selector(out: &mut Vec<u8>, signature: &[u8])
    ensures
        final(out)@ == old(out)@ + selector_of(signature@),
        selector_of(signature@).len() == 4,
{
    let h = keccak(signature);
    let mut i: usize = 0;
    while i < 4
        invariant
            i <= 4,
            h@ == keccak_of(signature@),
            h@.len() == 32,
            out@ == old(out)@ + h@.subrange(0, i as int),
        decreases 4 - i,
    {
        out.push(h[i]);
        i = i + 1;
        proof {
            assert(out@ =~= old(out)@ + h@.subrange(0, i as int));
        }
    }
}

} // verus!
