//! Host-runtime primitives: account addresses, SHA-256 digests and
//! program-derived addresses.

use vstd::prelude::*;
use vstd::string::StringSliceAdditionalSpecFns;

verus! {

/// A 32-byte account address.
#[derive(Clone, Copy, Debug)]
pub struct Pubkey {
    pub bytes: [u8; 32],
}

impl Pubkey {
    pub fn new_from_array(bytes: [u8; 32]) -> (r: Pubkey)
        ensures
            r.bytes == bytes,
    {
        Pubkey { bytes }
    }

    pub fn to_bytes(&self) -> (r: [u8; 32])
        ensures
            r == self.bytes,
    {
        self.bytes
    }
}

/// Byte-wise equality of two 32-byte arrays.
pub fn bytes32_eq(a: &[u8; 32], b: &[u8; 32]) -> (r: bool)
    ensures
        r == (a@ == b@),
{
    let mut i: usize = 0;
    while i < 32
        invariant
            0 <= i <= 32,
            a@.len() == 32,
            b@.len() == 32,
            a@.subrange(0, i as int) == b@.subrange(0, i as int),
        decreases 32 - i,
    {
        if a[i] != b[i] {
            assert(a@[i as int] != b@[i as int]);
            return false;
        }
        assert(a@.subrange(0, i + 1) == a@.subrange(0, i as int).push(a@[i as int]));
        assert(b@.subrange(0, i + 1) == b@.subrange(0, i as int).push(b@[i as int]));
        i = i + 1;
    }
    assert(a@ == a@.subrange(0, 32));
    assert(b@ == b@.subrange(0, 32));
    true
}

impl PartialEq for Pubkey {
    fn eq(&self, other: &Pubkey) -> (r: bool) {
        bytes32_eq(&self.bytes, &other.bytes)
    }
}

impl vstd::std_specs::cmp::PartialEqSpecImpl for Pubkey {
    open spec fn obeys_eq_spec() -> bool {
        true
    }

    open spec fn eq_spec(&self, other: &Pubkey) -> bool {
        self.bytes@ == other.bytes@
    }
}

impl Eq for Pubkey {}

/// The bytes of a sequence of addresses, one after the other.
pub open spec fn key_bytes(keys: Seq<Pubkey>) -> Seq<u8>
    decreases keys.len(),
{
    if keys.len() == 0 {
        Seq::empty()
    } else {
        key_bytes(keys.drop_last()) + keys.last().bytes@
    }
}

/// Concatenates the bytes of `keys` in order.
pub fn concat_key_bytes(keys: &[Pubkey]) -> (r: Vec<u8>)
    ensures
        r@ == key_bytes(keys@),
{
    let mut out: Vec<u8> = Vec::new();
    let mut i: usize = 0;
    while i < keys.len()
        invariant
            0 <= i <= keys@.len(),
            out@ == key_bytes(keys@.subrange(0, i as int)),
        decreases keys@.len() - i,
    {
        let key = keys[i];
        let mut j: usize = 0;
        while j < 32
            invariant
                0 <= j <= 32,
                key.bytes@.len() == 32,
                out@ == key_bytes(keys@.subrange(0, i as int)) + key.bytes@.subrange(0, j as int),
            decreases 32 - j,
        {
            out.push(key.bytes[j]);
            assert(key.bytes@.subrange(0, j + 1) == key.bytes@.subrange(0, j as int).push(
                key.bytes@[j as int],
            ));
            j = j + 1;
        }
        assert(key.bytes@.subrange(0, 32) == key.bytes@);
        assert(keys@.subrange(0, i + 1).drop_last() == keys@.subrange(0, i as int));
        i = i + 1;
    }
    assert(keys@.subrange(0, keys@.len() as int) == keys@);
    out
}

/// The SHA-256 digest of a byte string.
pub uninterp spec fn sha256_digest(data: Seq<u8>) -> [u8; 32];

/// Relies on `solana_program::hash::hash`: the SHA-256 digest of `data`, which
/// depends on the bytes alone.
#[verifier::external_body]
pub(crate) fn sha256(data: &Vec<u8>) -> (r: [u8; 32])
    ensures
        r == sha256_digest(data@),
{
    anchor_lang::solana_program::hash::hash(data.as_slice()).to_bytes()
}

/// The views of a list of seeds.
pub open spec fn seed_views(seeds: Seq<Vec<u8>>) -> Seq<Seq<u8>> {
    seeds.map_values(|s: Vec<u8>| s@)
}

/// The program-derived address of `seeds` under `program_id`, with its bump
/// seed, or `None` where no bump seed gives an address off the curve.
pub uninterp spec fn program_address(seeds: Seq<Seq<u8>>, program_id: Seq<u8>) -> Option<([u8; 32], u8)>;

/// Relies on `Pubkey::try_find_program_address`: a deterministic search over
/// bump seeds that depends on the seeds and the program id alone, and returns
/// `None` instead of panicking.
#[verifier::external_body]
pub(crate) fn find_program_address(seeds: &Vec<Vec<u8>>, program_id: &Pubkey) -> (r: Option<(Pubkey, u8)>)
    ensures
        r matches Some((k, b)) ==> program_address(seed_views(seeds@), program_id.bytes@) == Some((k.bytes, b)),
        r is None ==> program_address(seed_views(seeds@), program_id.bytes@) is None,
{
    let refs: Vec<&[u8]> = seeds.iter().map(|s| s.as_slice()).collect();
    let id = anchor_lang::prelude::Pubkey::new_from_array(program_id.bytes);
    anchor_lang::prelude::Pubkey::try_find_program_address(&refs, &id).map(|(k, b)| (Pubkey { bytes: k.to_bytes() }, b))
}

/// Whether `r` is what the program-address search gives for `seeds` under `program_id`.
pub open spec fn is_program_address(r: Option<(Pubkey, u8)>, seeds: Seq<Seq<u8>>, program_id: Pubkey) -> bool {
    match r {
        Some((k, b)) => program_address(seeds, program_id.bytes@) == Some((k.bytes, b)),
        None => program_address(seeds, program_id.bytes@) is None,
    }
}

/// The UTF-8 bytes of `s` as a seed.
pub fn str_seed(s: &str) -> (r: Vec<u8>)
    ensures
        r@ == s.spec_bytes(),
{
    vstd::slice::slice_to_vec(s.as_bytes())
}

/// The 32 bytes of `key` as a seed.
pub fn key_seed(key: &Pubkey) -> (r: Vec<u8>)
    ensures
        r@ == key.bytes@,
{
    vstd::slice::slice_to_vec(key.bytes.as_slice())
}

/// ASCII decimal digits of `n`, most significant first, without leading zeros.
pub open spec fn decimal_digits(n: nat) -> Seq<u8>
    decreases n,
{
    if n < 10 {
        seq![(48 + n) as u8]
    } else {
        decimal_digits(n / 10).push((48 + n % 10) as u8)
    }
}

/// ASCII decimal form of `x`, with a leading '-' when negative.
pub open spec fn decimal_bytes(x: int) -> Seq<u8> {
    if x < 0 {
        seq![45u8] + decimal_digits((-x) as nat)
    } else {
        decimal_digits(x as nat)
    }
}

fn push_decimal_digits(n: u64, out: &mut Vec<u8>)
    ensures
        final(out)@ == old(out)@ + decimal_digits(n as nat),
    decreases n,
{
    if n >= 10 {
        push_decimal_digits(n / 10, out);
    }
    let d = (n % 10) as u8;
    out.push(48 + d);
    proof {
        if n >= 10 {
            assert(decimal_digits(n as nat) == decimal_digits((n / 10) as nat).push((48 + n % 10) as u8));
        }
    }
    assert(final(out)@ =~= old(out)@ + decimal_digits(n as nat));
}

/// The decimal form of `x` as ASCII bytes.
pub fn decimal_seed(x: i64) -> (r: Vec<u8>)
    ensures
        r@ == decimal_bytes(x as int),
{
    let mut out: Vec<u8> = Vec::new();
    if x < 0 {
        out.push(45);
        let magnitude = (-(x as i128)) as u64;
        push_decimal_digits(magnitude, &mut out);
    } else {
        push_decimal_digits(x as u64, &mut out);
    }
    assert(out@ =~= decimal_bytes(x as int));
    out
}

} // verus!
