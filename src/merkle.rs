//! Merkle inclusion proofs for airdrop claims. A leaf is the SHA-256 of the
//! claimant's address followed by "1"; each proof step hashes the running
//! hash together with a sibling, smaller one first.
use vstd::prelude::*;
use sha2::Digest;
use vstd::string::StringSliceAdditionalSpecFns;
use vstd::utf8::encode_utf8;
use crate::types::ContractError;

verus! {

/// The SHA-256 digest of `data`.
pub uninterp spec fn sha256_of(data: Seq<u8>) -> Seq<u8>;

/// Relies on `sha2::Sha256::digest`: the digest of the bytes, 32 bytes long.
#[verifier::external_body]
fn sha256(data: &[u8]) -> (r: Vec<u8>)
    ensures
        r@ == sha256_of(data@),
        r@.len() == 32,
{
    sha2::Sha256::digest(data).to_vec()
}

/// The value of a hexadecimal digit (either case).
pub open spec fn hex_value(c: u8) -> int {
    if 48 <= c <= 57 {
        c - 48
    } else if 97 <= c <= 102 {
        c - 97 + 10
    } else {
        c - 65 + 10
    }
}

pub open spec fn is_hex_digit(c: u8) -> bool {
    (48 <= c <= 57) || (97 <= c <= 102) || (65 <= c <= 70)
}

/// `s` spells 32 bytes in hexadecimal.
pub open spec fn is_hex32(s: Seq<u8>) -> bool {
    s.len() == 64 && forall|i: int| 0 <= i < 64 ==> is_hex_digit(#[trigger] s[i])
}

/// The bytes that the hexadecimal text `s` spells, two digits each.
pub open spec fn hex_bytes(s: Seq<u8>) -> Seq<u8> {
    Seq::new((s.len() / 2) as nat, |i: int| (hex_value(s[2 * i]) * 16 + hex_value(s[2 * i + 1])) as u8)
}

/// Relies on `hex::decode_to_slice` into a 32-byte buffer: it succeeds
/// exactly on 64 hexadecimal digits, and then yields the bytes they spell.
#[verifier::external_body]
pub(crate) fn decode_hex32(s: &str) -> (r: Option<Vec<u8>>)
    ensures
        r.is_some() <==> is_hex32(s.spec_bytes()),
        r.is_some() ==> r.unwrap()@ == hex_bytes(s.spec_bytes()),
{
    let mut buf = [0u8; 32];
    match hex::decode_to_slice(s, &mut buf) {
        Ok(()) => Some(buf.to_vec()),
        Err(_) => None,
    }
}

/// `a` comes before or equals `b` in lexicographic byte order.
pub open spec fn lex_le(a: Seq<u8>, b: Seq<u8>) -> bool
    decreases a.len(),
{
    if a.len() == 0 {
        true
    } else if b.len() == 0 {
        false
    } else if a[0] != b[0] {
        a[0] < b[0]
    } else {
        lex_le(a.drop_first(), b.drop_first())
    }
}

/// The two hashes side by side, the smaller first.
pub open spec fn ordered_pair(a: Seq<u8>, b: Seq<u8>) -> Seq<u8> {
    if lex_le(a, b) { a + b } else { b + a }
}

/// The hash reached from `leaf` after the given proof steps.
pub open spec fn fold_proof(leaf: Seq<u8>, steps: Seq<Seq<u8>>) -> Seq<u8>
    decreases steps.len(),
{
    if steps.len() == 0 {
        leaf
    } else {
        sha256_of(ordered_pair(fold_proof(leaf, steps.drop_last()), steps.last()))
    }
}

/// The bytes hashed for a claimant's leaf.
pub open spec fn leaf_input(address: Seq<char>) -> Seq<u8> {
    encode_utf8(address) + seq![49u8]
}

/// Whether every proof step is 32 bytes in hexadecimal.
pub open spec fn proof_is_hex(proof: Seq<Seq<u8>>) -> bool {
    forall|i: int| 0 <= i < proof.len() ==> is_hex32(#[trigger] proof[i])
}

/// Whether `a` comes before or equals `b` in lexicographic byte order.
pub fn bytes_le(a: &Vec<u8>, b: &Vec<u8>) -> (r: bool)
    ensures
        r == lex_le(a@, b@),
{
    let n = if a.len() < b.len() { a.len() } else { b.len() };
    let mut i: usize = 0;
    assert(a@.subrange(0, a@.len() as int) =~= a@);
    assert(b@.subrange(0, b@.len() as int) =~= b@);
    while i < n
        invariant
            n <= a@.len(),
            n <= b@.len(),
            i <= n,
            a@.subrange(0, i as int) == b@.subrange(0, i as int),
            lex_le(a@, b@) == lex_le(a@.subrange(i as int, a@.len() as int), b@.subrange(i as int, b@.len() as int)),
        decreases n - i,
    {
        let ghost sa = a@.subrange(i as int, a@.len() as int);
        let ghost sb = b@.subrange(i as int, b@.len() as int);
        if a[i] != b[i] {
            assert(sa[0] == a@[i as int] && sb[0] == b@[i as int]);
            return a[i] < b[i];
        }
        proof {
            assert(sa.drop_first() =~= a@.subrange(i + 1, a@.len() as int));
            assert(sb.drop_first() =~= b@.subrange(i + 1, b@.len() as int));
            assert(a@.subrange(0, i + 1) =~= a@.subrange(0, i as int).push(a@[i as int]));
            assert(b@.subrange(0, i + 1) =~= b@.subrange(0, i as int).push(b@[i as int]));
        }
        i = i + 1;
    }
    assert(a@.subrange(n as int, a@.len() as int).len() == a@.len() - n);
    assert(b@.subrange(n as int, b@.len() as int).len() == b@.len() - n);
    a.len() <= b.len()
}

fn append_bytes(out: &mut Vec<u8>, src: &[u8])
    ensures
        final(out)@ == old(out)@ + src@,
{
    let n = src.len();
    let mut i: usize = 0;
    while i < n
        invariant
            n == src@.len(),
            i <= n,
            out@ == old(out)@ + src@.subrange(0, i as int),
        decreases n - i,
    {
        out.push(src[i]);
        i = i + 1;
        assert(out@ =~= old(out)@ + src@.subrange(0, i as int));
    }
    assert(src@.subrange(0, n as int) =~= src@);
}

/// The two hashes side by side, the smaller first: what one proof step hashes.
pub fn pair_bytes(a: &Vec<u8>, b: &Vec<u8>) -> (r: Vec<u8>)
    ensures
        r@ == ordered_pair(a@, b@),
{
    let mut out: Vec<u8> = Vec::new();
    if bytes_le(a, b) {
        append_bytes(&mut out, a.as_slice());
        append_bytes(&mut out, b.as_slice());
    } else {
        append_bytes(&mut out, b.as_slice());
        append_bytes(&mut out, a.as_slice());
    }
    assert(out@ =~= ordered_pair(a@, b@));
    out
}

/// Folds already decoded proof steps into `leaf`.
pub fn fold_steps(leaf: Vec<u8>, steps: &Vec<Vec<u8>>) -> (r: Vec<u8>)
    ensures
        r@ == fold_proof(leaf@, steps@.map_values(|s: Vec<u8>| s@)),
{
    let ghost sv = steps@.map_values(|s: Vec<u8>| s@);
    let mut h = leaf;
    let ghost l = h@;
    let n = steps.len();
    let mut i: usize = 0;
    while i < n
        invariant
            n == steps@.len(),
            sv == steps@.map_values(|s: Vec<u8>| s@),
            i <= n,
            h@ == fold_proof(l, sv.take(i as int)),
        decreases n - i,
    {
        let paired = pair_bytes(&h, &steps[i]);
        h = sha256(paired.as_slice());
        proof {
            assert(sv.take(i as int + 1).drop_last() =~= sv.take(i as int));
            assert(sv.take(i as int + 1).last() == steps@[i as int]@);
        }
        i = i + 1;
    }
    assert(sv.take(n as int) =~= sv);
    h
}

/// The leaf hash of a claimant.
pub fn leaf_hash(address: &String) -> (r: Vec<u8>)
    ensures
        r@ == sha256_of(leaf_input(address@)),
{
    let mut input: Vec<u8> = Vec::new();
    append_bytes(&mut input, address.as_str().as_bytes());
    input.push(49u8);
    assert(input@ =~= leaf_input(address@));
    sha256(input.as_slice())
}

/// Checks that `address` is a leaf of the tree with hexadecimal root `root`,
/// given hexadecimal sibling hashes `proof`. Text that is not 32 bytes of
/// hexadecimal is refused.
pub fn verify_claim(address: &String, proof: &Vec<String>, root: &String) -> (r: Result<bool, ContractError>)
    ensures
        !proof_is_hex(proof@.map_values(|p: String| encode_utf8_of(p@))) ==> r == Err::<bool, ContractError>(
            ContractError::InvalidHex {}),
        proof_is_hex(proof@.map_values(|p: String| encode_utf8_of(p@))) && !is_hex32(encode_utf8_of(root@))
            ==> r == Err::<bool, ContractError>(ContractError::InvalidHex {}),
        proof_is_hex(proof@.map_values(|p: String| encode_utf8_of(p@))) && is_hex32(encode_utf8_of(root@))
            ==> r == Ok::<bool, ContractError>(
            hex_bytes(encode_utf8_of(root@)) == fold_proof(
                sha256_of(leaf_input(address@)),
                proof@.map_values(|p: String| hex_bytes(encode_utf8_of(p@))),
            ),
        ),
{
    let ghost texts = proof@.map_values(|p: String| encode_utf8_of(p@));
    let mut steps: Vec<Vec<u8>> = Vec::new();
    let n = proof.len();
    let mut i: usize = 0;
    while i < n
        invariant
            n == proof@.len(),
            texts == proof@.map_values(|p: String| encode_utf8_of(p@)),
            i <= n,
            steps@.len() == i,
            forall|j: int| 0 <= j < i ==> is_hex32(#[trigger] texts[j]),
            forall|j: int| 0 <= j < i ==> (#[trigger] steps@[j])@ == hex_bytes(texts[j]),
        decreases n - i,
    {
        match decode_hex32(proof[i].as_str()) {
            None => {
                assert(!is_hex32(texts[i as int]));
                return Err(ContractError::InvalidHex {});
            },
            Some(b) => { steps.push(b); },
        }
        i = i + 1;
    }
    let root_bytes = match decode_hex32(root.as_str()) {
        None => { return Err(ContractError::InvalidHex {}); },
        Some(b) => b,
    };
    let h = fold_steps(leaf_hash(address), &steps);
    assert(steps@.map_values(|s: Vec<u8>| s@) =~= proof@.map_values(|p: String| hex_bytes(encode_utf8_of(p@))));
    Ok(bytes_eq(&root_bytes, &h))
}

/// Whether two byte strings are equal.
pub fn bytes_eq(a: &Vec<u8>, b: &Vec<u8>) -> (r: bool)
    ensures
        r == (a@ == b@),
{
    if a.len() != b.len() {
        return false;
    }
    let n = a.len();
    let mut i: usize = 0;
    while i < n
        invariant
            n == a@.len(),
            n == b@.len(),
            i <= n,
            forall|j: int| 0 <= j < i ==> a@[j] == b@[j],
        decreases n - i,
    {
        if a[i] != b[i] {
            return false;
        }
        i = i + 1;
    }
    assert(a@ =~= b@);
    true
}

} // verus!

verus! {

/// The UTF-8 bytes of a text.
pub open spec fn encode_utf8_of(s: Seq<char>) -> Seq<u8> {
    encode_utf8(s)
}

} // verus!
