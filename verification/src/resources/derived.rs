//! Deterministic secret material derived from the PlatformInstance uid.
//!
//! There is no randomness in the reconcile path: generated secrets (the Nova
//! OIDC client secret, the Keycloak admin password) are an FNV-1a style chain
//! over `<prefix><uid>:<chunk>` for successive chunks, each chunk contributing
//! the big-endian bytes of the running hash. The bytes are then base64-encoded
//! (URL-safe, unpadded) and that text base64-encoded again (standard) for a
//! Secret's `data`.
use vstd::prelude::*;

use base64::Engine as _;

verus! {

/// The FNV-1a 64-bit prime.
pub const FNV_PRIME: u64 = 0x100000001b3;

/// One FNV-1a step: xor the byte in, multiply (wrapping) by the prime.
#[verifier::opaque]
pub open spec fn fnv_step(acc: u64, b: u8) -> u64 {
    (acc ^ (b as u64)).wrapping_mul(FNV_PRIME)
}

/// FNV-1a over `bytes`, starting from `acc`.
pub open spec fn fnv_fold(acc: u64, bytes: Seq<u8>) -> u64
    decreases bytes.len(),
{
    if bytes.len() == 0 {
        acc
    } else {
        fnv_step(fnv_fold(acc, bytes.drop_last()), bytes.last())
    }
}

/// The text hashed for chunk `chunk` (a single decimal digit): `<prefix><uid>:<chunk>`.
pub open spec fn chunk_input(prefix: Seq<u8>, uid: Seq<u8>, chunk: u8) -> Seq<u8> {
    prefix + uid + seq![58u8, (48 + chunk) as u8]
}

/// The running hash after `n` chunks.
pub open spec fn chain_acc(seed: u64, prefix: Seq<u8>, uid: Seq<u8>, n: nat) -> u64
    decreases n,
{
    if n == 0 {
        seed
    } else {
        fnv_fold(chain_acc(seed, prefix, uid, (n - 1) as nat), chunk_input(prefix, uid, (n - 1) as u8))
    }
}

/// Big-endian bytes of `x`.
pub open spec fn be_bytes(x: u64) -> Seq<u8> {
    seq![
        (x >> 56u64) as u8,
        (x >> 48u64) as u8,
        (x >> 40u64) as u8,
        (x >> 32u64) as u8,
        (x >> 24u64) as u8,
        (x >> 16u64) as u8,
        (x >> 8u64) as u8,
        x as u8,
    ]
}

/// The derived bytes after `n` chunks: the big-endian hash after each chunk.
pub open spec fn derived_bytes(seed: u64, prefix: Seq<u8>, uid: Seq<u8>, n: nat) -> Seq<u8>
    decreases n,
{
    if n == 0 {
        Seq::empty()
    } else {
        derived_bytes(seed, prefix, uid, (n - 1) as nat) + be_bytes(chain_acc(seed, prefix, uid, n))
    }
}

/// The character of the 6-bit value `v` in the RFC 4648 alphabet: `A`-`Z`,
/// `a`-`z`, `0`-`9`, then `+` and `/`, or `-` and `_` in the URL-safe
/// alphabet.
pub open spec fn b64_char(v: int, url_safe: bool) -> char {
    if v < 26 {
        (65 + v) as char
    } else if v < 52 {
        (97 + (v - 26)) as char
    } else if v < 62 {
        (48 + (v - 52)) as char
    } else if v == 62 {
        if url_safe {
            '-'
        } else {
            '+'
        }
    } else {
        if url_safe {
            '_'
        } else {
            '/'
        }
    }
}

/// RFC 4648 base64 of `bytes`: every three bytes become four characters of
/// six bits each, most significant first; a final one or two bytes become
/// two or three characters (the missing low bits zero), followed, when
/// `pad`, by `=` up to a multiple of four.
pub open spec fn base64_text(bytes: Seq<u8>, url_safe: bool, pad: bool) -> Seq<char>
    decreases bytes.len(),
{
    if bytes.len() == 0 {
        Seq::empty()
    } else if bytes.len() == 1 {
        let b0 = bytes[0] as int;
        seq![b64_char(b0 / 4, url_safe), b64_char((b0 % 4) * 16, url_safe)] + if pad {
            seq!['=', '=']
        } else {
            Seq::empty()
        }
    } else if bytes.len() == 2 {
        let b0 = bytes[0] as int;
        let b1 = bytes[1] as int;
        seq![
            b64_char(b0 / 4, url_safe),
            b64_char((b0 % 4) * 16 + b1 / 16, url_safe),
            b64_char((b1 % 16) * 4, url_safe),
        ] + if pad {
            seq!['=']
        } else {
            Seq::empty()
        }
    } else {
        let b0 = bytes[0] as int;
        let b1 = bytes[1] as int;
        let b2 = bytes[2] as int;
        seq![
            b64_char(b0 / 4, url_safe),
            b64_char((b0 % 4) * 16 + b1 / 16, url_safe),
            b64_char((b1 % 16) * 4 + b2 / 64, url_safe),
            b64_char(b2 % 64, url_safe),
        ] + base64_text(bytes.skip(3), url_safe, pad)
    }
}

/// What `base64`'s `URL_SAFE_NO_PAD` engine encodes `bytes` to: the URL-safe
/// alphabet, without padding.
pub open spec fn base64_url_safe_no_pad(bytes: Seq<u8>) -> Seq<char> {
    base64_text(bytes, true, false)
}

/// What `base64`'s `STANDARD` engine encodes `bytes` to: the standard
/// alphabet, padded with `=`.
pub open spec fn base64_standard(bytes: Seq<u8>) -> Seq<char> {
    base64_text(bytes, false, true)
}

/// Inputs short enough that `base64` can size the output buffer.
pub open spec fn encodable(bytes: Seq<u8>) -> bool {
    bytes.len() * 4 / 3 + 4 <= usize::MAX
}

/// Calls `base64::engine::general_purpose::URL_SAFE_NO_PAD.encode`
/// (`Engine::encode`). Claimed: the result is the RFC 4648 encoding of the
/// input in the URL-safe alphabet without padding. `encode` panics when the
/// output length overflows `usize`, which `requires` rules out.
#[verifier::external_body]
fn encode_url_safe_no_pad(bytes: &[u8]) -> (r: String)
    requires
        encodable(bytes@),
    ensures
        r@ == base64_url_safe_no_pad(bytes@),
{
    base64::engine::general_purpose::URL_SAFE_NO_PAD.encode(bytes)
}

/// Calls `base64::engine::general_purpose::STANDARD.encode`
/// (`Engine::encode`). Claimed: the result is the RFC 4648 encoding of the
/// input in the standard alphabet with `=` padding. `encode` panics when the
/// output length overflows `usize`, which `requires` rules out.
#[verifier::external_body]
fn encode_standard(bytes: &[u8]) -> (r: String)
    requires
        encodable(bytes@),
    ensures
        r@ == base64_standard(bytes@),
{
    base64::engine::general_purpose::STANDARD.encode(bytes)
}

/// The length of an encoding: `4 * ceil(n / 3)` padded, `ceil(4n / 3)`
/// unpadded.
pub open spec fn base64_len(n: int, pad: bool) -> int {
    if pad {
        4 * ((n + 2) / 3)
    } else {
        (4 * n + 2) / 3
    }
}

/// Every alphabet character is ASCII.
pub proof fn lemma_b64_char_ascii(v: int, url_safe: bool)
    requires
        0 <= v < 64,
    ensures
        '\0' <= b64_char(v, url_safe) <= '\u{7f}',
{
}

/// An encoding has [`base64_len`] characters, all ASCII.
pub proof fn lemma_base64_text(bytes: Seq<u8>, url_safe: bool, pad: bool)
    ensures
        base64_text(bytes, url_safe, pad).len() == base64_len(bytes.len() as int, pad),
        vstd::utf8::is_ascii_chars(base64_text(bytes, url_safe, pad)),
    decreases bytes.len(),
{
    let t = base64_text(bytes, url_safe, pad);
    let n = bytes.len() as int;
    if n == 0 {
    } else if n == 1 {
        let b0 = bytes[0] as int;
        lemma_b64_char_ascii(b0 / 4, url_safe);
        lemma_b64_char_ascii((b0 % 4) * 16, url_safe);
        assert forall|i: int| 0 <= i < t.len() implies '\0' <= #[trigger] t[i] <= '\u{7f}' by {
            if i >= 2 {
                assert(t[i] == '=');
            }
        }
    } else if n == 2 {
        let b0 = bytes[0] as int;
        let b1 = bytes[1] as int;
        lemma_b64_char_ascii(b0 / 4, url_safe);
        lemma_b64_char_ascii((b0 % 4) * 16 + b1 / 16, url_safe);
        lemma_b64_char_ascii((b1 % 16) * 4, url_safe);
        assert forall|i: int| 0 <= i < t.len() implies '\0' <= #[trigger] t[i] <= '\u{7f}' by {
            if i >= 3 {
                assert(t[i] == '=');
            }
        }
    } else {
        let b0 = bytes[0] as int;
        let b1 = bytes[1] as int;
        let b2 = bytes[2] as int;
        let rest = base64_text(bytes.skip(3), url_safe, pad);
        lemma_base64_text(bytes.skip(3), url_safe, pad);
        lemma_b64_char_ascii(b0 / 4, url_safe);
        lemma_b64_char_ascii((b0 % 4) * 16 + b1 / 16, url_safe);
        lemma_b64_char_ascii((b1 % 16) * 4 + b2 / 64, url_safe);
        lemma_b64_char_ascii(b2 % 64, url_safe);
        assert forall|i: int| 0 <= i < t.len() implies '\0' <= #[trigger] t[i] <= '\u{7f}' by {
            if i >= 4 {
                assert(t[i] == rest[i - 4]);
            }
        }
    }
}

/// FNV over a concatenation is FNV over the second part, continued.
pub proof fn lemma_fnv_fold_concat(acc: u64, a: Seq<u8>, b: Seq<u8>)
    ensures
        fnv_fold(acc, a + b) == fnv_fold(fnv_fold(acc, a), b),
    decreases b.len(),
{
    if b.len() == 0 {
        assert(a + b =~= a);
    } else {
        lemma_fnv_fold_concat(acc, a, b.drop_last());
        assert((a + b).drop_last() =~= a + b.drop_last());
        assert((a + b).last() == b.last());
    }
}

/// Continue FNV-1a over `bytes`.
fn fnv_absorb(acc: u64, bytes: &[u8]) -> (r: u64)
    ensures
        r == fnv_fold(acc, bytes@),
{
    let mut h = acc;
    let mut i: usize = 0;
    while i < bytes.len()
        invariant
            i <= bytes@.len(),
            h == fnv_fold(acc, bytes@.take(i as int)),
        decreases bytes.len() - i,
    {
        let b = bytes[i];
        assert(bytes@.take(i + 1).drop_last() =~= bytes@.take(i as int));
        h = fnv_byte(h, b);
        i = i + 1;
    }
    assert(bytes@.take(bytes@.len() as int) =~= bytes@);
    h
}

/// One FNV-1a step.
fn fnv_byte(acc: u64, b: u8) -> (r: u64)
    ensures
        r == fnv_step(acc, b),
{
    proof {
        reveal(fnv_step);
    }
    (acc ^ (b as u64)).wrapping_mul(FNV_PRIME)
}

/// Hashing prefix, uid, `:` and the digit in turn is hashing the chunk input.
proof fn lemma_chunk_fold(
    before: u64,
    p: Seq<u8>,
    u: Seq<u8>,
    chunk: u8,
    acc1: u64,
    acc2: u64,
    acc3: u64,
    acc4: u64,
)
    requires
        chunk < 10,
        acc1 == fnv_fold(before, p),
        acc2 == fnv_fold(acc1, u),
        acc3 == fnv_step(acc2, 58u8),
        acc4 == fnv_step(acc3, (48 + chunk) as u8),
    ensures
        acc4 == fnv_fold(before, chunk_input(p, u, chunk)),
{
    let tail = seq![58u8, (48 + chunk) as u8];
    lemma_fnv_fold_concat(before, p, u);
    lemma_fnv_fold_concat(before, p + u, tail);
    assert(tail.drop_last() =~= seq![58u8]);
    assert(seq![58u8].drop_last() =~= Seq::<u8>::empty());
    reveal_with_fuel(fnv_fold, 3);
    assert(fnv_fold(acc2, seq![58u8]) == acc3);
    assert(fnv_fold(acc2, tail) == acc4);
    assert(chunk_input(p, u, chunk) =~= p + u + tail);
}

/// Append the big-endian bytes of `x`.
fn push_be_bytes(out: &mut Vec<u8>, x: u64)
    ensures
        final(out)@ == old(out)@ + be_bytes(x),
{
    out.push((x >> 56u64) as u8);
    out.push((x >> 48u64) as u8);
    out.push((x >> 40u64) as u8);
    out.push((x >> 32u64) as u8);
    out.push((x >> 24u64) as u8);
    out.push((x >> 16u64) as u8);
    out.push((x >> 8u64) as u8);
    out.push(x as u8);
    assert(out@ =~= old(out)@ + be_bytes(x));
}

/// The derived bytes for `uid` after `chunks` chunks.
pub fn derive_bytes(seed: u64, prefix: &str, uid: &str, chunks: u8) -> (r: Vec<u8>)
    requires
        chunks <= 10,
    ensures
        r@ == derived_bytes(seed, vstd::utf8::encode_utf8(prefix@), vstd::utf8::encode_utf8(uid@), chunks as nat),
        r@.len() == 8 * chunks,
{
    let ghost p = vstd::utf8::encode_utf8(prefix@);
    let ghost u = vstd::utf8::encode_utf8(uid@);
    let mut out: Vec<u8> = Vec::new();
    let mut acc = seed;
    let mut chunk: u8 = 0;
    while chunk < chunks
        invariant
            chunk <= chunks <= 10,
            p == vstd::utf8::encode_utf8(prefix@),
            u == vstd::utf8::encode_utf8(uid@),
            acc == chain_acc(seed, p, u, chunk as nat),
            out@ == derived_bytes(seed, p, u, chunk as nat),
            out@.len() == 8 * chunk,
        decreases chunks - chunk,
    {
        let ghost before = acc;
        let acc1 = fnv_absorb(acc, prefix.as_bytes());
        let acc2 = fnv_absorb(acc1, uid.as_bytes());
        let acc3 = fnv_byte(acc2, 58u8);
        let digit: u8 = 48 + chunk;
        acc = fnv_byte(acc3, digit);
        proof {
            lemma_chunk_fold(before, p, u, chunk, acc1, acc2, acc3, acc);
        }
        push_be_bytes(&mut out, acc);
        chunk = chunk + 1;
    }
    out
}

/// The Secret `data` value derived from `uid`.
pub open spec fn derived_secret_text(seed: u64, prefix: Seq<u8>, uid: Seq<u8>, chunks: nat) -> Seq<
    char,
> {
    base64_standard(
        vstd::utf8::encode_utf8(base64_url_safe_no_pad(derived_bytes(seed, prefix, uid, chunks))),
    )
}

/// Derive the base64 `data` value of a generated secret: the derived bytes,
/// encoded URL-safe without padding, then that text encoded standard.
pub fn derived_secret(seed: u64, prefix: &str, uid: &str, chunks: u8) -> (r: String)
    requires
        chunks <= 10,
    ensures
        r@ == derived_secret_text(seed, vstd::utf8::encode_utf8(prefix@), vstd::utf8::encode_utf8(uid@), chunks as nat),
{
    let bytes = derive_bytes(seed, prefix, uid, chunks);
    proof {
        lemma_base64_text(bytes@, true, false);
    }
    let pw = encode_url_safe_no_pad(bytes.as_slice());
    proof {
        vstd::utf8::is_ascii_chars_encode_utf8(pw@);
    }
    encode_standard(pw.as_str().as_bytes())
}

/// The derived bytes after `n` chunks are `8n` bytes.
pub proof fn lemma_derived_bytes_len(seed: u64, prefix: Seq<u8>, uid: Seq<u8>, n: nat)
    ensures
        derived_bytes(seed, prefix, uid, n).len() == 8 * n,
    decreases n,
{
    if n > 0 {
        lemma_derived_bytes_len(seed, prefix, uid, (n - 1) as nat);
    }
}

/// A derived Secret value is ASCII, of the length of the standard encoding
/// of the unpadded URL-safe encoding of `8 * chunks` bytes.
pub proof fn lemma_derived_secret_text(seed: u64, prefix: Seq<u8>, uid: Seq<u8>, chunks: nat)
    ensures
        derived_secret_text(seed, prefix, uid, chunks).len() == base64_len(
            base64_len(8 * chunks as int, false),
            true,
        ),
        vstd::utf8::is_ascii_chars(derived_secret_text(seed, prefix, uid, chunks)),
{
    let bytes = derived_bytes(seed, prefix, uid, chunks);
    lemma_derived_bytes_len(seed, prefix, uid, chunks);
    lemma_base64_text(bytes, true, false);
    let pw = base64_url_safe_no_pad(bytes);
    vstd::utf8::is_ascii_chars_encode_utf8(pw);
    lemma_base64_text(vstd::utf8::encode_utf8(pw), false, true);
}

} // verus!
