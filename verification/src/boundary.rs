//! Boundary generation: a 68-character token whose head is `-` filler and
//! whose tail encodes a 24-byte nonce built from the current wall-clock time
//! and cryptographically seeded random bytes.

use rand::RngCore;
use vstd::prelude::*;
use vstd::string::StringExecFns;

verus! {

/// The character sequence that the URL-safe base64 alphabet assigns to a byte
/// sequence.
pub uninterp spec fn base64_url_of(bytes: Seq<u8>) -> Seq<char>;

/// Relies on `base64::encode_config` with `base64::URL_SAFE`: the encoding is
/// a function of the input bytes alone, and an input whose length is a
/// multiple of three encodes to four characters per three input bytes.
#[verifier::external_body]
fn base64_url(bytes: &Vec<u8>) -> (r: String)
    ensures
        r@ == base64_url_of(bytes@),
        bytes@.len() % 3 == 0 ==> r@.len() == 4 * (bytes@.len() / 3),
{
    base64::encode_config(bytes, base64::URL_SAFE)
}

/// Relies on `std::time::SystemTime::now` and `Duration::subsec_nanos` /
/// `Duration::as_secs`: the subsecond part of a duration is below one billion
/// nanoseconds. Aborts construction by panicking when the clock reports a
/// time before the Unix epoch: no degraded boundary is acceptable.
#[verifier::external_body]
fn now_parts() -> (r: (u32, u64))
    ensures
        r.0 < 1_000_000_000,
{
    let now = std::time::SystemTime::now().duration_since(std::time::SystemTime::UNIX_EPOCH).expect(
        "system time should be after the Unix epoch",
    );
    (now.subsec_nanos(), now.as_secs())
}

/// Relies on `rand::thread_rng` and `rand::RngCore::fill_bytes`: the whole
/// buffer is filled from a cryptographically seeded generator; nothing is
/// promised of the values themselves.
#[verifier::external_body]
fn random_bytes_12() -> (r: Vec<u8>)
    ensures
        r@.len() == 12,
{
    let mut buf = vec![0u8; 12];
    rand::thread_rng().fill_bytes(&mut buf);
    buf
}

/// The shape every generated boundary has: exactly 68 characters, the first
/// 36 of them `-` filler, the encoded nonce occupying the tail.
pub open spec fn boundary_wf(b: Seq<char>) -> bool {
    &&& b.len() == 68
    &&& forall|i: int| 0 <= i < 36 ==> b[i] == '-'
}

/// Generates a boundary: 4 bytes of subsecond time, 8 bytes of whole-second
/// time and 12 random bytes, base64-encoded URL-safely into 32 characters,
/// left-filled with `-` to a width of 68.
pub fn generate_boundary() -> (r: String)
    ensures
        boundary_wf(r@),
        exists|nonce: Seq<u8>| nonce.len() == 24 && r@.skip(36) == base64_url_of(nonce),
{
    let (nanos, secs) = now_parts();
    let mut buf: Vec<u8> = Vec::new();
    let mut lo: u32 = nanos;
    let mut i: usize = 0;
    while i < 4
        invariant
            buf@.len() == i,
            i <= 4,
        decreases 4 - i,
    {
        buf.push((lo % 256) as u8);
        lo = lo / 256;
        i = i + 1;
    }
    let mut hi: u64 = secs;
    let mut j: usize = 0;
    while j < 8
        invariant
            buf@.len() == 4 + j,
            j <= 8,
        decreases 8 - j,
    {
        buf.push((hi % 256) as u8);
        hi = hi / 256;
        j = j + 1;
    }
    let mut rnd = random_bytes_12();
    buf.append(&mut rnd);
    let enc = base64_url(&buf);
    let mut s = String::new();
    let mut k: usize = 0;
    while k < 36
        invariant
            s@.len() == k,
            k <= 36,
            forall|m: int| 0 <= m < k ==> s@[m] == '-',
        decreases 36 - k,
    {
        proof {
            reveal_strlit("-");
        }
        s.append("-");
        k = k + 1;
    }
    s.append(enc.as_str());
    proof {
        assert(s@.skip(36) =~= enc@);
        assert(buf@.len() == 24 && s@.skip(36) == base64_url_of(buf@));
    }
    s
}

} // verus!
