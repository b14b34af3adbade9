use crate::digest::{sha256, sha256_of};
use crate::keystream::{chacha_word, next_word, rng_drawn, rng_seed, seeded_rng};
use vstd::prelude::*;
use vstd::string::StringSliceAdditionalSpecFns;

verus! {

/// The size of a segment, the unit that one generator covers.
pub const SEGMENT_SIZE: u64 = 1048576;

/// The unsigned big-endian value of the first eight bytes of `b`.
pub open spec fn be_u64_of(b: Seq<u8>) -> nat {
    b[0] as nat * 0x100000000000000 + b[1] as nat * 0x1000000000000 + b[2] as nat
        * 0x10000000000 + b[3] as nat * 0x100000000 + b[4] as nat * 0x1000000 + b[5] as nat
        * 0x10000 + b[6] as nat * 0x100 + b[7] as nat
}

/// The master seed of a password: the first eight bytes of its SHA-256
/// digest, read as a big-endian integer.
pub open spec fn master_seed_of(password: Seq<u8>) -> nat {
    be_u64_of(sha256_of(password))
}

/// Byte `j` (0 is the most significant) of the big-endian form of `w`.
pub open spec fn be_byte(w: u64, j: nat) -> u8 {
    (w >> (56 - 8 * j) as u64) as u8
}

/// The keystream byte at offset `k` of a segment whose generator was seeded
/// with `seed`: each drawn word covers eight bytes, most significant first.
pub open spec fn key_byte(seed: u64, k: nat) -> u8 {
    be_byte(chacha_word(seed, k / 8), k % 8)
}

/// The number of segments planned for a file of `len` bytes; an exact
/// multiple of the segment size gets one extra, empty segment.
pub open spec fn segment_count_of(len: nat) -> nat {
    len / SEGMENT_SIZE as nat + 1
}

/// The segment that holds offset `off` of a file.
pub open spec fn segment_of(off: nat) -> nat {
    off / (SEGMENT_SIZE as nat)
}

/// The first offset of segment `i`.
pub open spec fn segment_start(i: nat) -> nat {
    i * SEGMENT_SIZE as nat
}

/// The offset just past segment `i` of a file of `len` bytes.
pub open spec fn segment_end(len: nat, i: nat) -> nat {
    if (i + 1) * SEGMENT_SIZE as nat <= len {
        (i + 1) * SEGMENT_SIZE as nat
    } else {
        len
    }
}

/// The seed of segment `i`: word `i` of the generator seeded with the master seed.
pub open spec fn segment_seed(master: u64, i: nat) -> u64 {
    chacha_word(master, i)
}

/// The keystream byte at absolute offset `off` of a file.
pub open spec fn stream_byte(master: u64, off: nat) -> u8 {
    key_byte(segment_seed(master, segment_of(off)), off % SEGMENT_SIZE as nat)
}

/// `data` XORed, byte by byte, with the keystream of the master seed.
pub open spec fn transformed(data: Seq<u8>, master: u64) -> Seq<u8> {
    Seq::new(data.len(), |k: int| data[k] ^ stream_byte(master, k as nat))
}

/// `data` XORed with the keystream of a segment seeded with `seed`.
pub open spec fn segment_transformed(data: Seq<u8>, seed: u64) -> Seq<u8> {
    Seq::new(data.len(), |k: int| data[k] ^ key_byte(seed, k as nat))
}

/// What the cipher makes of `data` under `password` (its UTF-8 bytes).
pub open spec fn transform_of(data: Seq<u8>, password: Seq<u8>) -> Seq<u8> {
    transformed(data, master_seed_of(password) as u64)
}

/// The big-endian value of the first eight bytes of `b`.
pub fn be_u64(b: &[u8]) -> (r: u64)
    requires
        b@.len() >= 8,
    ensures
        r as nat == be_u64_of(b@),
{
    (b[0] as u64) * 0x100000000000000 + (b[1] as u64) * 0x1000000000000 + (b[2] as u64)
        * 0x10000000000 + (b[3] as u64) * 0x100000000 + (b[4] as u64) * 0x1000000 + (b[5] as u64)
        * 0x10000 + (b[6] as u64) * 0x100 + (b[7] as u64)
}

/// Derives the master seed from a password.
pub fn hash_string(keyword: &str) -> (r: u64)
    ensures
        r as nat == master_seed_of(keyword.spec_bytes()),
{
    let d = sha256(keyword.as_bytes());
    be_u64(d.as_slice())
}

/// Byte `j` of the big-endian form of `w`.
fn word_byte(w: u64, j: usize) -> (r: u8)
    requires
        j < 8,
    ensures
        r == be_byte(w, j as nat),
{
    (w >> (56 - 8 * j) as u64) as u8
}

/// The number of segments planned for a file of `file_size` bytes.
pub fn segment_count(file_size: u64) -> (r: u64)
    ensures
        r as nat == segment_count_of(file_size as nat),
{
    file_size / SEGMENT_SIZE + 1
}

/// The byte range `[start, end)` of segment `index` in a file of
/// `file_size` bytes; the extra segment of an exact multiple is empty.
pub fn segment_bounds(file_size: u64, index: u64) -> (r: (u64, u64))
    requires
        index < segment_count_of(file_size as nat),
    ensures
        r.0 == segment_start(index as nat),
        r.1 == segment_end(file_size as nat, index as nat),
        r.0 <= r.1 <= file_size,
{
    proof {
        assert(index * SEGMENT_SIZE <= file_size) by (nonlinear_arith)
            requires
                index <= file_size / 1048576,
        ;
    }
    let start = index * SEGMENT_SIZE;
    let end = if file_size - start < SEGMENT_SIZE {
        file_size
    } else {
        start + SEGMENT_SIZE
    };
    (start, end)
}

/// The seeds of the first `count` segments, drawn in order from one
/// generator seeded with the master seed.
pub fn segment_seeds(master: u64, count: u64) -> (r: Vec<u64>)
    ensures
        r@.len() == count,
        forall|i: int| 0 <= i < count ==> r@[i] == segment_seed(master, i as nat),
{
    let mut rng = seeded_rng(master);
    let mut seeds: Vec<u64> = Vec::new();
    let mut i: u64 = 0;
    while i < count
        invariant
            i <= count,
            seeds@.len() == i,
            rng_seed(rng) == master,
            rng_drawn(rng) == i,
            forall|k: int| 0 <= k < i ==> seeds@[k] == segment_seed(master, k as nat),
        decreases count - i,
    {
        seeds.push(next_word(&mut rng));
        i = i + 1;
    }
    seeds
}

/// Appends `data[start..end]`, XORed with the keystream of a segment seeded
/// with `seed`, to `out`.
fn xor_segment_into(seed: u64, data: &[u8], start: usize, end: usize, out: &mut Vec<u8>)
    requires
        start <= end <= data@.len(),
    ensures
        final(out)@ == old(out)@ + segment_transformed(data@.subrange(start as int, end as int), seed),
{
    let ghost base = old(out)@;
    let mut rng = seeded_rng(seed);
    let mut pos: usize = start;
    while pos < end
        invariant
            start <= pos <= end <= data@.len(),
            rng_seed(rng) == seed,
            pos < end ==> (pos - start) % 8 == 0 && rng_drawn(rng) == (pos - start) / 8,
            out@ == base + segment_transformed(data@.subrange(start as int, pos as int), seed),
        decreases end - pos,
    {
        let ghost q: nat = ((pos - start) / 8) as nat;
        let ghost p0: int = pos - start;
        let w = next_word(&mut rng);
        let mut j: usize = 0;
        while j < 8 && pos < end
            invariant
                start <= pos <= end <= data@.len(),
                j <= 8,
                p0 == 8 * q,
                pos - start == p0 + j,
                w == chacha_word(seed, q),
                rng_seed(rng) == seed,
                rng_drawn(rng) == q + 1,
                out@ == base + segment_transformed(data@.subrange(start as int, pos as int), seed),
            decreases 8 - j,
        {
            let kb = word_byte(w, j);
            proof {
                let k = p0 + j;
                assert(k / 8 == q && k % 8 == j);
            }
            out.push(data[pos] ^ kb);
            pos = pos + 1;
            j = j + 1;
            assert(out@ =~= base + segment_transformed(data@.subrange(start as int, pos as int), seed));
        }
    }
}

/// One segment's work: `data` XORed with the keystream of a generator
/// seeded with `seed`.
pub fn transform_segment(seed: u64, data: &[u8]) -> (r: Vec<u8>)
    ensures
        r@ == segment_transformed(data@, seed),
{
    let mut out: Vec<u8> = Vec::new();
    xor_segment_into(seed, data, 0, data.len(), &mut out);
    assert(data@.subrange(0, data@.len() as int) =~= data@);
    assert(out@ =~= segment_transformed(data@, seed));
    out
}

/// A segment's part of the keystream is its own generator's stream, read
/// from the segment's first byte.
proof fn lemma_append_segment(data: Seq<u8>, master: u64, i: nat, b: int)
    requires
        i * SEGMENT_SIZE <= b <= data.len(),
        b <= (i + 1) * SEGMENT_SIZE,
    ensures
        transformed(data.subrange(0, (i * SEGMENT_SIZE) as int), master) + segment_transformed(
            data.subrange((i * SEGMENT_SIZE) as int, b),
            segment_seed(master, i),
        ) =~= transformed(data.subrange(0, b), master),
{
    let a = (i * SEGMENT_SIZE) as int;
    assert forall|k: int| a <= k < b implies #[trigger] stream_byte(master, k as nat) == key_byte(
        segment_seed(master, i),
        (k - a) as nat,
    ) by {
        vstd::arithmetic::div_mod::lemma_fundamental_div_mod_converse(k, SEGMENT_SIZE as int, i as int, k - a);
    }
}

/// The whole cipher on bytes held in memory: `data` XORed with the keystream
/// that `password` determines. Applying it twice restores `data`.
pub fn transform(data: &[u8], password: &str) -> (r: Vec<u8>)
    ensures
        r@ == transform_of(data@, password.spec_bytes()),
{
    let master = hash_string(password);
    let len = data.len() as u64;
    let count = segment_count(len);
    let seeds = segment_seeds(master, count);
    let mut out: Vec<u8> = Vec::new();
    let mut i: u64 = 0;
    let mut pos: usize = 0;
    while i < count
        invariant
            len == data@.len(),
            data@.len() <= usize::MAX,
            count == segment_count_of(len as nat),
            seeds@.len() == count,
            forall|k: int| 0 <= k < count ==> seeds@[k] == segment_seed(master, k as nat),
            i <= count,
            pos <= len,
            pos == if i * SEGMENT_SIZE < len { i * SEGMENT_SIZE } else { len as int },
            out@ == transformed(data@.subrange(0, pos as int), master),
        decreases count - i,
    {
        let (start, end) = segment_bounds(len, i);
        proof {
            assert(start == pos);
            assert(end <= data@.len());
            lemma_append_segment(data@, master, i as nat, end as int);
        }
        xor_segment_into(seeds[i as usize], data, start as usize, end as usize, &mut out);
        pos = end as usize;
        i = i + 1;
    }
    proof {
        assert(count * SEGMENT_SIZE > len) by (nonlinear_arith)
            requires
                count == len / 1048576 + 1,
        ;
        assert(data@.subrange(0, len as int) =~= data@);
    }
    out
}

/// Applying the cipher twice with one password gives back the input.
pub proof fn transform_is_self_inverse(data: Seq<u8>, password: Seq<u8>)
    ensures
        transform_of(transform_of(data, password), password) == data,
{
    let m = master_seed_of(password) as u64;
    let once = transform_of(data, password);
    assert forall|k: int| 0 <= k < data.len() implies #[trigger] transform_of(once, password)[k]
        == data[k] by {
        let a = data[k];
        let b = stream_byte(m, k as nat);
        assert((a ^ b) ^ b == a) by (bit_vector);
    }
    assert(transform_of(once, password) =~= data);
}

/// The output is exactly as long as the input; an empty input gives an
/// empty output.
pub proof fn transform_preserves_length(data: Seq<u8>, password: Seq<u8>)
    ensures
        transform_of(data, password).len() == data.len(),
        data.len() == 0 ==> transform_of(data, password) == Seq::<u8>::empty(),
{
    if data.len() == 0 {
        assert(transform_of(data, password) =~= Seq::<u8>::empty());
    }
}

/// The output depends on the input bytes and the password alone.
pub proof fn transform_is_deterministic(d1: Seq<u8>, p1: Seq<u8>, d2: Seq<u8>, p2: Seq<u8>)
    requires
        d1 == d2,
        p1 == p2,
    ensures
        transform_of(d1, p1) == transform_of(d2, p2),
{
}

/// The planned segments of a file are disjoint and cover it in order: every
/// offset lies in exactly the segment that its quotient by the segment size
/// names, and the last planned segment ends at the end of the file.
pub proof fn segments_cover_file(len: nat, off: nat)
    requires
        off < len,
    ensures
        segment_of(off) < segment_count_of(len),
        segment_start(segment_of(off)) <= off < segment_end(len, segment_of(off)),
        segment_end(len, (segment_count_of(len) - 1) as nat) == len,
        forall|i: nat| i + 1 < segment_count_of(len) ==> segment_end(len, i) == #[trigger] segment_start(i + 1),
{
    let s = SEGMENT_SIZE as int;
    vstd::arithmetic::div_mod::lemma_fundamental_div_mod(off as int, s);
    vstd::arithmetic::div_mod::lemma_div_is_ordered(off as int, len as int, s);
    vstd::arithmetic::div_mod::lemma_fundamental_div_mod(len as int, s);
    let c = (len / SEGMENT_SIZE as nat) as int;
    assert(c * s + s > len);
    assert forall|i: nat| i + 1 < segment_count_of(len) implies segment_end(len, i) == #[trigger] segment_start(i + 1) by {
        assert((i + 1) * s <= c * s) by (nonlinear_arith)
            requires
                i + 1 <= c,
                s > 0,
        ;
    }
}

/// A file whose length is an exact multiple `k` of the segment size gets
/// `k + 1` segments, and the last of them is empty: it starts and ends at
/// the end of the file.
pub proof fn exact_multiple_has_empty_last_segment(k: nat)
    ensures
        segment_count_of(k * SEGMENT_SIZE as nat) == k + 1,
        segment_start(k) == k * SEGMENT_SIZE as nat,
        segment_end(k * SEGMENT_SIZE as nat, k) == k * SEGMENT_SIZE as nat,
{
    vstd::arithmetic::div_mod::lemma_div_multiples_vanish(k as int, SEGMENT_SIZE as int);
}

} // verus!
