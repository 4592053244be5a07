//! The fingerprint under which a response is stored.

use vstd::prelude::*;

verus! {

/// How many bytes of a fingerprint give the length of the tag.
pub const TAG_LENGTH_BYTES: usize = 8;

/// The last `width` digits of `n` to the base 256, the most significant
/// first.
pub open spec fn be_bytes(n: nat, width: nat) -> Seq<u8>
    decreases width,
{
    if width == 0 {
        Seq::empty()
    } else {
        be_bytes(n / 256, (width - 1) as nat).push((n % 256) as u8)
    }
}

/// The number whose digits to the base 256 are `bytes`, the most significant
/// first.
pub open spec fn be_value(bytes: Seq<u8>) -> nat
    decreases bytes.len(),
{
    if bytes.len() == 0 {
        0
    } else {
        be_value(bytes.drop_last()) * 256 + bytes.last() as nat
    }
}

/// Whether `n` has at most `width` digits to the base 256.
pub open spec fn fits(n: nat, width: nat) -> bool
    decreases width,
{
    if width == 0 {
        n == 0
    } else {
        fits(n / 256, (width - 1) as nat)
    }
}

/// Digits that were written can be read back.
pub proof fn lemma_be_round_trip(n: nat, width: nat)
    requires
        fits(n, width),
    ensures
        be_bytes(n, width).len() == width,
        be_value(be_bytes(n, width)) == n,
    decreases width,
{
    if width > 0 {
        lemma_be_round_trip(n / 256, (width - 1) as nat);
        let head = be_bytes(n / 256, (width - 1) as nat);
        assert(be_bytes(n, width).drop_last() =~= head);
    }
}

/// What a [`CacheKey`] is made of.
pub struct CacheKeyView {
    /// Names the shape of the request.
    pub tag: Seq<u8>,
    /// The request's own key, encoded.
    pub key: Seq<u8>,
}

impl CacheKeyView {
    /// The bytes under which the store holds the entry: the length of the
    /// tag in eight bytes, the tag, then the key.
    pub open spec fn fingerprint(self) -> Seq<u8> {
        be_bytes(self.tag.len(), TAG_LENGTH_BYTES as nat) + self.tag + self.key
    }
}

/// Two keys with the same fingerprint have the same tag and the same encoded
/// key: requests of different shapes, or with different keys, are never
/// stored under the same bytes.
pub proof fn lemma_fingerprint_is_injective(a: CacheKeyView, b: CacheKeyView)
    requires
        a.tag.len() <= usize::MAX,
        b.tag.len() <= usize::MAX,
        a.fingerprint() == b.fingerprint(),
    ensures
        a == b,
{
    let width = TAG_LENGTH_BYTES as nat;
    let fa = a.fingerprint();
    let fb = b.fingerprint();
    lemma_usize_fits(a.tag.len());
    lemma_usize_fits(b.tag.len());
    lemma_be_round_trip(a.tag.len(), width);
    lemma_be_round_trip(b.tag.len(), width);
    assert(fa.subrange(0, width as int) =~= be_bytes(a.tag.len(), width));
    assert(fb.subrange(0, width as int) =~= be_bytes(b.tag.len(), width));
    let end = width + a.tag.len();
    assert(fa.subrange(width as int, end as int) =~= a.tag);
    assert(fb.subrange(width as int, end as int) =~= b.tag);
    assert(fa.subrange(end as int, fa.len() as int) =~= a.key);
    assert(fb.subrange(end as int, fb.len() as int) =~= b.key);
}

/// A length that a `usize` can hold has at most eight digits to the base 256.
pub proof fn lemma_usize_fits(n: nat)
    requires
        n <= usize::MAX,
    ensures
        fits(n, TAG_LENGTH_BYTES as nat),
{
    reveal_with_fuel(fits, 9);
}

/// The fingerprint of a request: a tag that names the shape of the request,
/// and the request's own key, encoded.
#[derive(Debug, Clone)]
pub struct CacheKey {
    tag: Vec<u8>,
    key: Vec<u8>,
}

impl View for CacheKey {
    type V = CacheKeyView;

    closed spec fn view(&self) -> CacheKeyView {
        CacheKeyView { tag: self.tag@, key: self.key@ }
    }
}

impl CacheKey {
    /// The fingerprint of the request whose encoded key is `key` and whose
    /// shape is named by `tag`.
    pub fn new(tag: Vec<u8>, key: Vec<u8>) -> (cache_key: Self)
        ensures
            cache_key@ == (CacheKeyView { tag: tag@, key: key@ }),
    {
        CacheKey { tag, key }
    }

    /// The bytes under which the store holds the entry.
    pub fn to_bytes(&self) -> (bytes: Vec<u8>)
        ensures
            bytes@ == self@.fingerprint(),
    {
        let mut bytes: Vec<u8> = Vec::new();
        push_be(&mut bytes, self.tag.len() as u64, TAG_LENGTH_BYTES);
        let ghost prefix = bytes@;
        let mut i: usize = 0;
        while i < self.tag.len()
            invariant
                i <= self.tag.len(),
                bytes@ == prefix + self.tag@.take(i as int),
            decreases self.tag.len() - i,
        {
            bytes.push(self.tag[i]);
            i += 1;
        }
        let ghost with_tag = bytes@;
        let mut j: usize = 0;
        while j < self.key.len()
            invariant
                j <= self.key.len(),
                bytes@ == with_tag + self.key@.take(j as int),
            decreases self.key.len() - j,
        {
            bytes.push(self.key[j]);
            j += 1;
        }
        bytes
    }
}

/// Appends the last `width` digits of `n` to the base 256, the most
/// significant first.
fn push_be(out: &mut Vec<u8>, n: u64, width: usize)
    ensures
        final(out)@ == old(out)@ + be_bytes(n as nat, width as nat),
    decreases width,
{
    if width > 0 {
        push_be(out, n / 256, width - 1);
        out.push((n % 256) as u8);
    }
}

} // verus!
