use vstd::prelude::*;
use vstd::utf8::*;

verus! {

broadcast use {encode_utf8_valid_utf8, encode_utf8_decode_utf8, is_char_boundary_start_end_of_seq};

/// The largest number of UTF-8 bytes a window title may hold.
pub const MAX_TITLE_BYTES: usize = 1024;

/// The largest character boundary of `bytes` that is not after byte `i`.
pub open spec fn boundary_at_or_before(bytes: Seq<u8>, i: int) -> int
    decreases i,
{
    if i <= 0 {
        0
    } else if is_char_boundary(bytes, i) {
        i
    } else {
        boundary_at_or_before(bytes, i - 1)
    }
}

/// The number of leading bytes of an encoded title that are kept: all of them when they
/// fit in `MAX_TITLE_BYTES`, else up to the last character boundary within the limit.
pub open spec fn title_cut_point(bytes: Seq<u8>) -> int {
    if bytes.len() <= MAX_TITLE_BYTES {
        bytes.len() as int
    } else {
        boundary_at_or_before(bytes, MAX_TITLE_BYTES as int)
    }
}

/// The UTF-8 bytes of a title once it is limited to `MAX_TITLE_BYTES`.
pub open spec fn truncated_title_bytes(bytes: Seq<u8>) -> Seq<u8> {
    bytes.subrange(0, title_cut_point(bytes))
}

/// `boundary_at_or_before` is the last character boundary in `[0, i]`.
pub proof fn lemma_boundary_at_or_before(bytes: Seq<u8>, i: int)
    requires
        valid_utf8(bytes),
        0 <= i <= bytes.len(),
    ensures
        0 <= boundary_at_or_before(bytes, i) <= i,
        is_char_boundary(bytes, boundary_at_or_before(bytes, i)),
        forall|j: int|
            boundary_at_or_before(bytes, i) < j <= i ==> !is_char_boundary(bytes, j),
    decreases i,
{
    if i > 0 && !is_char_boundary(bytes, i) {
        lemma_boundary_at_or_before(bytes, i - 1);
    }
}

/// Limiting a title keeps the longest prefix of it whose encoding fits in
/// `MAX_TITLE_BYTES` bytes and that ends on a character boundary.
pub proof fn lemma_title_cut_point(bytes: Seq<u8>)
    requires
        valid_utf8(bytes),
    ensures
        0 <= title_cut_point(bytes) <= bytes.len(),
        title_cut_point(bytes) <= MAX_TITLE_BYTES,
        is_char_boundary(bytes, title_cut_point(bytes)),
        bytes.len() <= MAX_TITLE_BYTES ==> title_cut_point(bytes) == bytes.len(),
        forall|j: int|
            title_cut_point(bytes) < j <= MAX_TITLE_BYTES && j <= bytes.len()
                ==> !is_char_boundary(bytes, j),
{
    if bytes.len() > MAX_TITLE_BYTES {
        lemma_boundary_at_or_before(bytes, MAX_TITLE_BYTES as int);
    }
}

/// Limits a window title to `MAX_TITLE_BYTES` bytes of UTF-8, cutting at the last character
/// boundary that fits, so that it does not blow up the protocol messages.
pub fn truncate_title(title: String) -> (t: String)
    ensures
        encode_utf8(t@) == truncated_title_bytes(encode_utf8(title@)),
        t@.len() <= title@.len(),
        t@ == title@.take(t@.len() as int),
{
    let ghost bytes = encode_utf8(title@);
    proof {
        lemma_title_cut_point(bytes);
    }
    if title.as_str().as_bytes().len() <= MAX_TITLE_BYTES {
        proof {
            assert(bytes.subrange(0, bytes.len() as int) =~= bytes);
        }
        return title;
    }
    let mut new_len: usize = MAX_TITLE_BYTES;
    while !title.as_str().is_char_boundary(new_len)
        invariant
            bytes == encode_utf8(title@),
            bytes.len() > MAX_TITLE_BYTES,
            0 <= new_len <= MAX_TITLE_BYTES,
            boundary_at_or_before(bytes, MAX_TITLE_BYTES as int)
                == boundary_at_or_before(bytes, new_len as int),
        decreases new_len,
    {
        new_len = new_len - 1;
    }
    let (head, _tail) = title.as_str().split_at(new_len);
    let t = head.to_owned();
    proof {
        assert(boundary_at_or_before(bytes, new_len as int) == new_len as int);
        assert(encode_utf8(t@) == bytes.subrange(0, new_len as int));
        decode_utf8_split(bytes, new_len as int);
        assert(t@ == decode_utf8(bytes.subrange(0, new_len as int)));
        assert(title@ =~= t@ + decode_utf8(bytes.subrange(new_len as int, bytes.len() as int)));
        assert(t@ =~= title@.take(t@.len() as int));
    }
    t
}

} // verus!
