//! How a record is laid out in bytes.
//!
//! A number takes eight bytes, least significant first. A text is its length
//! in bytes as a number, then its UTF-8 bytes. A list of identifiers is its
//! length as a number, then each identifier. A time of update is one byte,
//! one when there is a time and zero when there is none, then a number. A
//! record is its fields in the order of their declaration.
use vstd::prelude::*;
use vstd::bytes::*;
use vstd::slice::*;
use vstd::utf8::*;

verus! {

/// The bytes of a number.
pub open spec fn u64_bytes(v: u64) -> Seq<u8> {
    spec_u64_to_le_bytes(v)
}

/// Reads a number from the front of the bytes; gives the number and the bytes
/// that follow it.
#[verifier::opaque]
pub open spec fn take_u64(b: Seq<u8>) -> Option<(u64, Seq<u8>)> {
    if b.len() >= 8 {
        Some((spec_u64_from_le_bytes(b.subrange(0, 8)), b.skip(8)))
    } else {
        None
    }
}

/// The bytes of a text.
#[verifier::opaque]
pub open spec fn text_bytes(t: Seq<char>) -> Seq<u8> {
    u64_bytes(encode_utf8(t).len() as u64) + encode_utf8(t)
}

/// Reads a text from the front of the bytes.
#[verifier::opaque]
pub open spec fn take_text(b: Seq<u8>) -> Option<(Seq<char>, Seq<u8>)> {
    match take_u64(b) {
        Some((n, rest)) => if n <= rest.len() && valid_utf8(rest.take(n as int)) {
            Some((decode_utf8(rest.take(n as int)), rest.skip(n as int)))
        } else {
            None
        },
        None => None,
    }
}

/// The bytes of the identifiers of a list, one after the other.
pub open spec fn ids_body(l: Seq<u64>) -> Seq<u8> {
    Seq::new(8 * l.len(), |j: int| u64_bytes(l[j / 8])[j % 8])
}

/// The bytes of a list of identifiers.
#[verifier::opaque]
pub open spec fn ids_bytes(l: Seq<u64>) -> Seq<u8> {
    u64_bytes(l.len() as u64) + ids_body(l)
}

/// The first `n` identifiers that the bytes hold, one after the other.
pub open spec fn ids_of_body(b: Seq<u8>, n: nat) -> Seq<u64> {
    Seq::new(n, |i: int| spec_u64_from_le_bytes(b.subrange(8 * i, 8 * i + 8)))
}

/// Reads a list of identifiers from the front of the bytes.
#[verifier::opaque]
pub open spec fn take_ids(b: Seq<u8>) -> Option<(Seq<u64>, Seq<u8>)> {
    match take_u64(b) {
        Some((n, rest)) => if 8 * n <= rest.len() {
            Some((ids_of_body(rest, n as nat), rest.skip(8 * n)))
        } else {
            None
        },
        None => None,
    }
}

/// The bytes of a time of update.
#[verifier::opaque]
pub open spec fn stamp_bytes(stamp: Option<u64>) -> Seq<u8> {
    match stamp {
        Some(at) => seq![1u8] + u64_bytes(at),
        None => seq![0u8] + u64_bytes(0),
    }
}

/// Reads a time of update from the front of the bytes.
#[verifier::opaque]
pub open spec fn take_stamp(b: Seq<u8>) -> Option<(Option<u64>, Seq<u8>)> {
    if b.len() >= 9 {
        if b[0] == 0 {
            Some((None, b.skip(9)))
        } else if b[0] == 1 {
            Some((Some(spec_u64_from_le_bytes(b.subrange(1, 9))), b.skip(9)))
        } else {
            None
        }
    } else {
        None
    }
}

/// The number of bytes that a text takes.
pub open spec fn text_size(t: Seq<char>) -> nat {
    8 + encode_utf8(t).len()
}

/// The number of bytes that a list of identifiers takes.
pub open spec fn ids_size(l: Seq<u64>) -> nat {
    8 + 8 * l.len()
}

/// A number read right after it was written is the same number.
pub proof fn lemma_take_u64(v: u64, rest: Seq<u8>)
    ensures
        u64_bytes(v).len() == 8,
        take_u64(u64_bytes(v) + rest) == Some((v, rest)),
{
    reveal(take_u64);
    lemma_auto_spec_u64_to_from_le_bytes();
    let b = u64_bytes(v) + rest;
    assert(b.subrange(0, 8) =~= u64_bytes(v));
    assert(b.skip(8) =~= rest);
}

/// A text read right after it was written is the same text.
pub proof fn lemma_take_text(t: Seq<char>, rest: Seq<u8>)
    requires
        encode_utf8(t).len() <= u64::MAX,
    ensures
        text_bytes(t).len() == text_size(t),
        take_text(text_bytes(t) + rest) == Some((t, rest)),
{
    reveal(take_text);
    reveal(text_bytes);
    let body = encode_utf8(t);
    let n = body.len() as u64;
    lemma_take_u64(n, body + rest);
    assert(text_bytes(t) + rest =~= u64_bytes(n) + (body + rest));
    assert((body + rest).take(n as int) =~= body);
    assert((body + rest).skip(n as int) =~= rest);
    encode_utf8_valid_utf8(t);
    encode_utf8_decode_utf8(t);
}

/// The identifiers of a list with one more are those of the list, then the
/// new one.
pub proof fn lemma_ids_body_push(l: Seq<u64>, v: u64)
    ensures
        ids_body(l.push(v)) == ids_body(l) + u64_bytes(v),
        ids_body(l).len() == 8 * l.len(),
{
    lemma_auto_spec_u64_to_from_le_bytes();
    let whole = ids_body(l.push(v));
    let parts = ids_body(l) + u64_bytes(v);
    assert(whole.len() == parts.len());
    assert forall|j: int| 0 <= j < whole.len() implies whole[j] == parts[j] by {
        if j < 8 * l.len() {
            assert(j / 8 < l.len());
            assert(l.push(v)[j / 8] == l[j / 8]);
        } else {
            assert(j / 8 == l.len());
            assert(j % 8 == j - 8 * l.len());
        }
    }
    assert(whole =~= parts);
}

/// A list of identifiers read right after it was written is the same list.
pub proof fn lemma_take_ids(l: Seq<u64>, rest: Seq<u8>)
    requires
        8 * l.len() <= u64::MAX,
    ensures
        ids_bytes(l).len() == ids_size(l),
        take_ids(ids_bytes(l) + rest) == Some((l, rest)),
{
    reveal(take_ids);
    reveal(ids_bytes);
    lemma_auto_spec_u64_to_from_le_bytes();
    let body = ids_body(l);
    let n = l.len() as u64;
    lemma_take_u64(n, body + rest);
    assert(ids_bytes(l) + rest =~= u64_bytes(n) + (body + rest));
    assert((body + rest).skip(8 * n) =~= rest);
    let read = ids_of_body(body + rest, n as nat);
    assert forall|i: int| 0 <= i < l.len() implies read[i] == l[i] by {
        let piece = (body + rest).subrange(8 * i, 8 * i + 8);
        assert forall|k: int| 0 <= k < 8 implies piece[k] == u64_bytes(l[i])[k] by {
            assert((8 * i + k) / 8 == i);
            assert((8 * i + k) % 8 == k);
        }
        assert(piece =~= u64_bytes(l[i]));
    }
    assert(read =~= l);
}

/// A time of update read right after it was written is the same.
pub proof fn lemma_take_stamp(stamp: Option<u64>, rest: Seq<u8>)
    ensures
        stamp_bytes(stamp).len() == 9,
        take_stamp(stamp_bytes(stamp) + rest) == Some((stamp, rest)),
{
    reveal(take_stamp);
    reveal(stamp_bytes);
    lemma_auto_spec_u64_to_from_le_bytes();
    let b = stamp_bytes(stamp) + rest;
    assert(b.skip(9) =~= rest);
    match stamp {
        Some(at) => {
            assert(b.subrange(1, 9) =~= u64_bytes(at));
            assert(b[0] == 1);
        },
        None => {
            assert(b[0] == 0);
        },
    }
}

/// Calls `String::from_utf8`, which succeeds exactly on valid UTF-8 and then
/// gives the string made of those bytes.
#[verifier::external_body]
fn text_from_utf8(bytes: Vec<u8>) -> (text: Option<String>)
    ensures
        text is Some <==> valid_utf8(bytes@),
        text matches Some(s) ==> encode_utf8(s@) == bytes@,
{
    match String::from_utf8(bytes) {
        Ok(s) => Some(s),
        Err(_) => None,
    }
}

/// Writes a number at the end of the bytes.
pub fn put_u64(out: &mut Vec<u8>, v: u64)
    ensures
        final(out)@ == old(out)@ + u64_bytes(v),
{
    let bytes = u64_to_le_bytes(v);
    out.extend_from_slice(bytes.as_slice());
}

/// Writes a text at the end of the bytes.
pub fn put_text(out: &mut Vec<u8>, t: &String)
    ensures
        final(out)@ == old(out)@ + text_bytes(t@),
{
    proof {
        reveal(text_bytes);
    }
    let body = t.as_str().as_bytes();
    put_u64(out, body.len() as u64);
    out.extend_from_slice(body);
    assert(out@ =~= old(out)@ + text_bytes(t@));
}

/// Writes a list of identifiers at the end of the bytes.
pub fn put_ids(out: &mut Vec<u8>, l: &Vec<u64>)
    ensures
        final(out)@ == old(out)@ + ids_bytes(l@),
{
    proof {
        reveal(ids_bytes);
    }
    put_u64(out, l.len() as u64);
    let ghost start = out@;
    let mut i: usize = 0;
    assert(ids_body(l@.take(0)) =~= Seq::<u8>::empty());
    assert(out@ =~= start + ids_body(l@.take(0)));
    while i < l.len()
        invariant
            i <= l.len(),
            out@ == start + ids_body(l@.take(i as int)),
        decreases l.len() - i,
    {
        put_u64(out, l[i]);
        proof {
            lemma_ids_body_push(l@.take(i as int), l[i as int]);
            assert(l@.take(i as int).push(l[i as int]) =~= l@.take(i + 1));
            assert(out@ =~= start + ids_body(l@.take(i + 1)));
        }
        i += 1;
    }
    assert(l@.take(i as int) =~= l@);
    assert(out@ =~= old(out)@ + ids_bytes(l@));
}

/// Writes a time of update at the end of the bytes.
pub fn put_stamp(out: &mut Vec<u8>, stamp: Option<u64>)
    ensures
        final(out)@ == old(out)@ + stamp_bytes(stamp),
{
    proof {
        reveal(stamp_bytes);
    }
    match stamp {
        Some(at) => {
            out.push(1);
            put_u64(out, at);
        },
        None => {
            out.push(0);
            put_u64(out, 0);
        },
    }
    assert(out@ =~= old(out)@ + stamp_bytes(stamp));
}

/// Reads a number at a place in the bytes; gives the number and the place
/// after it.
pub fn get_u64(bytes: &[u8], at: usize) -> (r: Option<(u64, usize)>)
    requires
        at <= bytes@.len(),
    ensures
        match take_u64(bytes@.skip(at as int)) {
            Some((v, rest)) => r matches Some((read, next)) && read == v && next == at + 8 && next
                <= bytes@.len() && rest == bytes@.skip(next as int),
            None => r is None,
        },
{
    proof {
        reveal(take_u64);
    }
    if bytes.len() - at < 8 {
        return None;
    }
    let piece = slice_subrange(bytes, at, at + 8);
    let v = u64_from_le_bytes(piece);
    proof {
        let b = bytes@.skip(at as int);
        assert(b.subrange(0, 8) =~= piece@);
        assert(b.skip(8) =~= bytes@.skip(at + 8));
    }
    Some((v, at + 8))
}

/// Reads a text at a place in the bytes; gives the text and the place after
/// it.
pub fn get_text(bytes: &[u8], at: usize) -> (r: Option<(String, usize)>)
    requires
        at <= bytes@.len(),
    ensures
        match take_text(bytes@.skip(at as int)) {
            Some((t, rest)) => r matches Some((s, next)) && s@ == t && next <= bytes@.len() && rest
                == bytes@.skip(next as int),
            None => r is None,
        },
{
    proof {
        reveal(take_text);
    }
    let (n, body_at) = match get_u64(bytes, at) {
        Some(read) => read,
        None => { return None; },
    };
    if n > (bytes.len() - body_at) as u64 {
        return None;
    }
    let len = n as usize;
    let piece = slice_to_vec(slice_subrange(bytes, body_at, body_at + len));
    proof {
        let rest = bytes@.skip(body_at as int);
        assert(rest.take(n as int) =~= piece@);
        assert(rest.skip(n as int) =~= bytes@.skip(body_at + len));
    }
    match text_from_utf8(piece) {
        Some(s) => {
            proof {
                encode_utf8_decode_utf8(s@);
            }
            Some((s, body_at + len))
        },
        None => None,
    }
}

/// Reads a list of identifiers at a place in the bytes; gives the list and
/// the place after it.
pub fn get_ids(bytes: &[u8], at: usize) -> (r: Option<(Vec<u64>, usize)>)
    requires
        at <= bytes@.len(),
    ensures
        match take_ids(bytes@.skip(at as int)) {
            Some((l, rest)) => r matches Some((v, next)) && v@ == l && next <= bytes@.len() && rest
                == bytes@.skip(next as int),
            None => r is None,
        },
{
    proof {
        reveal(take_ids);
    }
    let (n, body_at) = match get_u64(bytes, at) {
        Some(read) => read,
        None => { return None; },
    };
    if n > ((bytes.len() - body_at) / 8) as u64 {
        return None;
    }
    let count = n as usize;
    let ghost rest = bytes@.skip(body_at as int);
    let mut ids: Vec<u64> = Vec::new();
    let mut i: usize = 0;
    assert(ids@ =~= ids_of_body(rest, 0));
    while i < count
        invariant
            i <= count,
            bytes@.len() <= usize::MAX,
            body_at + 8 * count <= bytes@.len(),
            rest == bytes@.skip(body_at as int),
            ids@ == ids_of_body(rest, i as nat),
        decreases count - i,
    {
        let piece = slice_subrange(bytes, body_at + 8 * i, body_at + 8 * i + 8);
        let v = u64_from_le_bytes(piece);
        ids.push(v);
        proof {
            assert(rest.subrange(8 * i, 8 * i + 8) =~= piece@);
            assert(ids@ =~= ids_of_body(rest, (i + 1) as nat));
        }
        i += 1;
    }
    proof {
        assert(rest.skip(8 * n) =~= bytes@.skip(body_at + 8 * count));
    }
    Some((ids, body_at + 8 * count))
}

/// Reads a time of update at a place in the bytes; gives it and the place
/// after it.
pub fn get_stamp(bytes: &[u8], at: usize) -> (r: Option<(Option<u64>, usize)>)
    requires
        at <= bytes@.len(),
    ensures
        match take_stamp(bytes@.skip(at as int)) {
            Some((stamp, rest)) => r matches Some((read, next)) && read == stamp && next == at + 9
                && next <= bytes@.len() && rest == bytes@.skip(next as int),
            None => r is None,
        },
{
    proof {
        reveal(take_stamp);
    }
    if bytes.len() - at < 9 {
        return None;
    }
    let tag = bytes[at];
    let piece = slice_subrange(bytes, at + 1, at + 9);
    let v = u64_from_le_bytes(piece);
    proof {
        let b = bytes@.skip(at as int);
        assert(b[0] == tag);
        assert(b.subrange(1, 9) =~= piece@);
        assert(b.skip(9) =~= bytes@.skip(at + 9));
    }
    if tag == 0 {
        Some((None, at + 9))
    } else if tag == 1 {
        Some((Some(v), at + 9))
    } else {
        None
    }
}

/// Counts the bytes that a text takes.
pub fn text_len(t: &String) -> (n: u128)
    ensures
        n == text_size(t@),
        n <= 8 + usize::MAX,
{
    let body = t.as_str().as_bytes();
    8 + body.len() as u128
}

/// Counts the bytes that a list of identifiers takes.
pub fn ids_len(l: &Vec<u64>) -> (n: u128)
    ensures
        n == ids_size(l@),
        n <= 8 + 8 * usize::MAX,
{
    8 + 8 * (l.len() as u128)
}

} // verus!
