//! Primitive encodings shared by commands and messages: little-endian
//! integers, length-prefixed byte strings, optional values and lists.
use vstd::bytes::*;
use vstd::prelude::*;

verus! {

/// Encoding of a `u64`: eight bytes, least significant first.
pub open spec fn enc_u64(x: u64) -> Seq<u8> {
    spec_u64_to_le_bytes(x)
}

/// Encoding of a `u32`: four bytes, least significant first.
pub open spec fn enc_u32(x: u32) -> Seq<u8> {
    spec_u32_to_le_bytes(x)
}

/// Encoding of a byte string: its length as a `u64`, then its bytes.
pub open spec fn enc_bytes(b: Seq<u8>) -> Seq<u8> {
    enc_u64(b.len() as u64) + b
}

/// Encoding of an optional byte string: a tag byte 0 for absent, or 1
/// followed by the string.
pub open spec fn enc_opt_bytes(o: Option<Seq<u8>>) -> Seq<u8> {
    match o {
        None => seq![0u8],
        Some(b) => seq![1u8] + enc_bytes(b),
    }
}

/// The byte strings of a list, one after another.
pub open spec fn enc_items(l: Seq<Seq<u8>>) -> Seq<u8>
    decreases l.len(),
{
    if l.len() == 0 {
        Seq::empty()
    } else {
        enc_items(l.drop_last()) + enc_bytes(l.last())
    }
}

/// Encoding of a list of byte strings: the count as a `u64`, then the items.
pub open spec fn enc_list(l: Seq<Seq<u8>>) -> Seq<u8> {
    enc_u64(l.len() as u64) + enc_items(l)
}

/// Encoding of an optional list: a tag byte 0 for absent, or 1 followed by
/// the list.
pub open spec fn enc_opt_list(o: Option<Seq<Seq<u8>>>) -> Seq<u8> {
    match o {
        None => seq![0u8],
        Some(l) => seq![1u8] + enc_list(l),
    }
}

/// A byte string whose length fits the `u64` prefix.
pub open spec fn bytes_ok(b: Seq<u8>) -> bool {
    b.len() <= u64::MAX
}

/// A list whose count and items fit their `u64` prefixes.
pub open spec fn list_ok(l: Seq<Seq<u8>>) -> bool {
    l.len() <= u64::MAX && forall|i: int| 0 <= i < l.len() ==> bytes_ok(#[trigger] l[i])
}

pub open spec fn parse_u8(s: Seq<u8>) -> Option<(u8, Seq<u8>)> {
    if s.len() >= 1 {
        Some((s[0], s.skip(1)))
    } else {
        None
    }
}

pub open spec fn parse_u64(s: Seq<u8>) -> Option<(u64, Seq<u8>)> {
    if s.len() >= 8 {
        Some((spec_u64_from_le_bytes(s.take(8)), s.skip(8)))
    } else {
        None
    }
}

pub open spec fn parse_u32(s: Seq<u8>) -> Option<(u32, Seq<u8>)> {
    if s.len() >= 4 {
        Some((spec_u32_from_le_bytes(s.take(4)), s.skip(4)))
    } else {
        None
    }
}

pub open spec fn parse_bytes(s: Seq<u8>) -> Option<(Seq<u8>, Seq<u8>)> {
    match parse_u64(s) {
        Some((n, r)) => if n <= r.len() {
            Some((r.take(n as int), r.skip(n as int)))
        } else {
            None
        },
        None => None,
    }
}

pub open spec fn parse_opt_bytes(s: Seq<u8>) -> Option<(Option<Seq<u8>>, Seq<u8>)> {
    match parse_u8(s) {
        Some((0, r)) => Some((None, r)),
        Some((1, r)) => match parse_bytes(r) {
            Some((b, r2)) => Some((Some(b), r2)),
            None => None,
        },
        _ => None,
    }
}

/// Reads `k` byte strings one after another.
pub open spec fn parse_items(s: Seq<u8>, k: nat) -> Option<(Seq<Seq<u8>>, Seq<u8>)>
    decreases k,
{
    if k == 0 {
        Some((Seq::empty(), s))
    } else {
        match parse_items(s, (k - 1) as nat) {
            Some((l, r)) => match parse_bytes(r) {
                Some((b, r2)) => Some((l.push(b), r2)),
                None => None,
            },
            None => None,
        }
    }
}

pub open spec fn parse_list(s: Seq<u8>) -> Option<(Seq<Seq<u8>>, Seq<u8>)> {
    match parse_u64(s) {
        Some((n, r)) => parse_items(r, n as nat),
        None => None,
    }
}

pub open spec fn parse_opt_list(s: Seq<u8>) -> Option<(Option<Seq<Seq<u8>>>, Seq<u8>)> {
    match parse_u8(s) {
        Some((0, r)) => Some((None, r)),
        Some((1, r)) => match parse_list(r) {
            Some((l, r2)) => Some((Some(l), r2)),
            None => None,
        },
        _ => None,
    }
}

pub proof fn lemma_u8(x: u8, rest: Seq<u8>)
    ensures
        parse_u8(seq![x] + rest) == Some((x, rest)),
{
    assert((seq![x] + rest).skip(1) =~= rest);
}

pub proof fn lemma_u64(x: u64, rest: Seq<u8>)
    ensures
        enc_u64(x).len() == 8,
        parse_u64(enc_u64(x) + rest) == Some((x, rest)),
{
    lemma_auto_spec_u64_to_from_le_bytes();
    let s = enc_u64(x) + rest;
    assert(s.take(8) =~= enc_u64(x));
    assert(s.skip(8) =~= rest);
}

pub proof fn lemma_u32(x: u32, rest: Seq<u8>)
    ensures
        enc_u32(x).len() == 4,
        parse_u32(enc_u32(x) + rest) == Some((x, rest)),
{
    lemma_auto_spec_u32_to_from_le_bytes();
    let s = enc_u32(x) + rest;
    assert(s.take(4) =~= enc_u32(x));
    assert(s.skip(4) =~= rest);
}

pub proof fn lemma_bytes(b: Seq<u8>, rest: Seq<u8>)
    requires
        bytes_ok(b),
    ensures
        parse_bytes(enc_bytes(b) + rest) == Some((b, rest)),
{
    let n = b.len() as u64;
    assert(enc_bytes(b) + rest =~= enc_u64(n) + (b + rest));
    lemma_u64(n, b + rest);
    assert((b + rest).take(n as int) =~= b);
    assert((b + rest).skip(n as int) =~= rest);
}

pub proof fn lemma_opt_bytes(o: Option<Seq<u8>>, rest: Seq<u8>)
    requires
        o matches Some(b) ==> bytes_ok(b),
    ensures
        parse_opt_bytes(enc_opt_bytes(o) + rest) == Some((o, rest)),
{
    match o {
        None => lemma_u8(0, rest),
        Some(b) => {
            assert(enc_opt_bytes(o) + rest =~= seq![1u8] + (enc_bytes(b) + rest));
            lemma_u8(1, enc_bytes(b) + rest);
            lemma_bytes(b, rest);
        },
    }
}

pub proof fn lemma_items(l: Seq<Seq<u8>>, rest: Seq<u8>)
    requires
        list_ok(l),
    ensures
        parse_items(enc_items(l) + rest, l.len()) == Some((l, rest)),
    decreases l.len(),
{
    if l.len() == 0 {
        assert(enc_items(l) + rest =~= rest);
        assert(l =~= Seq::<Seq<u8>>::empty());
    } else {
        let init = l.drop_last();
        let tail = enc_bytes(l.last()) + rest;
        assert(enc_items(l) + rest =~= enc_items(init) + tail);
        assert(list_ok(init)) by {
            assert forall|i: int| 0 <= i < init.len() implies bytes_ok(#[trigger] init[i]) by {
                assert(init[i] == l[i]);
            }
        }
        lemma_items(init, tail);
        assert(bytes_ok(l[l.len() - 1]));
        lemma_bytes(l.last(), rest);
        assert(init.push(l.last()) =~= l);
    }
}

pub proof fn lemma_list(l: Seq<Seq<u8>>, rest: Seq<u8>)
    requires
        list_ok(l),
    ensures
        parse_list(enc_list(l) + rest) == Some((l, rest)),
{
    assert(enc_list(l) + rest =~= enc_u64(l.len() as u64) + (enc_items(l) + rest));
    lemma_u64(l.len() as u64, enc_items(l) + rest);
    lemma_items(l, rest);
}

pub proof fn lemma_opt_list(o: Option<Seq<Seq<u8>>>, rest: Seq<u8>)
    requires
        o matches Some(l) ==> list_ok(l),
    ensures
        parse_opt_list(enc_opt_list(o) + rest) == Some((o, rest)),
{
    match o {
        None => lemma_u8(0, rest),
        Some(l) => {
            assert(enc_opt_list(o) + rest =~= seq![1u8] + (enc_list(l) + rest));
            lemma_u8(1, enc_list(l) + rest);
            lemma_list(l, rest);
        },
    }
}


/// What a reader at position `pos` of `buf` returned, against what the
/// parser reads from the bytes that start there.
pub open spec fn read_matches<T>(
    r: Option<(T, usize)>,
    p: Option<(T, Seq<u8>)>,
    buf: Seq<u8>,
    pos: int,
) -> bool {
    match r {
        None => p is None,
        Some((v, q)) => pos <= q <= buf.len() && p == Some((v, buf.skip(q as int))),
    }
}

pub open spec fn read_bytes_matches(
    r: Option<(Vec<u8>, usize)>,
    p: Option<(Seq<u8>, Seq<u8>)>,
    buf: Seq<u8>,
    pos: int,
) -> bool {
    match r {
        None => p is None,
        Some((v, q)) => pos <= q <= buf.len() && p == Some((v@, buf.skip(q as int))),
    }
}

/// Appends the bytes of `b` to `out`.
pub fn append_slice(out: &mut Vec<u8>, b: &[u8])
    ensures
        final(out)@ == old(out)@ + b@,
{
    let mut i: usize = 0;
    while i < b.len()
        invariant
            i <= b@.len(),
            out@ == old(out)@ + b@.take(i as int),
        decreases b@.len() - i,
    {
        out.push(b[i]);
        i = i + 1;
        assert(b@.take(i as int) =~= b@.take(i - 1) + seq![b@[i - 1]]);
    }
    assert(b@.take(i as int) =~= b@);
}

pub fn write_u8(out: &mut Vec<u8>, x: u8)
    ensures
        final(out)@ == old(out)@ + seq![x],
{
    out.push(x);
}

pub fn write_u64(out: &mut Vec<u8>, x: u64)
    ensures
        final(out)@ == old(out)@ + enc_u64(x),
{
    let b = u64_to_le_bytes(x);
    append_slice(out, b.as_slice());
}

pub fn write_u32(out: &mut Vec<u8>, x: u32)
    ensures
        final(out)@ == old(out)@ + enc_u32(x),
{
    let b = u32_to_le_bytes(x);
    append_slice(out, b.as_slice());
}

pub fn write_bytes(out: &mut Vec<u8>, b: &[u8])
    ensures
        final(out)@ == old(out)@ + enc_bytes(b@),
{
    write_u64(out, b.len() as u64);
    append_slice(out, b);
    assert(final(out)@ =~= old(out)@ + enc_bytes(b@));
}

pub fn write_opt_bytes(out: &mut Vec<u8>, o: &Option<Vec<u8>>)
    ensures
        final(out)@ == old(out)@ + enc_opt_bytes(opt_view(*o)),
{
    match o {
        None => write_u8(out, 0),
        Some(b) => {
            write_u8(out, 1);
            write_bytes(out, b.as_slice());
            assert(final(out)@ =~= old(out)@ + enc_opt_bytes(opt_view(*o)));
        },
    }
}

/// The byte strings of a list of vectors.
pub open spec fn list_view(l: Seq<Vec<u8>>) -> Seq<Seq<u8>> {
    l.map_values(|v: Vec<u8>| v@)
}

pub open spec fn opt_view(o: Option<Vec<u8>>) -> Option<Seq<u8>> {
    match o {
        None => None,
        Some(b) => Some(b@),
    }
}

pub open spec fn opt_list_view(o: Option<Vec<Vec<u8>>>) -> Option<Seq<Seq<u8>>> {
    match o {
        None => None,
        Some(l) => Some(list_view(l@)),
    }
}

pub fn write_list(out: &mut Vec<u8>, l: &Vec<Vec<u8>>)
    ensures
        final(out)@ == old(out)@ + enc_list(list_view(l@)),
{
    write_u64(out, l.len() as u64);
    let ghost start = out@;
    let mut i: usize = 0;
    while i < l.len()
        invariant
            i <= l@.len(),
            out@ == start + enc_items(list_view(l@).take(i as int)),
        decreases l@.len() - i,
    {
        write_bytes(out, l[i].as_slice());
        proof {
            let t = list_view(l@).take(i + 1);
            assert(t.drop_last() =~= list_view(l@).take(i as int));
        }
        i = i + 1;
    }
    assert(list_view(l@).take(i as int) =~= list_view(l@));
    assert(final(out)@ =~= old(out)@ + enc_list(list_view(l@)));
}

pub fn write_opt_list(out: &mut Vec<u8>, o: &Option<Vec<Vec<u8>>>)
    ensures
        final(out)@ == old(out)@ + enc_opt_list(opt_list_view(*o)),
{
    match o {
        None => write_u8(out, 0),
        Some(l) => {
            write_u8(out, 1);
            write_list(out, l);
            assert(final(out)@ =~= old(out)@ + enc_opt_list(opt_list_view(*o)));
        },
    }
}

pub fn read_u8(buf: &Vec<u8>, pos: usize) -> (r: Option<(u8, usize)>)
    requires
        pos <= buf@.len(),
    ensures
        read_matches(r, parse_u8(buf@.skip(pos as int)), buf@, pos as int),
{
    if pos < buf.len() {
        assert(buf@.skip(pos as int).skip(1) =~= buf@.skip(pos + 1));
        Some((buf[pos], pos + 1))
    } else {
        None
    }
}

pub fn read_u64(buf: &Vec<u8>, pos: usize) -> (r: Option<(u64, usize)>)
    requires
        pos <= buf@.len(),
    ensures
        read_matches(r, parse_u64(buf@.skip(pos as int)), buf@, pos as int),
{
    if buf.len() - pos >= 8 {
        let x = u64_from_le_bytes(vstd::slice::slice_subrange(buf.as_slice(), pos, pos + 8));
        assert(buf@.skip(pos as int).take(8) =~= buf@.subrange(pos as int, pos + 8));
        assert(buf@.skip(pos as int).skip(8) =~= buf@.skip(pos + 8));
        Some((x, pos + 8))
    } else {
        None
    }
}

pub fn read_u32(buf: &Vec<u8>, pos: usize) -> (r: Option<(u32, usize)>)
    requires
        pos <= buf@.len(),
    ensures
        read_matches(r, parse_u32(buf@.skip(pos as int)), buf@, pos as int),
{
    if buf.len() - pos >= 4 {
        let x = u32_from_le_bytes(vstd::slice::slice_subrange(buf.as_slice(), pos, pos + 4));
        assert(buf@.skip(pos as int).take(4) =~= buf@.subrange(pos as int, pos + 4));
        assert(buf@.skip(pos as int).skip(4) =~= buf@.skip(pos + 4));
        Some((x, pos + 4))
    } else {
        None
    }
}

pub fn read_bytes(buf: &Vec<u8>, pos: usize) -> (r: Option<(Vec<u8>, usize)>)
    requires
        pos <= buf@.len(),
    ensures
        read_bytes_matches(r, parse_bytes(buf@.skip(pos as int)), buf@, pos as int),
{
    match read_u64(buf, pos) {
        None => None,
        Some((n, p)) => {
            assert(buf@.skip(p as int).len() == buf@.len() - p);
            if n <= (buf.len() - p) as u64 {
                let end = p + n as usize;
                let mut v: Vec<u8> = Vec::new();
                append_slice(&mut v, vstd::slice::slice_subrange(buf.as_slice(), p, end));
                assert(buf@.skip(p as int).take(n as int) =~= buf@.subrange(p as int, end as int));
                assert(buf@.skip(p as int).skip(n as int) =~= buf@.skip(end as int));
                Some((v, end))
            } else {
                None
            }
        },
    }
}

pub fn read_opt_bytes(buf: &Vec<u8>, pos: usize) -> (r: Option<(Option<Vec<u8>>, usize)>)
    requires
        pos <= buf@.len(),
    ensures
        match r {
            None => parse_opt_bytes(buf@.skip(pos as int)) is None,
            Some((v, q)) => pos <= q <= buf@.len() && parse_opt_bytes(buf@.skip(pos as int))
                == Some((opt_view(v), buf@.skip(q as int))),
        },
{
    match read_u8(buf, pos) {
        None => None,
        Some((0, p)) => Some((None, p)),
        Some((1, p)) => match read_bytes(buf, p) {
            None => None,
            Some((b, q)) => Some((Some(b), q)),
        },
        Some(_) => None,
    }
}

/// Once a list fails to parse at some count, it fails at every larger one.
pub proof fn lemma_items_fail(s: Seq<u8>, j: nat, m: nat)
    requires
        j <= m,
        parse_items(s, j) is None,
    ensures
        parse_items(s, m) is None,
    decreases m - j,
{
    if j < m {
        lemma_items_fail(s, j, (m - 1) as nat);
    }
}

pub fn read_list(buf: &Vec<u8>, pos: usize) -> (r: Option<(Vec<Vec<u8>>, usize)>)
    requires
        pos <= buf@.len(),
    ensures
        match r {
            None => parse_list(buf@.skip(pos as int)) is None,
            Some((l, q)) => pos <= q <= buf@.len() && parse_list(buf@.skip(pos as int))
                == Some((list_view(l@), buf@.skip(q as int))),
        },
{
    match read_u64(buf, pos) {
        None => None,
        Some((n, p)) => {
            let mut l: Vec<Vec<u8>> = Vec::new();
            let mut q: usize = p;
            let mut k: u64 = 0;
            while k < n
                invariant
                    k <= n,
                    p <= q <= buf@.len(),
                    parse_u64(buf@.skip(pos as int)) == Some((n, buf@.skip(p as int))),
                    parse_items(buf@.skip(p as int), k as nat) == Some(
                        (list_view(l@), buf@.skip(q as int)),
                    ),
                decreases n - k,
            {
                match read_bytes(buf, q) {
                    None => {
                        proof {
                            lemma_items_fail(buf@.skip(p as int), (k + 1) as nat, n as nat);
                        }
                        return None;
                    },
                    Some((b, q2)) => {
                        let ghost before = l@;
                        l.push(b);
                        assert(list_view(l@) =~= list_view(before).push(b@));
                        q = q2;
                        k = k + 1;
                    },
                }
            }
            Some((l, q))
        },
    }
}

pub fn read_opt_list(buf: &Vec<u8>, pos: usize) -> (r: Option<(Option<Vec<Vec<u8>>>, usize)>)
    requires
        pos <= buf@.len(),
    ensures
        match r {
            None => parse_opt_list(buf@.skip(pos as int)) is None,
            Some((v, q)) => pos <= q <= buf@.len() && parse_opt_list(buf@.skip(pos as int))
                == Some((opt_list_view(v), buf@.skip(q as int))),
        },
{
    match read_u8(buf, pos) {
        None => None,
        Some((0, p)) => Some((None, p)),
        Some((1, p)) => match read_list(buf, p) {
            None => None,
            Some((l, q)) => Some((Some(l), q)),
        },
        Some(_) => None,
    }
}

} // verus!
