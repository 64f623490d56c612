//! Byte-level readers for the container tool's output: whitespace trimming
//! and newline-delimited record framing.

use vstd::prelude::*;

verus! {

/// ASCII whitespace: space, tab, line feed, form feed, carriage return.
pub open spec fn is_space(c: u8) -> bool {
    c == 32 || c == 9 || c == 10 || c == 12 || c == 13
}

/// A line with nothing but whitespace in it (or nothing at all).
pub open spec fn is_blank(b: Seq<u8>) -> bool {
    forall|i: int| 0 <= i < b.len() ==> is_space(#[trigger] b[i])
}

/// `b` without its leading whitespace.
pub open spec fn trim_start(b: Seq<u8>) -> Seq<u8>
    decreases b.len(),
{
    if b.len() > 0 && is_space(b[0]) {
        trim_start(b.drop_first())
    } else {
        b
    }
}

/// `b` without its trailing whitespace.
pub open spec fn trim_end(b: Seq<u8>) -> Seq<u8>
    decreases b.len(),
{
    if b.len() > 0 && is_space(b.last()) {
        trim_end(b.drop_last())
    } else {
        b
    }
}

/// `b` without whitespace at either end.
pub open spec fn trim(b: Seq<u8>) -> Seq<u8> {
    trim_end(trim_start(b))
}

/// The lines seen so far, keeping the line in progress unless it is blank.
pub open spec fn keep_line(done: Seq<Seq<u8>>, cur: Seq<u8>) -> Seq<Seq<u8>> {
    if is_blank(cur) {
        done
    } else {
        done.push(cur)
    }
}

/// Reading `b` from the left: the finished non-blank lines and the line in
/// progress. A line feed ends a line and is not part of it.
pub open spec fn line_fold(b: Seq<u8>) -> (Seq<Seq<u8>>, Seq<u8>)
    decreases b.len(),
{
    if b.len() == 0 {
        (seq![], seq![])
    } else {
        let prev = line_fold(b.drop_last());
        if b.last() == 10 {
            (keep_line(prev.0, prev.1), seq![])
        } else {
            (prev.0, prev.1.push(b.last()))
        }
    }
}

/// The non-blank lines of `b`, in order; a final line needs no line feed.
pub open spec fn content_lines(b: Seq<u8>) -> Seq<Seq<u8>> {
    keep_line(line_fold(b).0, line_fold(b).1)
}

/// The views of a sequence of byte vectors.
pub open spec fn byte_views(v: Seq<Vec<u8>>) -> Seq<Seq<u8>> {
    v.map_values(|x: Vec<u8>| x@)
}

/// Whether `c` is ASCII whitespace.
pub fn space_byte(c: u8) -> (r: bool)
    ensures
        r == is_space(c),
{
    c == 32 || c == 9 || c == 10 || c == 12 || c == 13
}

/// Whether `b` holds only whitespace.
pub fn blank(b: &[u8]) -> (r: bool)
    ensures
        r == is_blank(b@),
{
    let mut i: usize = 0;
    while i < b.len()
        invariant
            i <= b@.len(),
            forall|j: int| 0 <= j < i ==> is_space(#[trigger] b@[j]),
        decreases b.len() - i,
    {
        if !space_byte(b[i]) {
            return false;
        }
        i = i + 1;
    }
    true
}

proof fn lemma_trim_start_step(b: Seq<u8>, s: int)
    requires
        0 <= s < b.len(),
        is_space(b[s]),
    ensures
        trim_start(b.subrange(s, b.len() as int)) == trim_start(b.subrange(s + 1, b.len() as int)),
{
    let t = b.subrange(s, b.len() as int);
    assert(t.drop_first() =~= b.subrange(s + 1, b.len() as int));
}

proof fn lemma_trim_end_step(b: Seq<u8>, s: int, e: int)
    requires
        0 <= s < e <= b.len(),
        is_space(b[e - 1]),
    ensures
        trim_end(b.subrange(s, e)) == trim_end(b.subrange(s, e - 1)),
{
    let t = b.subrange(s, e);
    assert(t.drop_last() =~= b.subrange(s, e - 1));
}

/// `b` without whitespace at either end.
pub fn trim_bytes(b: &[u8]) -> (r: Vec<u8>)
    ensures
        r@ == trim(b@),
{
    let n = b.len();
    let mut s: usize = 0;
    assert(b@.subrange(0, n as int) =~= b@);
    while s < n && space_byte(b[s])
        invariant
            s <= n == b@.len(),
            trim_start(b@) == trim_start(b@.subrange(s as int, n as int)),
        decreases n - s,
    {
        proof {
            lemma_trim_start_step(b@, s as int);
        }
        s = s + 1;
    }
    let ghost started = b@.subrange(s as int, n as int);
    assert(trim_start(started) == started) by {
        if started.len() > 0 {
            assert(started[0] == b@[s as int]);
        }
    }
    let mut e: usize = n;
    while e > s && space_byte(b[e - 1])
        invariant
            s <= e <= n == b@.len(),
            trim(b@) == trim_end(b@.subrange(s as int, e as int)),
        decreases e,
    {
        proof {
            lemma_trim_end_step(b@, s as int, e as int);
        }
        e = e - 1;
    }
    let ghost kept = b@.subrange(s as int, e as int);
    assert(trim_end(kept) == kept) by {
        if kept.len() > 0 {
            assert(kept.last() == b@[e - 1]);
        }
    }
    let mut r: Vec<u8> = Vec::new();
    let mut i: usize = s;
    while i < e
        invariant
            s <= i <= e <= n == b@.len(),
            r@ == b@.subrange(s as int, i as int),
        decreases e - i,
    {
        r.push(b[i]);
        i = i + 1;
        assert(r@ =~= b@.subrange(s as int, i as int));
    }
    r
}

/// The non-blank lines of `b`, in order, without their line feeds.
pub fn split_content_lines(b: &[u8]) -> (r: Vec<Vec<u8>>)
    ensures
        byte_views(r@) == content_lines(b@),
{
    let mut done: Vec<Vec<u8>> = Vec::new();
    let mut cur: Vec<u8> = Vec::new();
    let mut i: usize = 0;
    assert(b@.take(0) =~= Seq::<u8>::empty());
    while i < b.len()
        invariant
            i <= b@.len(),
            (byte_views(done@), cur@) == line_fold(b@.take(i as int)),
        decreases b.len() - i,
    {
        let c = b[i];
        assert(b@.take(i as int + 1).drop_last() =~= b@.take(i as int));
        if c == 10 {
            let is_b = blank(cur.as_slice());
            if !is_b {
                let ghost before = byte_views(done@);
                done.push(cur);
                assert(byte_views(done@) =~= before.push(line_fold(b@.take(i as int)).1));
            }
            cur = Vec::new();
        } else {
            cur.push(c);
        }
        i = i + 1;
    }
    assert(b@.take(b@.len() as int) =~= b@);
    if !blank(cur.as_slice()) {
        let ghost before = byte_views(done@);
        done.push(cur);
        assert(byte_views(done@) =~= before.push(line_fold(b@).1));
    }
    done
}

} // verus!
