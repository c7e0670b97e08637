//! Extraction of DER certificates from a PEM file.
//!
//! The trust-anchors file is UTF-8 text holding one or more PEM blocks of
//! type `CERTIFICATE`, concatenated. A block opens with the line
//! `-----BEGIN CERTIFICATE-----`, carries base64 body lines, and closes with
//! `-----END CERTIFICATE-----`. Lines are separated by line feeds; a
//! trailing carriage return on a line is ignored. Text outside blocks is
//! skipped. A block left unclosed, or a body that is not valid base64,
//! fails the whole parse.

use vstd::prelude::*;

use crate::b64;
use crate::bytes::bytes_eq;

verus! {

/// First index at which `t` occurs in `s`, or `s.len()` when it does not.
pub open spec fn find_elem<T>(s: Seq<T>, t: T) -> nat
    decreases s.len(),
{
    if s.len() == 0 {
        0
    } else if s[0] == t {
        0
    } else {
        1 + find_elem(s.skip(1), t)
    }
}

/// `find_elem` returns exactly the first occurrence.
pub proof fn lemma_find_elem_at<T>(s: Seq<T>, t: T, k: int)
    requires
        0 <= k <= s.len(),
        forall|j: int| 0 <= j < k ==> s[j] != t,
        k < s.len() ==> s[k] == t,
    ensures
        find_elem(s, t) == k,
    decreases s.len(),
{
    if s.len() == 0 {
    } else if s[0] == t {
    } else {
        assert(forall|j: int| 0 <= j < k - 1 ==> s.skip(1)[j] == s[j + 1]);
        assert(k - 1 < s.skip(1).len() ==> s.skip(1)[k - 1] == s[k]);
        lemma_find_elem_at(s.skip(1), t, k - 1);
    }
}

/// A line with a trailing carriage return stripped.
pub open spec fn strip_cr(l: Seq<u8>) -> Seq<u8> {
    if l.len() > 0 && l[l.len() - 1] == 13 {
        l.drop_last()
    } else {
        l
    }
}

/// The lines of a byte string, split on line feeds, each with a trailing
/// carriage return stripped. There is always at least one (possibly empty)
/// line.
pub open spec fn lines_of(s: Seq<u8>) -> Seq<Seq<u8>>
    decreases s.len(),
{
    let i = find_elem(s, 10u8);
    if i < s.len() {
        seq![strip_cr(s.take(i as int))] + lines_of(s.skip(i as int + 1))
    } else {
        seq![strip_cr(s)]
    }
}

/// The bytes of `-----BEGIN CERTIFICATE-----`.
pub open spec fn begin_marker() -> Seq<u8> {
    seq![
        45u8, 45, 45, 45, 45, 66, 69, 71, 73, 78, 32, 67, 69, 82, 84, 73, 70, 73, 67, 65, 84, 69,
        45, 45, 45, 45, 45,
    ]
}

/// The bytes of `-----END CERTIFICATE-----`.
pub open spec fn end_marker() -> Seq<u8> {
    seq![
        45u8, 45, 45, 45, 45, 69, 78, 68, 32, 67, 69, 82, 84, 73, 70, 73, 67, 65, 84, 69, 45, 45,
        45, 45, 45,
    ]
}

/// Concatenation of a sequence of lines.
pub open spec fn concat_lines(ls: Seq<Seq<u8>>) -> Seq<u8>
    decreases ls.len(),
{
    if ls.len() == 0 {
        Seq::empty()
    } else {
        ls[0] + concat_lines(ls.skip(1))
    }
}

/// Appending one line extends the concatenation at its end.
pub proof fn lemma_concat_push(ls: Seq<Seq<u8>>, x: Seq<u8>)
    ensures
        concat_lines(ls.push(x)) == concat_lines(ls) + x,
    decreases ls.len(),
{
    reveal_with_fuel(concat_lines, 3);
    if ls.len() == 0 {
        assert(ls.push(x)[0] == x);
        assert(ls.push(x).skip(1) =~= Seq::<Seq<u8>>::empty());
        assert(x + Seq::<u8>::empty() =~= x);
        assert(Seq::<u8>::empty() + x =~= x);
    } else {
        assert(ls.push(x)[0] == ls[0]);
        assert(ls.push(x).skip(1) =~= ls.skip(1).push(x));
        lemma_concat_push(ls.skip(1), x);
        assert(ls[0] + (concat_lines(ls.skip(1)) + x) =~= (ls[0] + concat_lines(ls.skip(1))) + x);
    }
}

/// The DER certificates carried by a sequence of lines. Lines outside
/// blocks are skipped; a `BEGIN` line opens a block whose body, the lines
/// up to the first `END` line, is decoded as base64. `None` when a block
/// is unclosed or its body does not decode.
pub open spec fn blocks_of(ls: Seq<Seq<u8>>) -> Option<Seq<Seq<u8>>>
    decreases ls.len(),
{
    if ls.len() == 0 {
        Some(seq![])
    } else if ls[0] != begin_marker() {
        blocks_of(ls.skip(1))
    } else {
        let rest = ls.skip(1);
        let e = find_elem(rest, end_marker());
        if e >= rest.len() {
            None
        } else {
            match b64::decoded(concat_lines(rest.take(e as int))) {
                Some(der) => match blocks_of(rest.skip(e as int + 1)) {
                    Some(tail) => Some(seq![der] + tail),
                    None => None,
                },
                None => None,
            }
        }
    }
}

/// The views of a vector of byte vectors.
pub open spec fn views_of(v: Seq<Vec<u8>>) -> Seq<Seq<u8>> {
    v.map_values(|l: Vec<u8>| l@)
}

/// The DER certificates carried by a PEM byte string.
pub open spec fn certificates(s: Seq<u8>) -> Option<Seq<Seq<u8>>> {
    blocks_of(lines_of(s))
}

/// The `BEGIN` line as a vector.
fn begin_marker_vec() -> (r: Vec<u8>)
    ensures
        r@ == begin_marker(),
{
    let r: Vec<u8> = vec![
        45u8, 45, 45, 45, 45, 66, 69, 71, 73, 78, 32, 67, 69, 82, 84, 73, 70, 73, 67, 65, 84, 69,
        45, 45, 45, 45, 45,
    ];
    proof {
        assert(r@ =~= begin_marker());
    }
    r
}

/// The `END` line as a vector.
fn end_marker_vec() -> (r: Vec<u8>)
    ensures
        r@ == end_marker(),
{
    let r: Vec<u8> = vec![
        45u8, 45, 45, 45, 45, 69, 78, 68, 32, 67, 69, 82, 84, 73, 70, 73, 67, 65, 84, 69, 45, 45,
        45, 45, 45,
    ];
    proof {
        assert(r@ =~= end_marker());
    }
    r
}

/// Strip a trailing carriage return.
fn finish_line(line: Vec<u8>) -> (r: Vec<u8>)
    ensures
        r@ == strip_cr(line@),
{
    let mut line = line;
    if line.len() > 0 && line[line.len() - 1] == 13 {
        line.pop();
    }
    line
}

/// Split a byte string into its lines, as `lines_of` describes.
pub fn split_lines(s: &Vec<u8>) -> (r: Vec<Vec<u8>>)
    ensures
        views_of(r@) == lines_of(s@),
{
    let mut lines: Vec<Vec<u8>> = Vec::new();
    let mut cur: Vec<u8> = Vec::new();
    let ghost mut start: int = 0;
    let mut i: usize = 0;
    proof {
        assert(s@.subrange(0, 0) =~= cur@);
        assert(s@.skip(0) =~= s@);
        assert(views_of(lines@) + lines_of(s@) =~= lines_of(s@));
    }
    while i < s.len()
        invariant
            0 <= start <= i <= s.len(),
            cur@ == s@.subrange(start, i as int),
            forall|j: int| start <= j < i ==> s@[j] != 10,
            lines_of(s@) == views_of(lines@) + lines_of(s@.skip(start)),
        decreases s.len() - i,
    {
        if s[i] == 10 {
            let line = finish_line(cur);
            proof {
                let tail = s@.skip(start);
                assert(forall|j: int| 0 <= j < i - start ==> tail[j] == s@[j + start]);
                lemma_find_elem_at(tail, 10u8, i - start);
                assert(tail.take(i - start) =~= s@.subrange(start, i as int));
                assert(tail.skip(i - start + 1) =~= s@.skip(i + 1));
                assert(views_of(lines@.push(line)) =~= views_of(lines@).push(line@));
                assert(views_of(lines@) + (seq![strip_cr(cur@)] + lines_of(s@.skip(i + 1)))
                    =~= views_of(lines@).push(line@) + lines_of(s@.skip(i + 1)));
            }
            lines.push(line);
            cur = Vec::new();
            proof {
                start = i + 1;
                assert(cur@ =~= s@.subrange(start, i as int + 1));
            }
        } else {
            cur.push(s[i]);
            proof {
                assert(cur@ =~= s@.subrange(start, i as int + 1));
            }
        }
        i = i + 1;
    }
    let line = finish_line(cur);
    proof {
        let tail = s@.skip(start);
        assert(forall|j: int| 0 <= j < tail.len() ==> tail[j] == s@[j + start]);
        lemma_find_elem_at(tail, 10u8, tail.len() as int);
        assert(views_of(lines@.push(line)) =~= views_of(lines@).push(line@));
        assert(views_of(lines@) + seq![strip_cr(tail)] =~= views_of(lines@).push(line@));
    }
    lines.push(line);
    lines
}

/// First index at or after `from` whose line equals `target`, or the line
/// count when there is none.
fn find_line(lines: &Vec<Vec<u8>>, from: usize, target: &Vec<u8>) -> (r: usize)
    requires
        from <= lines@.len(),
    ensures
        from <= r <= lines@.len(),
        forall|k: int| from <= k < r ==> lines@[k]@ != target@,
        r < lines@.len() ==> lines@[r as int]@ == target@,
{
    let mut j: usize = from;
    while j < lines.len()
        invariant
            from <= j <= lines@.len(),
            forall|k: int| from <= k < j ==> lines@[k]@ != target@,
        decreases lines.len() - j,
    {
        if bytes_eq(&lines[j], target) {
            return j;
        }
        j = j + 1;
    }
    j
}

/// Collect the DER certificates of the given lines, as `blocks_of`
/// describes.
fn certs_from_lines(lines: &Vec<Vec<u8>>) -> (r: Option<Vec<Vec<u8>>>)
    ensures
        match r {
            Some(v) => blocks_of(views_of(lines@)) == Some(views_of(v@)),
            None => blocks_of(views_of(lines@)) is None,
        },
{
    let begin = begin_marker_vec();
    let endv = end_marker_vec();
    let ghost lv = views_of(lines@);
    let mut out: Vec<Vec<u8>> = Vec::new();
    let mut i: usize = 0;
    proof {
        assert(lv.skip(0) =~= lv);
        match blocks_of(lv) {
            Some(t) => {
                assert(views_of(out@) + t =~= t);
            }
            None => {}
        }
    }
    while i < lines.len()
        invariant
            i <= lines@.len(),
            begin@ == begin_marker(),
            endv@ == end_marker(),
            lv == views_of(lines@),
            blocks_of(lv) == match blocks_of(lv.skip(i as int)) {
                Some(t) => Some(views_of(out@) + t),
                None => None::<Seq<Seq<u8>>>,
            },
        decreases lines.len() - i,
    {
        if bytes_eq(&lines[i], &begin) {
            let e = find_line(lines, i + 1, &endv);
            proof {
                let rest = lv.skip(i as int).skip(1);
                assert(rest =~= lv.skip(i + 1));
                assert(forall|k: int| 0 <= k < rest.len() ==> rest[k] == lv[k + i + 1]);
                lemma_find_elem_at(rest, end_marker(), e - (i + 1));
            }
            if e == lines.len() {
                return None;
            }
            // gather the block body
            let mut body: Vec<u8> = Vec::new();
            let mut j: usize = i + 1;
            proof {
                assert(lv.skip(i + 1).take(0) =~= Seq::<Seq<u8>>::empty());
            }
            while j < e
                invariant
                    i + 1 <= j <= e <= lines@.len(),
                    lv == views_of(lines@),
                    body@ == concat_lines(lv.skip(i + 1).take(j - (i + 1))),
                decreases e - j,
            {
                let line = &lines[j];
                let mut b: usize = 0;
                let ghost body0 = body@;
                while b < line.len()
                    invariant
                        b <= line@.len(),
                        body@ == body0 + line@.subrange(0, b as int),
                    decreases line.len() - b,
                {
                    body.push(line[b]);
                    proof {
                        assert(body@ =~= body0 + line@.subrange(0, b as int + 1));
                    }
                    b = b + 1;
                }
                proof {
                    assert(line@.subrange(0, line@.len() as int) =~= line@);
                    let prefix = lv.skip(i + 1).take(j - (i + 1));
                    assert(lv.skip(i + 1).take(j - (i + 1) + 1) =~= prefix.push(line@));
                    lemma_concat_push(prefix, line@);
                }
                j = j + 1;
            }
            let der = match b64::decode(&body) {
                Some(d) => d,
                None => {
                    return None;
                }
            };
            proof {
                let rest = lv.skip(i + 1);
                assert(rest.take(e - (i + 1)) =~= rest.take(e - (i + 1)));
                assert(rest.skip(e - (i + 1) + 1) =~= lv.skip(e + 1));
                assert(views_of(out@.push(der)) =~= views_of(out@).push(der@));
                match blocks_of(lv.skip(e + 1)) {
                    Some(tail) => {
                        assert(views_of(out@) + (seq![der@] + tail) =~= views_of(out@).push(
                            der@,
                        ) + tail);
                    }
                    None => {}
                }
            }
            out.push(der);
            i = e + 1;
        } else {
            proof {
                assert(lv.skip(i as int).skip(1) =~= lv.skip(i as int + 1));
            }
            i = i + 1;
        }
    }
    proof {
        assert(lv.skip(i as int) =~= Seq::<Seq<u8>>::empty());
        assert(views_of(out@) + Seq::<Seq<u8>>::empty() =~= views_of(out@));
    }
    Some(out)
}

/// Parse a PEM byte string into its DER certificates, exactly as
/// `certificates` describes.
pub fn parse_certificates(bytes: &Vec<u8>) -> (r: Option<Vec<Vec<u8>>>)
    ensures
        match r {
            Some(v) => certificates(bytes@) == Some(views_of(v@)),
            None => certificates(bytes@) is None,
        },
{
    let lines = split_lines(bytes);
    certs_from_lines(&lines)
}

} // verus!
