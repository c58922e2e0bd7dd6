use vstd::prelude::*;
use vstd::utf8::{encode_utf8, encode_utf8_decode_utf8};

verus! {

/// Bytes that stand for themselves in a query: ASCII letters, digits and `-._~`.
pub open spec fn is_unreserved(b: u8) -> bool {
    (65 <= b <= 90) || (97 <= b <= 122) || (48 <= b <= 57) || b == 45 || b == 46 || b == 95
        || b == 126
}

/// The uppercase hexadecimal digit for `n < 16`, as an ASCII byte.
pub open spec fn hex_upper(n: u8) -> u8 {
    if n < 10 { (48 + n) as u8 } else { (55 + n) as u8 }
}

/// One byte of a key or value in a query: itself if unreserved, else `%XY`.
pub open spec fn escape_byte(b: u8) -> Seq<u8> {
    if is_unreserved(b) {
        seq![b]
    } else {
        seq![37u8, hex_upper(b / 16), hex_upper(b % 16)]
    }
}

/// Percent-encoding of a byte string, byte by byte.
pub open spec fn percent_encode(s: Seq<u8>) -> Seq<u8>
    decreases s.len(),
{
    if s.len() == 0 {
        seq![]
    } else {
        percent_encode(s.drop_last()) + escape_byte(s.last())
    }
}

/// `key=value`, each side percent-encoded from its UTF-8 bytes.
pub open spec fn encode_pair(p: (Seq<char>, Seq<char>)) -> Seq<u8> {
    percent_encode(encode_utf8(p.0)) + seq![61u8] + percent_encode(encode_utf8(p.1))
}

/// The canonical query string: the pairs in the order given, joined by `&`.
pub open spec fn canonical(ps: Seq<(Seq<char>, Seq<char>)>) -> Seq<u8>
    decreases ps.len(),
{
    if ps.len() == 0 {
        seq![]
    } else if ps.len() == 1 {
        encode_pair(ps[0])
    } else {
        canonical(ps.drop_last()) + seq![38u8] + encode_pair(ps.last())
    }
}

/// Encoding keeps the caller's order: two different parameters give a
/// different query in one order than in the other.
pub proof fn lemma_order_kept(p: (Seq<char>, Seq<char>), q: (Seq<char>, Seq<char>))
    requires
        p != q,
    ensures
        canonical(seq![p, q]) != canonical(seq![q, p]),
{
    let a = encode_pair(p);
    let b = encode_pair(q);
    assert(seq![p, q].drop_last() =~= seq![p]);
    assert(seq![q, p].drop_last() =~= seq![q]);
    assert(seq![p][0] == p && seq![q][0] == q);
    assert(seq![p, q].last() == q && seq![q, p].last() == p);
    assert(canonical(seq![p]) == a && canonical(seq![q]) == b);
    assert(canonical(seq![p, q]) == a + seq![38u8] + b);
    assert(canonical(seq![q, p]) == b + seq![38u8] + a);
    lemma_pair_plain(p);
    lemma_pair_plain(q);
    if a + seq![38u8] + b == b + seq![38u8] + a {
        lemma_split_at_mark(a, b, b, a, 38u8);
        lemma_pair_injective(p, q);
    }
}

/// No byte of a percent-encoding is `&` or `=`.
proof fn lemma_escaped_plain(s: Seq<u8>)
    ensures
        forall|i: int| 0 <= i < percent_encode(s).len() ==> percent_encode(s)[i] != 38u8
            && percent_encode(s)[i] != 61u8,
    decreases s.len(),
{
    if s.len() > 0 {
        lemma_escaped_plain(s.drop_last());
        let e = percent_encode(s);
        let f = percent_encode(s.drop_last());
        assert(e == f + escape_byte(s.last()));
        assert forall|i: int| 0 <= i < e.len() implies e[i] != 38u8 && e[i] != 61u8 by {
            if i >= f.len() {
                let b = s.last();
                assert(escape_byte(b)[i - f.len()] == e[i]);
            }
        }
    }
}

/// An encoded pair holds no `&`.
proof fn lemma_pair_plain(p: (Seq<char>, Seq<char>))
    ensures
        forall|i: int| 0 <= i < encode_pair(p).len() ==> encode_pair(p)[i] != 38u8,
{
    let k = percent_encode(encode_utf8(p.0));
    let v = percent_encode(encode_utf8(p.1));
    lemma_escaped_plain(encode_utf8(p.0));
    lemma_escaped_plain(encode_utf8(p.1));
    let e = encode_pair(p);
    assert forall|i: int| 0 <= i < e.len() implies e[i] != 38u8 by {
        if i < k.len() {
            assert(e[i] == k[i]);
        } else if i > k.len() {
            assert(e[i] == v[i - k.len() - 1]);
        }
    }
}

/// Where `x1` and `x2` hold no `m`, `x1 m y1 == x2 m y2` splits one way only.
proof fn lemma_split_at_mark(x1: Seq<u8>, y1: Seq<u8>, x2: Seq<u8>, y2: Seq<u8>, m: u8)
    requires
        forall|i: int| 0 <= i < x1.len() ==> x1[i] != m,
        forall|i: int| 0 <= i < x2.len() ==> x2[i] != m,
        x1 + seq![m] + y1 == x2 + seq![m] + y2,
    ensures
        x1 == x2,
        y1 == y2,
{
    let w = x1 + seq![m] + y1;
    let z = x2 + seq![m] + y2;
    if x1.len() < x2.len() {
        assert(w[x1.len() as int] == m);
        assert(z[x1.len() as int] == x2[x1.len() as int]);
    } else if x2.len() < x1.len() {
        assert(z[x2.len() as int] == m);
        assert(w[x2.len() as int] == x1[x2.len() as int]);
    } else {
        assert(x1 =~= w.subrange(0, x1.len() as int));
        assert(x2 =~= z.subrange(0, x2.len() as int));
        assert(y1 =~= w.subrange(x1.len() as int + 1, w.len() as int));
        assert(y2 =~= z.subrange(x2.len() as int + 1, z.len() as int));
    }
}

/// Different pairs encode differently.
proof fn lemma_pair_injective(p: (Seq<char>, Seq<char>), q: (Seq<char>, Seq<char>))
    requires
        encode_pair(p) == encode_pair(q),
    ensures
        p == q,
{
    lemma_escaped_plain(encode_utf8(p.0));
    lemma_escaped_plain(encode_utf8(q.0));
    lemma_split_at_mark(
        percent_encode(encode_utf8(p.0)),
        percent_encode(encode_utf8(p.1)),
        percent_encode(encode_utf8(q.0)),
        percent_encode(encode_utf8(q.1)),
        61u8,
    );
    lemma_escape_injective(encode_utf8(p.0), encode_utf8(q.0));
    lemma_escape_injective(encode_utf8(p.1), encode_utf8(q.1));
    encode_utf8_decode_utf8(p.0);
    encode_utf8_decode_utf8(q.0);
    encode_utf8_decode_utf8(p.1);
    encode_utf8_decode_utf8(q.1);
}

/// Percent-encoding distributes over concatenation.
proof fn lemma_escape_concat(a: Seq<u8>, b: Seq<u8>)
    ensures
        percent_encode(a + b) == percent_encode(a) + percent_encode(b),
    decreases b.len(),
{
    if b.len() == 0 {
        assert(a + b =~= a);
    } else {
        lemma_escape_concat(a, b.drop_last());
        assert((a + b).drop_last() =~= a + b.drop_last());
        assert((a + b).last() == b.last());
    }
}

/// Different byte strings percent-encode differently.
proof fn lemma_escape_injective(a: Seq<u8>, b: Seq<u8>)
    requires
        percent_encode(a) == percent_encode(b),
    ensures
        a == b,
    decreases a.len(),
{
    if a.len() == 0 {
        if b.len() > 0 {
            assert(percent_encode(b).len() > 0) by {
                lemma_escape_concat(b.drop_last(), seq![b.last()]);
                assert(b.drop_last() + seq![b.last()] =~= b);
            }
        }
        assert(a =~= b);
    } else {
        if b.len() == 0 {
            assert(percent_encode(a).len() > 0) by {
                assert(a.drop_last() + seq![a.last()] =~= a);
            }
        }
        let a1 = a.drop_first();
        let b1 = b.drop_first();
        assert(seq![a[0]] + a1 =~= a);
        assert(seq![b[0]] + b1 =~= b);
        lemma_escape_concat(seq![a[0]], a1);
        lemma_escape_concat(seq![b[0]], b1);
        assert(seq![a[0]].drop_last() =~= Seq::<u8>::empty());
        assert(seq![b[0]].drop_last() =~= Seq::<u8>::empty());
        assert(percent_encode(Seq::<u8>::empty()) == Seq::<u8>::empty());
        assert(seq![a[0]].last() == a[0] && seq![b[0]].last() == b[0]);
        assert(percent_encode(seq![a[0]]) =~= escape_byte(a[0]));
        assert(percent_encode(seq![b[0]]) =~= escape_byte(b[0]));
        let e = percent_encode(a);
        let ea = escape_byte(a[0]);
        let eb = escape_byte(b[0]);
        assert(e == ea + percent_encode(a1));
        assert(e == eb + percent_encode(b1));
        assert(e[0] == ea[0] && e[0] == eb[0]);
        if is_unreserved(a[0]) {
            assert(is_unreserved(b[0]));
            assert(percent_encode(a1) =~= e.subrange(1, e.len() as int));
            assert(percent_encode(b1) =~= e.subrange(1, e.len() as int));
        } else {
            assert(!is_unreserved(b[0]));
            assert(e[1] == ea[1] && e[1] == eb[1]);
            assert(e[2] == ea[2] && e[2] == eb[2]);
            let x = a[0];
            let y = b[0];
            assert(x / 16 == y / 16 && x % 16 == y % 16);
            assert(x == y) by (nonlinear_arith)
                requires x / 16 == y / 16 && x % 16 == y % 16;
            assert(percent_encode(a1) =~= e.subrange(3, e.len() as int));
            assert(percent_encode(b1) =~= e.subrange(3, e.len() as int));
        }
        lemma_escape_injective(a1, b1);
        assert(a =~= b);
    }
}

/// An ordered list of named parameters. Order is kept as given; nothing is
/// sorted or merged.
pub struct Params {
    pub pairs: Vec<(String, String)>,
}

impl View for Params {
    type V = Seq<(Seq<char>, Seq<char>)>;

    open spec fn view(&self) -> Seq<(Seq<char>, Seq<char>)> {
        self.pairs@.map_values(|p: (String, String)| (p.0@, p.1@))
    }
}

impl Params {
    /// No parameters.
    pub fn new() -> (r: Params)
        ensures
            r@ == Seq::<(Seq<char>, Seq<char>)>::empty(),
    {
        let r = Params { pairs: Vec::new() };
        assert(r@ =~= Seq::<(Seq<char>, Seq<char>)>::empty());
        r
    }

    /// Adds `key=value` after the parameters already present.
    pub fn push(&mut self, key: String, value: String)
        ensures
            final(self)@ == old(self)@.push((key@, value@)),
    {
        self.pairs.push((key, value));
        assert(self@ =~= old(self)@.push((key@, value@)));
    }

    /// The canonical query string of these parameters.
    pub fn encode(&self) -> (r: Vec<u8>)
        ensures
            r@ == canonical(self@),
    {
        let mut out: Vec<u8> = Vec::new();
        let mut i: usize = 0;
        while i < self.pairs.len()
            invariant
                0 <= i <= self@.len(),
                self@.len() == self.pairs@.len(),
                out@ == canonical(self@.subrange(0, i as int)),
            decreases self@.len() - i,
        {
            let ghost before = out@;
            if i > 0 {
                out.push(38u8);
            }
            push_escaped(&mut out, self.pairs[i].0.as_str());
            out.push(61u8);
            push_escaped(&mut out, self.pairs[i].1.as_str());
            proof {
                let sub = self@.subrange(0, i + 1);
                assert(sub.drop_last() =~= self@.subrange(0, i as int));
                assert(sub.last() == self@[i as int]);
                if i == 0 {
                    assert(out@ =~= encode_pair(sub[0]));
                } else {
                    assert(out@ =~= before + seq![38u8] + encode_pair(sub.last()));
                }
            }
            i = i + 1;
        }
        assert(self@.subrange(0, self@.len() as int) =~= self@);
        out
    }
}

/// Appends the percent-encoding of the UTF-8 bytes of `s` to `out`.
pub fn push_escaped(out: &mut Vec<u8>, s: &str)
    ensures
        final(out)@ == old(out)@ + percent_encode(encode_utf8(s@)),
{
    let b = s.as_bytes();
    let mut i: usize = 0;
    while i < b.len()
        invariant
            0 <= i <= b@.len(),
            b@ == encode_utf8(s@),
            out@ == old(out)@ + percent_encode(b@.subrange(0, i as int)),
        decreases b@.len() - i,
    {
        let x = b[i];
        let ghost before = out@;
        if (65 <= x && x <= 90) || (97 <= x && x <= 122) || (48 <= x && x <= 57) || x == 45
            || x == 46 || x == 95 || x == 126 {
            out.push(x);
        } else {
            let hi: u8 = x / 16;
            let lo: u8 = x % 16;
            out.push(37u8);
            out.push(if hi < 10 { 48 + hi } else { 55 + hi });
            out.push(if lo < 10 { 48 + lo } else { 55 + lo });
        }
        assert(b@.subrange(0, i + 1).drop_last() =~= b@.subrange(0, i as int));
        assert(out@ =~= before + escape_byte(x));
        i = i + 1;
    }
    assert(b@.subrange(0, b@.len() as int) =~= b@);
}

} // verus!
