//! Byte-string helpers: equality, separator splitting, joining, and decimal
//! rendering. Text handled by the controller (paths, label configuration,
//! header values, poll URIs) is modelled as byte sequences.

use vstd::prelude::*;

verus! {

/// Compares two byte slices for (deep) equality.
pub fn bytes_eq(a: &[u8], b: &[u8]) -> (r: bool)
    ensures
        r <==> a@ == b@,
{
    if a.len() != b.len() {
        proof {
            assert(a@.len() != b@.len());
        }
        return false;
    }
    let mut i: usize = 0;
    while i < a.len()
        invariant
            0 <= i <= a@.len(),
            a@.len() == b@.len(),
            forall|j: int| 0 <= j < i ==> a@[j] == b@[j],
        decreases a@.len() - i,
    {
        if a[i] != b[i] {
            return false;
        }
        i += 1;
    }
    proof {
        assert(a@ =~= b@);
    }
    true
}

/// The pieces of `s` between occurrences of `sep`, in order. There is always
/// at least one piece; separators at the ends contribute empty pieces.
pub open spec fn spec_split(s: Seq<u8>, sep: u8) -> Seq<Seq<u8>>
    decreases s.len(),
{
    if s.len() == 0 {
        seq![Seq::<u8>::empty()]
    } else if s[0] == sep {
        seq![Seq::<u8>::empty()] + spec_split(s.drop_first(), sep)
    } else {
        let rest = spec_split(s.drop_first(), sep);
        rest.update(0, seq![s[0]] + rest[0])
    }
}

pub proof fn lemma_split_len(s: Seq<u8>, sep: u8)
    ensures
        spec_split(s, sep).len() >= 1,
    decreases s.len(),
{
    if s.len() != 0 {
        lemma_split_len(s.drop_first(), sep);
    }
}

/// Splits `s` at every occurrence of `sep`.
pub fn split_bytes(s: &[u8], sep: u8) -> (r: Vec<Vec<u8>>)
    ensures
        r@.map_values(|p: Vec<u8>| p@) == spec_split(s@, sep),
{
    let mut out: Vec<Vec<u8>> = Vec::new();
    let mut cur: Vec<u8> = Vec::new();
    let mut i: usize = 0;
    proof {
        lemma_split_len(s@, sep);
        assert(s@.skip(0) =~= s@);
        assert(prepend_first(Seq::<u8>::empty(), spec_split(s@, sep)) =~~= spec_split(s@, sep));
        assert(out@.map_values(|p: Vec<u8>| p@) =~= Seq::<Seq<u8>>::empty());
    }
    while i < s.len()
        invariant
            0 <= i <= s@.len(),
            spec_split(s@, sep) == out@.map_values(|p: Vec<u8>| p@) + prepend_first(
                cur@,
                spec_split(s@.skip(i as int), sep),
            ),
        decreases s@.len() - i,
    {
        proof {
            lemma_split_len(s@.skip(i as int + 1), sep);
            assert(s@.skip(i as int).drop_first() =~= s@.skip(i as int + 1));
        }
        if s[i] == sep {
            let ghost old_out = out@;
            let ghost old_cur = cur@;
            out.push(cur);
            cur = Vec::new();
            proof {
                let tail = spec_split(s@.skip(i as int + 1), sep);
                assert(spec_split(s@.skip(i as int), sep) == seq![Seq::<u8>::empty()] + tail);
                assert(prepend_first(old_cur, seq![Seq::<u8>::empty()] + tail) =~~= seq![old_cur]
                    + tail);
                assert(prepend_first(Seq::<u8>::empty(), tail) =~~= tail);
                assert(out@.map_values(|p: Vec<u8>| p@) =~= old_out.map_values(|p: Vec<u8>| p@)
                    + seq![old_cur]);
            }
        } else {
            let ghost old_cur = cur@;
            cur.push(s[i]);
            proof {
                let tail = spec_split(s@.skip(i as int + 1), sep);
                let b = s@[i as int];
                assert(spec_split(s@.skip(i as int), sep) == tail.update(0, seq![b] + tail[0]));
                assert((old_cur + (seq![b] + tail[0])) =~= (old_cur.push(b) + tail[0]));
                assert(prepend_first(old_cur, tail.update(0, seq![b] + tail[0]))
                    =~~= prepend_first(old_cur.push(b), tail));
                assert(cur@ =~= old_cur.push(b));
            }
        }
        i += 1;
    }
    proof {
        assert(s@.skip(i as int) =~= Seq::<u8>::empty());
        assert(spec_split(Seq::<u8>::empty(), sep) == seq![Seq::<u8>::empty()]);
        assert(prepend_first(cur@, seq![Seq::<u8>::empty()]) =~~= seq![cur@]);
    }
    let ghost old_out = out@;
    out.push(cur);
    proof {
        assert(out@.map_values(|p: Vec<u8>| p@) =~= old_out.map_values(|p: Vec<u8>| p@)
            + seq![cur@]);
    }
    out
}

/// `segs` with `prefix` prepended to its first element.
spec fn prepend_first(prefix: Seq<u8>, segs: Seq<Seq<u8>>) -> Seq<Seq<u8>>
    recommends
        segs.len() >= 1,
{
    segs.update(0, prefix + segs[0])
}

/// The part of `p` before the first `'='` and the part after it; all of `p`
/// and an empty value when `p` holds no `'='`.
pub open spec fn spec_key_value(p: Seq<u8>) -> (Seq<u8>, Seq<u8>)
    decreases p.len(),
{
    if p.len() == 0 {
        (Seq::<u8>::empty(), Seq::<u8>::empty())
    } else if p[0] == '=' as u8 {
        (Seq::<u8>::empty(), p.drop_first())
    } else {
        let rest = spec_key_value(p.drop_first());
        (seq![p[0]] + rest.0, rest.1)
    }
}

proof fn lemma_key_value_no_eq(p: Seq<u8>)
    requires
        forall|j: int| 0 <= j < p.len() ==> p[j] != '=' as u8,
    ensures
        spec_key_value(p) == (p, Seq::<u8>::empty()),
    decreases p.len(),
{
    if p.len() > 0 {
        lemma_key_value_no_eq(p.drop_first());
        assert(seq![p[0]] + p.drop_first() =~= p);
    }
}

proof fn lemma_key_value_first_eq(p: Seq<u8>, k: int)
    requires
        0 <= k < p.len(),
        p[k] == '=' as u8,
        forall|j: int| 0 <= j < k ==> p[j] != '=' as u8,
    ensures
        spec_key_value(p) == (p.subrange(0, k), p.skip(k + 1)),
    decreases k,
{
    if k == 0 {
        assert(p.subrange(0, 0) =~= Seq::<u8>::empty());
        assert(p.drop_first() =~= p.skip(1));
    } else {
        lemma_key_value_first_eq(p.drop_first(), k - 1);
        assert(seq![p[0]] + p.drop_first().subrange(0, k - 1) =~= p.subrange(0, k));
        assert(p.drop_first().skip(k) =~= p.skip(k + 1));
    }
}

/// Splits one `key=value` piece at its first `'='`; a piece without `'='`
/// is all key and an empty value.
pub fn split_key_value(p: &[u8]) -> (r: (Vec<u8>, Vec<u8>))
    ensures
        (r.0@, r.1@) == spec_key_value(p@),
{
    let mut k: usize = 0;
    while k < p.len() && p[k] != '=' as u8
        invariant
            0 <= k <= p@.len(),
            forall|j: int| 0 <= j < k ==> p@[j] != '=' as u8,
        decreases p@.len() - k,
    {
        k += 1;
    }
    if k == p.len() {
        proof {
            lemma_key_value_no_eq(p@);
        }
        (vstd::slice::slice_to_vec(p), Vec::new())
    } else {
        proof {
            lemma_key_value_first_eq(p@, k as int);
        }
        let key = vstd::slice::slice_to_vec(vstd::slice::slice_subrange(p, 0, k));
        let value = vstd::slice::slice_to_vec(vstd::slice::slice_subrange(p, k + 1, p.len()));
        proof {
            assert(p@.subrange(k as int + 1, p@.len() as int) =~= p@.skip(k as int + 1));
        }
        (key, value)
    }
}

/// The pieces of `parts` concatenated with `sep` between neighbours.
pub open spec fn spec_join(parts: Seq<Seq<u8>>, sep: Seq<u8>) -> Seq<u8>
    decreases parts.len(),
{
    if parts.len() == 0 {
        Seq::<u8>::empty()
    } else if parts.len() == 1 {
        parts[0]
    } else {
        spec_join(parts.drop_last(), sep) + sep + parts.last()
    }
}

/// Appends all of `s` to `out`.
pub fn push_bytes(out: &mut Vec<u8>, s: &[u8])
    ensures
        final(out)@ == old(out)@ + s@,
{
    let mut i: usize = 0;
    while i < s.len()
        invariant
            0 <= i <= s@.len(),
            out@ == old(out)@ + s@.take(i as int),
        decreases s@.len() - i,
    {
        let ghost prev = out@;
        out.push(s[i]);
        proof {
            assert(old(out)@ + s@.take(i as int + 1) =~= prev.push(s@[i as int]));
        }
        i += 1;
    }
    proof {
        assert(s@.take(s@.len() as int) =~= s@);
        assert(out@ =~= old(out)@ + s@);
    }
}

/// Joins the pieces with `sep` between neighbours.
pub fn join_bytes(parts: &Vec<Vec<u8>>, sep: &[u8]) -> (r: Vec<u8>)
    ensures
        r@ == spec_join(parts@.map_values(|p: Vec<u8>| p@), sep@),
{
    let ghost views = parts@.map_values(|p: Vec<u8>| p@);
    let mut out: Vec<u8> = Vec::new();
    let mut i: usize = 0;
    proof {
        assert(views.take(0) =~= Seq::<Seq<u8>>::empty());
        assert(out@ =~= Seq::<u8>::empty());
    }
    while i < parts.len()
        invariant
            0 <= i <= parts@.len(),
            views == parts@.map_values(|p: Vec<u8>| p@),
            out@ == spec_join(views.take(i as int), sep@),
        decreases parts@.len() - i,
    {
        if i > 0 {
            push_bytes(&mut out, sep);
        }
        push_bytes(&mut out, parts[i].as_slice());
        proof {
            assert(views.take(i as int + 1).drop_last() =~= views.take(i as int));
            assert(views.take(i as int + 1).last() == views[i as int]);
            if i == 0 {
                assert(out@ =~= views[0]);
            }
        }
        i += 1;
    }
    proof {
        assert(views.take(views.len() as int) =~= views);
    }
    out
}

/// The ASCII characters of a string, each as its byte.
pub open spec fn spec_lit(s: Seq<char>) -> Seq<u8> {
    Seq::new(s.len(), |i: int| s[i] as u8)
}

/// The bytes of an ASCII string slice.
pub fn lit_bytes(s: &str) -> (r: Vec<u8>)
    requires
        vstd::string::is_ascii(s),
    ensures
        r@ == spec_lit(s@),
{
    proof {
        vstd::string::is_ascii_spec_bytes(s);
    }
    vstd::slice::slice_to_vec(s.as_bytes())
}

/// The decimal digits of `n`, most significant first.
pub open spec fn spec_decimal(n: int) -> Seq<u8>
    recommends
        n >= 0,
    decreases n,
{
    if n < 10 {
        seq![('0' as u8 + n) as u8]
    } else {
        spec_decimal(n / 10) + seq![('0' as u8 + n % 10) as u8]
    }
}

/// Appends the decimal rendering of `n` to `out`.
pub fn push_decimal(out: &mut Vec<u8>, n: u16)
    ensures
        final(out)@ == old(out)@ + spec_decimal(n as int),
    decreases n,
{
    let ghost entry = out@;
    if n >= 10 {
        push_decimal(out, n / 10);
    }
    let d: u8 = '0' as u8 + (n % 10) as u8;
    out.push(d);
    proof {
        if n >= 10 {
            assert(spec_decimal(n as int) == spec_decimal(n as int / 10) + seq![
                ('0' as u8 + (n as int) % 10) as u8,
            ]);
            assert(out@ =~= entry + spec_decimal(n as int));
        } else {
            assert(spec_decimal(n as int) =~= seq![d]);
            assert(out@ =~= entry + spec_decimal(n as int));
        }
    }
}

} // verus!
