//! The label set applied to busy workers, parsed from a comma-separated
//! `key=value` configuration string, and the fixed evict-protection
//! annotation added beside it.

use vstd::prelude::*;
use crate::text::{spec_split, spec_key_value, spec_lit, split_bytes, split_key_value, lit_bytes};

verus! {

/// The `key=value` pairs of a comma-separated configuration string, in
/// configuration order. A piece without `'='` yields an empty value.
pub open spec fn spec_label_pairs(cfg: Seq<u8>) -> Seq<(Seq<u8>, Seq<u8>)> {
    spec_split(cfg, ',' as u8).map_values(|p: Seq<u8>| spec_key_value(p))
}

/// The pairs folded into a map, in order: when a key repeats, the last
/// pair wins, as insertion into an ordered map does.
pub open spec fn spec_label_map(pairs: Seq<(Seq<u8>, Seq<u8>)>) -> Map<Seq<u8>, Seq<u8>>
    decreases pairs.len(),
{
    if pairs.len() == 0 {
        Map::<Seq<u8>, Seq<u8>>::empty()
    } else {
        spec_label_map(pairs.drop_last()).insert(pairs.last().0, pairs.last().1)
    }
}

/// Parses the configured label set from its `key=value,key=value` form.
pub fn parse_labels(cfg: &[u8]) -> (r: Vec<(Vec<u8>, Vec<u8>)>)
    ensures
        r@.map_values(|p: (Vec<u8>, Vec<u8>)| (p.0@, p.1@)) == spec_label_pairs(cfg@),
{
    let segs = split_bytes(cfg, ',' as u8);
    let ghost seg_views = segs@.map_values(|p: Vec<u8>| p@);
    let mut out: Vec<(Vec<u8>, Vec<u8>)> = Vec::new();
    let mut i: usize = 0;
    proof {
        assert(out@.map_values(|p: (Vec<u8>, Vec<u8>)| (p.0@, p.1@)) =~= Seq::<(
            Seq<u8>,
            Seq<u8>,
        )>::empty());
        assert(seg_views.map_values(|p: Seq<u8>| spec_key_value(p)).take(0) =~= Seq::<(
            Seq<u8>,
            Seq<u8>,
        )>::empty());
    }
    while i < segs.len()
        invariant
            0 <= i <= segs@.len(),
            seg_views == segs@.map_values(|p: Vec<u8>| p@),
            spec_label_pairs(cfg@) == seg_views.map_values(|p: Seq<u8>| spec_key_value(p)),
            out@.map_values(|p: (Vec<u8>, Vec<u8>)| (p.0@, p.1@)) == seg_views.map_values(
                |p: Seq<u8>| spec_key_value(p),
            ).take(i as int),
        decreases segs@.len() - i,
    {
        let ghost old_out = out@;
        let pair = split_key_value(segs[i].as_slice());
        out.push(pair);
        proof {
            let f = |p: (Vec<u8>, Vec<u8>)| (p.0@, p.1@);
            let g = |p: Seq<u8>| spec_key_value(p);
            assert(out@.map_values(f) =~= old_out.map_values(f).push(f(pair)));
            assert(seg_views.map_values(g).take(i as int + 1) =~= seg_views.map_values(g).take(
                i as int,
            ).push(g(seg_views[i as int])));
        }
        i += 1;
    }
    proof {
        let g = |p: Seq<u8>| spec_key_value(p);
        assert(seg_views.map_values(g).take(seg_views.len() as int) =~= seg_views.map_values(g));
    }
    out
}

/// The annotation key that marks a pod as unsafe to auto-evict.
pub open spec fn spec_evict_annotation_key() -> Seq<u8> {
    spec_lit("cluster-autoscaler.kubernetes.io/safe-to-evict"@)
}

/// The value the evict-protection annotation is set to.
pub open spec fn spec_evict_annotation_value() -> Seq<u8> {
    spec_lit("false"@)
}

/// The evict-protection annotation key, as bytes.
pub fn evict_annotation_key() -> (r: Vec<u8>)
    ensures
        r@ == spec_evict_annotation_key(),
{
    proof {
        reveal_strlit("cluster-autoscaler.kubernetes.io/safe-to-evict");
    }
    lit_bytes("cluster-autoscaler.kubernetes.io/safe-to-evict")
}

/// The evict-protection annotation value, as bytes.
pub fn evict_annotation_value() -> (r: Vec<u8>)
    ensures
        r@ == spec_evict_annotation_value(),
{
    proof {
        reveal_strlit("false");
    }
    lit_bytes("false")
}

} // verus!
