//! A model of the external pod store and the mutations the controller plans
//! against it.
//!
//! The store itself is a remote resource with per-call CRUD semantics; the
//! controller only ever issues two mutations: delete a pod by name, or apply
//! a force merge patch of labels and annotations. The model states what each
//! mutation does to a store mapping pod names to their label and annotation
//! sets, so the webhook laws (idempotent delete, patch-always-wins) can be
//! proved of the planned mutations.

use vstd::prelude::*;
use crate::labels::{
    spec_label_pairs,
    spec_label_map,
    spec_evict_annotation_key,
    spec_evict_annotation_value,
    parse_labels,
    evict_annotation_key,
    evict_annotation_value,
};

verus! {

/// A pod as the store holds it, reduced to what the controller touches:
/// its labels and its annotations.
pub struct PodModel {
    pub labels: Map<Seq<u8>, Seq<u8>>,
    pub annotations: Map<Seq<u8>, Seq<u8>>,
}

/// The label and annotation content of a force merge patch.
pub struct PodPatch {
    pub labels: Vec<(Vec<u8>, Vec<u8>)>,
    pub annotations: Vec<(Vec<u8>, Vec<u8>)>,
}

impl PodPatch {
    /// The patch's label pairs, as sequences.
    pub open spec fn label_views(self) -> Seq<(Seq<u8>, Seq<u8>)> {
        self.labels@.map_values(|p: (Vec<u8>, Vec<u8>)| (p.0@, p.1@))
    }

    /// The patch's annotation pairs, as sequences.
    pub open spec fn annotation_views(self) -> Seq<(Seq<u8>, Seq<u8>)> {
        self.annotations@.map_values(|p: (Vec<u8>, Vec<u8>)| (p.0@, p.1@))
    }
}

/// One planned mutation of the pod store.
pub enum StoreMutation {
    /// Remove the named pod; removing an absent pod leaves the store as it is.
    Delete { name: Vec<u8> },
    /// Apply `patch` to the named pod with force semantics: the patch's
    /// labels and annotations win over any prior value.
    Patch { name: Vec<u8>, patch: PodPatch },
}

/// The patch every busy report applies: the configured labels plus the
/// evict-protection annotation.
pub fn busy_patch(labels_cfg: &[u8]) -> (r: PodPatch)
    ensures
        r.label_views() == spec_label_pairs(labels_cfg@),
        r.annotation_views() == seq![
            (spec_evict_annotation_key(), spec_evict_annotation_value()),
        ],
{
    let mut annotations: Vec<(Vec<u8>, Vec<u8>)> = Vec::new();
    annotations.push((evict_annotation_key(), evict_annotation_value()));
    let r = PodPatch { labels: parse_labels(labels_cfg), annotations };
    proof {
        assert(r.annotation_views() =~= seq![
            (spec_evict_annotation_key(), spec_evict_annotation_value()),
        ]);
    }
    r
}

/// A pod after a patch: patched entries win over prior ones; everything
/// else stays.
pub open spec fn spec_apply_patch(pod: PodModel, patch: PodPatch) -> PodModel {
    PodModel {
        labels: pod.labels.union_prefer_right(spec_label_map(patch.label_views())),
        annotations: pod.annotations.union_prefer_right(
            spec_label_map(patch.annotation_views()),
        ),
    }
}

/// The store after a mutation. A delete removes the name if present and is
/// a no-op otherwise; a patch rewrites the named pod and is a no-op on an
/// absent name (the call fails at the store instead).
pub open spec fn spec_apply_mutation(
    store: Map<Seq<u8>, PodModel>,
    m: StoreMutation,
) -> Map<Seq<u8>, PodModel> {
    match m {
        StoreMutation::Delete { name } => store.remove(name@),
        StoreMutation::Patch { name, patch } => {
            if store.dom().contains(name@) {
                store.insert(name@, spec_apply_patch(store[name@], patch))
            } else {
                store
            }
        },
    }
}

/// A delete removes the named pod, and repeating the identical delete after
/// it changes nothing: the desired end state, pod absent, already holds.
pub proof fn lemma_delete_idempotent(store: Map<Seq<u8>, PodModel>, m: StoreMutation)
    requires
        m is Delete,
    ensures
        m matches StoreMutation::Delete { name } ==> {
            let once = spec_apply_mutation(store, m);
            &&& !once.dom().contains(name@)
            &&& spec_apply_mutation(once, m) == once
        },
{
    if let StoreMutation::Delete { name } = m {
        let once = spec_apply_mutation(store, m);
        assert(spec_apply_mutation(once, m) =~= once);
    }
}

/// After a patch of a present pod, every patched label holds with the
/// patched value, and so does every patched annotation, whatever the pod's
/// prior labels were: force merge semantics.
pub proof fn lemma_patch_wins(store: Map<Seq<u8>, PodModel>, m: StoreMutation)
    requires
        m is Patch,
    ensures
        m matches StoreMutation::Patch { name, patch } ==> store.dom().contains(name@) ==> {
            let pod = spec_apply_mutation(store, m)[name@];
            let patched_labels = spec_label_map(patch.label_views());
            let patched_annotations = spec_label_map(patch.annotation_views());
            &&& forall|k: Seq<u8>|
                patched_labels.dom().contains(k) ==> pod.labels.dom().contains(k)
                    && pod.labels[k] == patched_labels[k]
            &&& forall|k: Seq<u8>|
                patched_annotations.dom().contains(k) ==> pod.annotations.dom().contains(k)
                    && pod.annotations[k] == patched_annotations[k]
        },
{
}

/// Every configured label pair's final value, and the evict-protection
/// annotation, are in the maps a busy patch applies: together with
/// [`lemma_patch_wins`] they hold on the pod afterwards, whatever its prior
/// state.
pub proof fn lemma_busy_patch_content(patch: PodPatch, cfg: Seq<u8>)
    requires
        patch.label_views() == spec_label_pairs(cfg),
        patch.annotation_views() == seq![
            (spec_evict_annotation_key(), spec_evict_annotation_value()),
        ],
    ensures
        forall|i: int|
            0 <= i < spec_label_pairs(cfg).len() ==> spec_label_map(
                patch.label_views(),
            ).dom().contains(#[trigger] spec_label_pairs(cfg)[i].0),
        spec_label_map(patch.annotation_views()).dom().contains(spec_evict_annotation_key()),
        spec_label_map(patch.annotation_views())[spec_evict_annotation_key()]
            == spec_evict_annotation_value(),
{
    let annotations = patch.annotation_views();
    assert(annotations.len() == 1);
    assert(annotations.last() == (spec_evict_annotation_key(), spec_evict_annotation_value()));
    assert(annotations.drop_last() =~= Seq::<(Seq<u8>, Seq<u8>)>::empty());
    assert(spec_label_map(Seq::<(Seq<u8>, Seq<u8>)>::empty()) == Map::<Seq<u8>, Seq<u8>>::empty());
    assert(spec_label_map(annotations) == Map::<Seq<u8>, Seq<u8>>::empty().insert(
        spec_evict_annotation_key(),
        spec_evict_annotation_value(),
    ));
    lemma_label_map_domain(spec_label_pairs(cfg));
}

/// Every pair's key is in the folded map's domain.
pub proof fn lemma_label_map_domain(pairs: Seq<(Seq<u8>, Seq<u8>)>)
    ensures
        forall|i: int|
            0 <= i < pairs.len() ==> spec_label_map(pairs).dom().contains(
                #[trigger] pairs[i].0,
            ),
    decreases pairs.len(),
{
    if pairs.len() > 0 {
        lemma_label_map_domain(pairs.drop_last());
        assert(forall|i: int|
            0 <= i < pairs.len() - 1 ==> pairs.drop_last()[i].0 == #[trigger] pairs[i].0);
    }
}

} // verus!
