use jibri_pod_controller::labels::parse_labels;
use jibri_pod_controller::store::busy_patch;

#[test]
fn labels_parse_in_order() {
    let pairs = parse_labels(b"app=worker,tier=hot");
    assert_eq!(
        pairs,
        vec![
            (b"app".to_vec(), b"worker".to_vec()),
            (b"tier".to_vec(), b"hot".to_vec()),
        ]
    );
}

#[test]
fn label_without_value_gets_empty_value() {
    assert_eq!(parse_labels(b"solo"), vec![(b"solo".to_vec(), b"".to_vec())]);
    assert_eq!(parse_labels(b"k="), vec![(b"k".to_vec(), b"".to_vec())]);
}

#[test]
fn label_value_keeps_later_equals_signs() {
    assert_eq!(
        parse_labels(b"k=a=b"),
        vec![(b"k".to_vec(), b"a=b".to_vec())]
    );
}

#[test]
fn duplicate_keys_are_kept_in_order() {
    // The patch folds the pairs in order, so the later value wins when the
    // patch is applied; the parse itself keeps both.
    assert_eq!(
        parse_labels(b"k=1,k=2"),
        vec![(b"k".to_vec(), b"1".to_vec()), (b"k".to_vec(), b"2".to_vec())]
    );
}

#[test]
fn empty_configuration_yields_one_empty_pair() {
    assert_eq!(parse_labels(b""), vec![(b"".to_vec(), b"".to_vec())]);
}

#[test]
fn busy_patch_holds_labels_and_evict_annotation() {
    let patch = busy_patch(b"app=worker,tier=hot");
    assert_eq!(
        patch.labels,
        vec![
            (b"app".to_vec(), b"worker".to_vec()),
            (b"tier".to_vec(), b"hot".to_vec()),
        ]
    );
    assert_eq!(
        patch.annotations,
        vec![(
            b"cluster-autoscaler.kubernetes.io/safe-to-evict".to_vec(),
            b"false".to_vec(),
        )]
    );
}
