use taceo_proof_client::witness::{tag_witness, WitnessEntry};

#[test]
fn listed_indices_are_public() {
    let tagged = tag_witness(&vec![10u64, 11, 12, 13], &[3, 1, 7]);
    assert_eq!(
        tagged,
        vec![WitnessEntry::Private(10), WitnessEntry::Public(11), WitnessEntry::Private(12), WitnessEntry::Public(13)]
    );
}

#[test]
fn no_public_inputs_means_all_private() {
    let tagged = tag_witness(&vec![1u8, 2], &[]);
    assert_eq!(tagged, vec![WitnessEntry::Private(1), WitnessEntry::Private(2)]);
}

#[test]
fn empty_witness_stays_empty() {
    assert!(tag_witness::<u32>(&vec![], &[0, 1]).is_empty());
}

#[test]
fn tagging_keeps_the_values_in_order() {
    let witness = vec![5i32, -1, 7, 0, 9];
    let values: Vec<i32> = tag_witness(&witness, &[0, 4])
        .into_iter()
        .map(|entry| match entry {
            WitnessEntry::Public(v) | WitnessEntry::Private(v) => v,
        })
        .collect();
    assert_eq!(values, witness);
}
