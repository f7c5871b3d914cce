use sine_generator::{create_partition_key, WavSpec};

const ID_SEPARATOR: &str = "_";

#[test]
fn test_create_partition_key() {
    let spec = WavSpec { number_of_channels: 2, bits_per_sample: 16, sample_rate: 23000 };
    let request_id = "567fab82-770a-44ef-8aab-d434a0b07a33";

    let partition_key = create_partition_key(&spec, request_id);
    let expected = format!("567fab82{ID_SEPARATOR}2{ID_SEPARATOR}23000{ID_SEPARATOR}16");
    assert_eq!(partition_key, expected);
}

#[test]
fn partition_key_without_dash_keeps_whole_id() {
    let spec = WavSpec { number_of_channels: 1, bits_per_sample: 8, sample_rate: 8000 };
    assert_eq!(create_partition_key(&spec, "abc"), "abc_1_8000_8");
}

#[test]
fn partition_key_of_empty_id() {
    let spec = WavSpec { number_of_channels: 1, bits_per_sample: 8, sample_rate: 0 };
    assert_eq!(create_partition_key(&spec, ""), "_1_0_8");
}

#[test]
fn partition_key_with_leading_dash() {
    let spec = WavSpec { number_of_channels: 2, bits_per_sample: 16, sample_rate: 4294967295 };
    assert_eq!(create_partition_key(&spec, "-x-y"), "_2_4294967295_16");
}
