use climate_sensor::vec_to_int;

#[test]
fn converts_bits_to_num() {
    let result = vec_to_int(&vec![1, 1, 0, 1]);

    assert_eq!(result, 13);
}

#[test]
fn handles_non_zero_nums() {
    let result = vec_to_int(&vec![10, 10, 0]);

    assert_eq!(result, 0);
}

#[test]
fn skips_non_binary_entries_between_bits() {
    assert_eq!(vec_to_int(&vec![1, 7, 0, 2, 1]), 5);
}

#[test]
fn keeps_only_the_low_eight_bits() {
    assert_eq!(vec_to_int(&vec![1, 1, 0, 0, 0, 0, 0, 0, 0, 1]), 1);
    assert_eq!(vec_to_int(&vec![1, 1, 1, 1, 1, 1, 1, 1]), 255);
    assert_eq!(vec_to_int(&vec![]), 0);
}
