use pallet_kitties::genetics::crossover;
use pallet_kitties::randomness::selector;

#[test]
fn crossover_takes_each_bit_from_one_parent() {
    let a = [0x0f; 16];
    let b = [0xf0; 16];
    let selector = [0xaa; 16];
    assert_eq!(crossover(&a, &b, &selector), [0x5a; 16]);
}

#[test]
fn crossover_with_a_full_selector_is_the_first_parent() {
    let a = [1, 2, 3, 4, 5, 6, 7, 8, 9, 10, 11, 12, 13, 14, 15, 16];
    let b = [255, 254, 253, 252, 251, 250, 249, 248, 247, 246, 245, 244, 243, 242, 241, 240];
    assert_eq!(crossover(&a, &b, &[0xff; 16]), a);
    assert_eq!(crossover(&a, &b, &[0x00; 16]), b);
}

#[test]
fn crossover_of_given_bytes() {
    let a = [68, 32, 130, 60, 253, 230, 241, 194, 107, 48, 249, 14, 199, 221, 1, 228];
    let b = [136, 117, 52, 162, 15, 11, 13, 4, 195, 110, 216, 14, 113, 224, 253, 119];
    let s = [176, 118, 112, 235, 148, 11, 213, 51, 95, 151, 61, 170, 216, 97, 155, 145];
    let child = [8, 33, 4, 40, 159, 2, 217, 6, 203, 120, 249, 14, 225, 193, 101, 230];
    assert_eq!(crossover(&a, &b, &s), child);
    assert_eq!(crossover(&a, &b, &s), crossover(&a, &b, &s));
}

#[test]
fn selector_hashes_the_encoded_payload() {
    assert_eq!(
        selector(&[0; 32], 0, 1, None),
        [13, 230, 184, 118, 55, 106, 96, 136, 215, 112, 142, 153, 15, 242, 178, 234]
    );
    assert_eq!(
        selector(&[0; 32], 0, 2, None),
        [238, 116, 44, 165, 9, 36, 79, 135, 86, 113, 98, 110, 209, 78, 39, 155]
    );
    assert_eq!(
        selector(&[7; 32], 5, 1, Some(3)),
        [222, 74, 100, 79, 130, 232, 71, 221, 34, 217, 195, 25, 113, 20, 180, 38]
    );
}
