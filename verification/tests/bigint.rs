use plonk_proof::bigint::is_zero;

#[test]
fn zero_is_spelled_with_zero_bytes_only() {
    assert!(is_zero(&vec![]));
    assert!(is_zero(&vec![0]));
    assert!(is_zero(&vec![0, 0, 0]));
    assert!(!is_zero(&vec![1]));
    assert!(!is_zero(&vec![0, 0, 1]));
    assert!(!is_zero(&vec![0x80, 0, 0]));
    assert!(!is_zero(&vec![0, 2, 0]));
}
