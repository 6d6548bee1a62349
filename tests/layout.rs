use mult_polynomial::layout::{
    chunk_fill, chunk_size, degree_of_len, effective_threshold, overlap_target, product_len,
    trimmed_len, uses_direct, MIN_THRESHOLD,
};
use mult_polynomial::PolynomialMultAlg;

#[test]
fn threshold_is_clamped_to_five() {
    assert_eq!(effective_threshold(1), 5);
    assert_eq!(effective_threshold(4), 5);
    assert_eq!(effective_threshold(5), 5);
    assert_eq!(effective_threshold(6), 6);
    assert_eq!(effective_threshold(64), 64);
}

#[test]
fn low_threshold_branches_like_five() {
    for t in 1..=MIN_THRESHOLD {
        for n in 0..12 {
            for m in 0..12 {
                assert_eq!(uses_direct(n, m, t), uses_direct(n, m, MIN_THRESHOLD));
            }
        }
    }
}

#[test]
fn direct_path_below_threshold() {
    assert!(uses_direct(4, 4, 5));
    assert!(uses_direct(3, 3, 1));
    assert!(uses_direct(100, 4, 1));
    assert!(uses_direct(5, 100, 8));
    assert!(!uses_direct(5, 5, 5));
    assert!(!uses_direct(5, 5, 1));
    assert!(!uses_direct(10, 10, 8));
}

#[test]
fn long_second_operand_takes_direct_path() {
    assert!(uses_direct(5, 7, 5));
    assert!(uses_direct(5, 100, 1));
    assert!(!uses_direct(5, 6, 5));
    assert!(!uses_direct(100, 5, 1));
}

#[test]
fn chunk_size_rounds_up() {
    assert_eq!(chunk_size(0), 0);
    assert_eq!(chunk_size(5), 2);
    assert_eq!(chunk_size(6), 2);
    assert_eq!(chunk_size(7), 3);
    assert_eq!(chunk_size(9), 3);
    assert_eq!(chunk_size(usize::MAX), usize::MAX / 3);
}

#[test]
fn chunk_fill_pads_short_tails() {
    assert_eq!(chunk_fill(5, 2, 0), 2);
    assert_eq!(chunk_fill(5, 2, 1), 2);
    assert_eq!(chunk_fill(5, 2, 2), 1);
    assert_eq!(chunk_fill(3, 2, 0), 2);
    assert_eq!(chunk_fill(3, 2, 1), 1);
    assert_eq!(chunk_fill(3, 2, 2), 0);
    assert_eq!(chunk_fill(0, 2, 0), 0);
}

#[test]
fn split_chunks_hold_every_coefficient() {
    assert_eq!(chunk_fill(6, 2, 0) + chunk_fill(6, 2, 1) + chunk_fill(6, 2, 2), 6);
    for t in 1..9 {
        for n in 0..40 {
            for m in 0..40 {
                if !uses_direct(n, m, t) {
                    let c = chunk_size(n);
                    let fill_a = chunk_fill(n, c, 0) + chunk_fill(n, c, 1) + chunk_fill(n, c, 2);
                    let fill_b = chunk_fill(m, c, 0) + chunk_fill(m, c, 1) + chunk_fill(m, c, 2);
                    assert_eq!(fill_a, n);
                    assert_eq!(fill_b, m);
                }
            }
        }
    }
    assert_eq!(chunk_fill(usize::MAX, usize::MAX / 2, 2), 1);
}

#[test]
fn product_lengths() {
    assert_eq!(product_len(4, 4), 7);
    assert_eq!(product_len(3, 3), 5);
    assert_eq!(product_len(3, 2), 4);
    assert_eq!(product_len(1, 1), 1);
}

#[test]
fn product_with_empty_operand_is_empty() {
    assert_eq!(product_len(3, 0), 0);
    assert_eq!(product_len(0, 3), 0);
    assert_eq!(product_len(0, 0), 0);
}

#[test]
fn product_len_is_symmetric() {
    for n in 0..10 {
        for m in 0..10 {
            assert_eq!(product_len(n, m), product_len(m, n));
        }
    }
}

#[test]
fn product_degree_is_sum_of_degrees() {
    assert_eq!(degree_of_len(product_len(4, 4)), 6);
    assert_eq!(degree_of_len(product_len(3, 2)), degree_of_len(3) + degree_of_len(2));
    assert_eq!(degree_of_len(product_len(1, 1)), 0);
}

#[test]
fn overlap_targets_and_drops() {
    assert_eq!(overlap_target(1, 2, 3, 10), Some(7));
    assert_eq!(overlap_target(0, 0, 3, 10), Some(0));
    assert_eq!(overlap_target(1, 4, 3, 10), None);
    assert_eq!(overlap_target(2, 4, 2, 10), None);
    assert_eq!(overlap_target(1, 4, 2, 10), Some(9));
    assert_eq!(overlap_target(usize::MAX, 1, 1, 5), None);
    assert_eq!(overlap_target(0, 4, usize::MAX, 10), None);
}

#[test]
fn trimming_strips_trailing_negligible() {
    assert_eq!(trimmed_len(&[false, true, true]), 1);
    assert_eq!(trimmed_len(&[true, true]), 0);
    assert_eq!(trimmed_len(&[]), 0);
    assert_eq!(trimmed_len(&[true, false]), 2);
    assert_eq!(trimmed_len(&[false, true, false, true]), 3);
}

#[test]
fn degree_of_zero_polynomial_is_zero() {
    assert_eq!(degree_of_len(0), 0);
    assert_eq!(degree_of_len(1), 0);
    assert_eq!(degree_of_len(7), 6);
}

#[test]
fn algorithm_selector_compares_by_variant() {
    assert_eq!(PolynomialMultAlg::Thresholded(8), PolynomialMultAlg::Thresholded(8));
    assert_ne!(PolynomialMultAlg::Thresholded(8), PolynomialMultAlg::Thresholded(16));
    assert_ne!(PolynomialMultAlg::Naive, PolynomialMultAlg::CookTooms);
}

#[test]
fn overlap_add_reaches_every_result_position() {
    let n: usize = 5;
    let m: usize = 6;
    let c = chunk_size(n);
    let len = product_len(n, m);
    let sub_len = 2 * c - 1;
    for k in 0..len {
        let mut hit = false;
        for d in 0..5 {
            for i in 0..sub_len {
                if overlap_target(i, d, c, len) == Some(k) {
                    hit = true;
                }
            }
        }
        assert!(hit, "position {} not reached", k);
    }
}
