use pyo3_levenshtein::distance::levenshtein_impl;
use pyo3_levenshtein::segment::code_points;
use pyo3_levenshtein::{levenshtein, levenshtein_batch, BatchError, PoolCache};
use std::sync::Arc;

const SAMPLES: [&str; 8] = [
    "",
    "a",
    "kitten",
    "sitting",
    "café",
    "cafe\u{0301}",
    "अनुच्छेद",
    "👩‍👩‍👧‍👦",
];

fn unit_count(s: &str, grapheme_segmentation: bool) -> usize {
    if grapheme_segmentation {
        match s {
            "cafe\u{0301}" => 4,
            "अनुच्छेद" => 4,
            "👩‍👩‍👧‍👦" => 1,
            _ => s.chars().count(),
        }
    } else {
        s.chars().count()
    }
}

#[test]
fn distance_to_self_is_zero() {
    for g in [false, true] {
        for s in SAMPLES {
            assert_eq!(levenshtein(s, s, g), 0);
        }
    }
}

#[test]
fn distance_is_symmetric() {
    for g in [false, true] {
        for a in SAMPLES {
            for b in SAMPLES {
                assert_eq!(levenshtein(a, b, g), levenshtein(b, a, g));
            }
        }
    }
}

#[test]
fn distance_obeys_triangle_inequality() {
    for g in [false, true] {
        for a in SAMPLES {
            for b in SAMPLES {
                for c in SAMPLES {
                    assert!(levenshtein(a, c, g) <= levenshtein(a, b, g) + levenshtein(b, c, g));
                }
            }
        }
    }
}

#[test]
fn distance_within_length_bounds() {
    for g in [false, true] {
        for a in SAMPLES {
            for b in SAMPLES {
                let (m, n) = (unit_count(a, g), unit_count(b, g));
                let d = levenshtein(a, b, g);
                assert!(m.abs_diff(n) <= d);
                assert!(d <= m.max(n));
            }
        }
    }
}

#[test]
fn conjunct_counts_once_as_grapheme() {
    assert_eq!(levenshtein("अनुच्छेद", "अनुछेद", true), 1);
    assert_eq!(levenshtein("अनुच्छेद", "अनुछेद", false), 2);
    assert_eq!(levenshtein("cafe\u{0301}", "cafe", true), 1);
    assert_eq!(levenshtein("cafe\u{0301}", "cafe", false), 1);
}

#[test]
fn long_inputs_leave_inline_rows() {
    let a = "ab".repeat(40);
    let b = "ba".repeat(40);
    assert_eq!(levenshtein(&a, &b, false), 2);
    assert_eq!(levenshtein(&a, "", false), 80);
    assert_eq!(levenshtein(&"x".repeat(50), &"y".repeat(35), true), 50);
}

#[test]
fn engine_on_generic_units() {
    assert_eq!(levenshtein_impl(&['a', 'b', 'c'], &['b', 'c']), 1);
    assert_eq!(levenshtein_impl::<char>(&[], &['x', 'y']), 2);
    let words: Vec<String> = vec!["the".into(), "quick".into(), "fox".into()];
    let other: Vec<String> = vec!["the".into(), "slow".into(), "fox".into(), "ran".into()];
    assert_eq!(levenshtein_impl(&words, &other), 2);
}

#[test]
fn code_points_in_order() {
    assert_eq!(code_points("né\u{0301}"), vec!['n', 'é', '\u{0301}']);
    assert_eq!(code_points(""), Vec::<char>::new());
}

#[test]
fn batch_keeps_input_order() {
    let cache = PoolCache::new();
    let pairs = vec![
        ("abc".to_string(), "xyz".to_string()),
        ("same".to_string(), "same".to_string()),
        ("ab".to_string(), "xb".to_string()),
        ("ab".to_string(), "xyb".to_string()),
    ];
    let mut reversed = pairs.clone();
    reversed.reverse();
    for threads in [None, Some(1), Some(3)] {
        assert_eq!(levenshtein_batch(&cache, pairs.clone(), threads, false).unwrap(), vec![3, 0, 1, 2]);
        assert_eq!(levenshtein_batch(&cache, reversed.clone(), threads, false).unwrap(), vec![2, 1, 0, 3]);
    }
}

#[test]
fn batch_matches_single_pairs() {
    let cache = PoolCache::new();
    let mut pairs = Vec::new();
    for a in SAMPLES {
        for b in SAMPLES {
            pairs.push((a.to_string(), b.to_string()));
        }
    }
    for g in [false, true] {
        let results = levenshtein_batch(&cache, pairs.clone(), Some(4), g).unwrap();
        assert_eq!(results.len(), pairs.len());
        for (i, (a, b)) in pairs.iter().enumerate() {
            assert_eq!(results[i], levenshtein(a, b, g));
        }
    }
}

#[test]
fn empty_batch_ignores_thread_count() {
    let cache = PoolCache::new();
    assert_eq!(levenshtein_batch(&cache, Vec::new(), Some(0), false).unwrap(), Vec::<usize>::new());
    assert_eq!(levenshtein_batch(&cache, Vec::new(), Some(5), true).unwrap(), Vec::<usize>::new());
}

#[test]
fn zero_threads_is_invalid_argument() {
    let cache = PoolCache::new();
    let pairs = vec![("a".to_string(), "b".to_string())];
    let err = levenshtein_batch(&cache, pairs, Some(0), false).unwrap_err();
    assert!(matches!(err, BatchError::InvalidArgument));
    assert_eq!(err.to_string(), "num_threads must be at least 1");
}

#[test]
fn pool_error_carries_cause() {
    let err = BatchError::PoolConstruction("out of threads".to_string());
    assert_eq!(err.to_string(), "out of threads");
}

#[test]
fn cache_reuses_pool_per_count() {
    let cache = PoolCache::new();
    let first = cache.get_or_create_pool(2).unwrap();
    let again = cache.get_or_create_pool(2).unwrap();
    let other = cache.get_or_create_pool(3).unwrap();
    assert!(Arc::ptr_eq(&first, &again));
    assert!(!Arc::ptr_eq(&first, &other));
    assert_eq!(first.current_num_threads(), 2);
    assert_eq!(other.current_num_threads(), 3);
}

#[test]
fn cache_builds_default_pool_once() {
    let cache = PoolCache::new();
    let first = cache.get_or_create_default_pool().unwrap();
    let again = cache.get_or_create_default_pool().unwrap();
    assert!(Arc::ptr_eq(&first, &again));
    assert!(first.current_num_threads() >= 1);
    let pairs = vec![("kitten".to_string(), "sitting".to_string())];
    assert_eq!(levenshtein_batch(&cache, pairs, None, false).unwrap(), vec![3]);
}
