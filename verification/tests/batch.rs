use diff_engine::{batch_calculate_diffs, calculate_diff, diff_pair, DiffError};

fn pair(a: &str, b: &str) -> (Vec<u8>, Vec<u8>) {
    (a.as_bytes().to_vec(), b.as_bytes().to_vec())
}

#[test]
fn batch_keeps_the_order_of_its_input() {
    let n: usize = 10_000;
    let pairs: Vec<(Vec<u8>, Vec<u8>)> = (0..n).map(|i| (Vec::new(), vec![b'x'; i])).collect();
    for _ in 0..3 {
        let slots = batch_calculate_diffs(pairs.clone(), None);
        assert_eq!(slots.len(), n);
        for (i, slot) in slots.iter().enumerate() {
            let r = slot.as_ref().expect("valid pair");
            assert_eq!(r.diff_size, i);
            assert_eq!(r.is_significant, i >= 10);
        }
    }
}

#[test]
fn batch_isolates_a_malformed_pair() {
    let mut pairs: Vec<(Vec<u8>, Vec<u8>)> = Vec::new();
    for i in 0..100 {
        if i == 42 {
            pairs.push((b"fine\n".to_vec(), vec![0x66, 0xff, 0x6f]));
        } else {
            pairs.push(pair("line\n", &format!("line\n{}\n", "y".repeat(i))));
        }
    }
    let slots = batch_calculate_diffs(pairs, Some(5));
    assert_eq!(slots.len(), 100);
    let mut ok = 0;
    let mut failed = 0;
    for (i, slot) in slots.iter().enumerate() {
        match slot {
            Ok(r) => {
                ok += 1;
                assert_ne!(i, 42);
                assert_eq!(r.diff_size, i + 1);
                assert_eq!(r.lines_added, 1);
                assert_eq!(r.lines_removed, 0);
                assert_eq!(r.is_significant, i + 1 >= 5);
            }
            Err(e) => {
                failed += 1;
                assert_eq!(i, 42);
                assert_eq!(*e, DiffError::InvalidInput);
            }
        }
    }
    assert_eq!(ok, 99);
    assert_eq!(failed, 1);
}

#[test]
fn batch_slot_equals_the_single_comparison() {
    let texts = [("a\nb\n", "a\nc\nd\n"), ("", ""), ("same\n", "same\n"), ("x\ny\nz\n", "x\n")];
    let pairs: Vec<(Vec<u8>, Vec<u8>)> = texts.iter().map(|(a, b)| pair(a, b)).collect();
    let slots = batch_calculate_diffs(pairs, Some(2));
    for (slot, (a, b)) in slots.iter().zip(texts.iter()) {
        let single = calculate_diff(a.to_string(), b.to_string(), Some(2), Some(false));
        assert_eq!(slot.as_ref().ok(), Some(&single));
        assert_eq!(single.unified_diff, None);
    }
}

#[test]
fn empty_batch_gives_no_slot() {
    assert!(batch_calculate_diffs(Vec::new(), None).is_empty());
}

#[test]
fn pair_with_invalid_old_or_new_side_is_rejected() {
    let bad = vec![0xc3, 0x28];
    let good = b"ok\n".to_vec();
    assert_eq!(diff_pair(&bad, &good, 1), Err(DiffError::InvalidInput));
    assert_eq!(diff_pair(&good, &bad, 1), Err(DiffError::InvalidInput));
    assert_eq!(diff_pair(&bad, &bad, 1), Err(DiffError::InvalidInput));
    let r = diff_pair(&good, &"ok\nmore\n".as_bytes().to_vec(), 5).expect("valid pair");
    assert_eq!(r.diff_size, 5);
    assert!(r.is_significant);
    assert_eq!(r.summary, "+5 chars");
    assert_eq!(r.lines_added, 1);
}
