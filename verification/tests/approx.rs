use approximately::blocks::Blocks;
use approximately::composite::Lanes4;
use approximately::scalar::{Micro, Milli};
use approximately::ApproxEq;

fn milli(millionths: i64) -> Milli {
    Milli { millionths }
}

fn micro(millionths: i64) -> Micro {
    Micro { millionths }
}

#[test]
fn test_approx_eq() {
    assert!(
        milli(1_000_000).approx(&milli(1_000_100)),
        "1.0000 approx 1.0001"
    );
    assert!(
        !milli(1_000_000).approx(&milli(1_001_001)),
        "1.000000 not approx 1.001001"
    );

    assert!(
        micro(1_000_000).approx(&micro(1_000_001)),
        "1.000000 approx 1.000001"
    );
    assert!(
        !micro(1_000_000).approx(&micro(1_000_010)),
        "1.000000 not approx 1.000010"
    );
}

#[test]
fn test_assert_approx_eq() {
    milli(1_000_000).assert_approx(&milli(1_000_100));
    micro(1_000_000).assert_approx(&micro(1_000_001));

    let a = Lanes4 {
        lanes: [milli(1_000_000); 4],
    };
    let b = Lanes4 {
        lanes: [milli(1_000_100); 4],
    };
    a.assert_approx(&b);
}

#[test]
fn test_milli_boundary_inclusive() {
    // A difference exactly at the tolerance still passes; one unit beyond fails.
    assert!(milli(1_000_000).approx(&milli(1_001_000)));
    assert!(milli(1_001_000).approx(&milli(1_000_000)));
    assert!(!milli(1_000_000).approx(&milli(1_001_001)));
    assert!(!milli(1_001_001).approx(&milli(1_000_000)));
}

#[test]
fn test_micro_boundary_inclusive() {
    assert!(micro(1_000_000).approx(&micro(1_000_001)));
    assert!(micro(1_000_001).approx(&micro(1_000_000)));
    assert!(!micro(1_000_000).approx(&micro(1_000_002)));
    assert!(!micro(1_000_002).approx(&micro(1_000_000)));
}

#[test]
fn test_scalar_reflexive() {
    for value in [0, 1, -1, 123_456_789, i64::MAX, i64::MIN] {
        assert!(milli(value).approx(&milli(value)));
        assert!(micro(value).approx(&micro(value)));
    }
}

#[test]
fn test_scalar_extremes() {
    assert!(!milli(i64::MAX).approx(&milli(i64::MIN)));
    assert!(!milli(i64::MIN).approx(&milli(i64::MAX)));
    assert!(!micro(i64::MAX).approx(&micro(0)));
}

#[test]
fn test_seq_elementwise() {
    let a = vec![milli(1_000_000), milli(2_000_000)];
    let b = vec![milli(1_000_000), milli(2_000_000)];
    assert!(a.approx(&b));

    let c = vec![milli(1_000_000), milli(2_100_000)];
    assert!(!a.approx(&c), "difference beyond tolerance at one position");
}

#[test]
fn test_seq_length_mismatch() {
    let a = vec![milli(1_000_000)];
    let b = vec![milli(1_000_000), milli(1_000_000)];
    assert!(!a.approx(&b));
    assert!(!b.approx(&a));

    let empty: Vec<Milli> = Vec::new();
    assert!(!empty.approx(&a));
}

#[test]
fn test_seq_empty() {
    let a: Vec<Micro> = Vec::new();
    let b: Vec<Micro> = Vec::new();
    assert!(a.approx(&b));
}

#[test]
fn test_option_semantics() {
    let none: Option<Micro> = None;
    assert!(none.approx(&None));
    assert!(!Some(micro(1_000_000)).approx(&None));
    assert!(!none.approx(&Some(micro(1_000_000))));
    assert!(Some(micro(1_000_000)).approx(&Some(micro(1_000_001))));
    assert!(!Some(micro(1_000_000)).approx(&Some(micro(2_000_000))));
}

#[test]
fn test_option_assert() {
    let none: Option<Milli> = None;
    none.assert_approx(&None);
    Some(milli(5)).assert_approx(&Some(milli(1_005)));
}

#[test]
fn test_lanes4() {
    let a = Lanes4 {
        lanes: [micro(10), micro(20), micro(30), micro(40)],
    };
    let b = Lanes4 {
        lanes: [micro(11), micro(19), micro(30), micro(41)],
    };
    assert!(a.approx(&b));

    let c = Lanes4 {
        lanes: [micro(11), micro(19), micro(32), micro(41)],
    };
    assert!(!a.approx(&c), "one lane beyond tolerance fails the whole value");
}

#[test]
fn test_blocks_similarity() {
    // Five positions, one mismatch: four of five match, exactly the threshold.
    let base = Blocks(vec![1, 2, 3, 4, 5]);
    let one_off = Blocks(vec![1, 2, 3, 4, 9]);
    assert!(base.approx(&one_off));

    // Two mismatches: three of five match, below the threshold.
    let two_off = Blocks(vec![1, 2, 3, 9, 9]);
    assert!(!base.approx(&two_off));
}

#[test]
fn test_blocks_not_symmetric() {
    // The ratio is taken against the length of the left operand alone.
    let short = Blocks(vec![1, 2, 3, 4, 5]);
    let long = Blocks(vec![1, 2, 3, 4, 5, 9, 9, 9, 9, 9]);
    assert!(short.approx(&long));
    assert!(!long.approx(&short));
}
