use nnxor::gates::{and, nand, nor, or, xnor, xor};
use nnxor::rnd::{Rnd, SeedError, P};

#[test]
fn first_draws_from_seed_one() {
    let mut r = Rnd::new();
    assert_eq!(r.next(), 16807);
    assert_eq!(r.next(), 282475249);
    assert_eq!(r.next(), 1622650073);
}

#[test]
fn same_seed_same_stream() {
    let mut a = Rnd::new();
    let mut b = Rnd::new();
    for _ in 0..1000 {
        assert_eq!(a.next(), b.next());
    }
}

#[test]
fn draws_stay_in_open_unit_interval() {
    let mut r = Rnd::new();
    for _ in 0..10000 {
        let u = r.next();
        let f = u as f64 / P as f64;
        assert!(f > 0.0 && f < 1.0);
    }
}

#[test]
fn zero_seed_is_refused() {
    assert!(matches!(Rnd::from_seed(0), Err(SeedError::InvalidSeed)));
    assert!(matches!(Rnd::from_seed(P), Err(SeedError::InvalidSeed)));
    let mut r = Rnd::from_seed(1).unwrap();
    assert_eq!(r.next(), 16807);
}

#[test]
fn gate_truth_tables() {
    for i in 0..=1 {
        for j in 0..=1 {
            assert_eq!(xor(i, j), i ^ j);
            assert_eq!(xnor(i, j), 1 - (i ^ j));
            assert_eq!(and(i, j), i & j);
            assert_eq!(nand(i, j), 1 - (i & j));
            assert_eq!(or(i, j), i | j);
            assert_eq!(nor(i, j), 1 - (i | j));
        }
    }
    assert_eq!(xor(0, 1), 1);
    assert_eq!(nor(0, 0), 1);
}
