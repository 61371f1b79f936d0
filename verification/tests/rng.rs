use raytrace::rng::Rand;

#[test]
fn xorshift_known_sequence() {
    let mut g = Rand::new();
    assert_eq!(g.next_int(), 8748534153485358512);
    assert_eq!(g.next_int(), 3040900993826735515);
    assert_eq!(g.next_int(), 3453997556048239312);
    assert_eq!(g.next_int(), 16431732851926010853);
    assert_eq!(g.next_int(), 8204724074003728306);
    assert_eq!(g.next_int(), 17801246309558322749);
}

#[test]
fn seeded_known_sequence() {
    let mut g = Rand::seeded(42);
    assert_eq!(g.next_int(), 45454805674);
    assert_eq!(g.next_int(), 11532217803599905471);
    assert_eq!(g.next_int(), 10021416941527320954);
}

#[test]
fn same_seed_same_stream() {
    let mut g1 = Rand::new();
    let mut g2 = Rand::new();
    for _ in 0..1000 {
        assert_eq!(g1.next_int(), g2.next_int());
    }
    let mut s1 = Rand::seeded(123456789);
    let mut s2 = Rand::seeded(123456789);
    for _ in 0..1000 {
        assert_eq!(s1.next_int(), s2.next_int());
    }
}

#[test]
fn different_seeds_diverge() {
    let mut g1 = Rand::seeded(1);
    let mut g2 = Rand::seeded(2);
    let mut same = true;
    for _ in 0..10 {
        if g1.next_int() != g2.next_int() {
            same = false;
        }
    }
    assert!(!same);
}

#[test]
fn stream_never_zero() {
    let mut g = Rand::seeded(1);
    for _ in 0..10000 {
        assert_ne!(g.next_int(), 0);
    }
    let mut d = Rand::new();
    for _ in 0..10000 {
        assert_ne!(d.next_int(), 0);
    }
}

#[test]
fn state_follows_output() {
    let mut g = Rand::new();
    let r = g.next_int();
    assert_eq!(g.x, r);
}
