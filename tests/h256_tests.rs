use core::cmp::Ordering;
use merkle_h256::H256;

fn with_bits(bits: &[u8]) -> H256 {
    let mut v = H256::zero();
    for &b in bits {
        v.set_bit(b);
    }
    v
}

/// A small deterministic generator, so that the "random" inputs repeat.
fn next(state: &mut u64) -> u64 {
    *state = state.wrapping_mul(6364136223846793005).wrapping_add(1442695040888963407);
    *state >> 33
}

fn random_bytes(state: &mut u64) -> [u8; 32] {
    let mut b = [0u8; 32];
    for x in b.iter_mut() {
        *x = next(state) as u8;
    }
    b
}

#[test]
fn set_and_clear_bit_touch_one_bit() {
    let mut state = 7u64;
    for _ in 0..20 {
        let v = H256::from(random_bytes(&mut state));
        for i in 0..=255u8 {
            let mut s = v;
            s.set_bit(i);
            let mut c = v;
            c.clear_bit(i);
            assert!(s.get_bit(i));
            assert!(!c.get_bit(i));
            for j in 0..=255u8 {
                if j != i {
                    assert_eq!(s.get_bit(j), v.get_bit(j));
                    assert_eq!(c.get_bit(j), v.get_bit(j));
                }
            }
        }
    }
}

#[test]
fn bit_indexing_is_lsb_first() {
    let mut b = [0u8; 32];
    b[0] = 0b0000_0010;
    b[31] = 0b1000_0000;
    let v = H256::from(b);
    assert!(v.get_bit(1));
    assert!(!v.get_bit(0));
    assert!(v.get_bit(255));
    assert!(v.is_right(255));
    assert!(!v.is_right(254));
    let mut s = H256::zero();
    s.set_bit(9);
    assert_eq!(s.as_slice()[1], 0b0000_0010);
}

#[test]
fn zero_identity() {
    let z = H256::zero();
    assert!(z.is_zero());
    assert_eq!(z, H256::default());
    for i in 0..=255u8 {
        assert!(!z.get_bit(i));
        let v = with_bits(&[i]);
        assert!(!v.is_zero());
        assert_ne!(v, z);
    }
}

#[test]
fn order_most_significant_byte_dominates() {
    let mut low = [0u8; 32];
    low[0] = 1;
    let mut high = [0u8; 32];
    high[31] = 1;
    let a = H256::from(low);
    let b = H256::from(high);
    assert!(b > a);
    assert!(a < b);
    assert_eq!(a.partial_cmp(&b), Some(Ordering::Less));
    assert_eq!(b.partial_cmp(&a), Some(Ordering::Greater));
    assert_eq!(a.partial_cmp(&a), Some(Ordering::Equal));
    let top = with_bits(&[255]);
    let bottom = with_bits(&[0]);
    assert!(top > bottom);
}

#[test]
fn order_is_total_and_transitive() {
    let mut state = 11u64;
    let vals: Vec<H256> = (0..30)
        .map(|k| {
            let mut b = random_bytes(&mut state);
            if k % 3 == 0 {
                b[31] = 5;
                b[30] = 5;
            }
            H256::from(b)
        })
        .collect();
    for a in &vals {
        for b in &vals {
            let n = [a < b, a == b, a > b].iter().filter(|x| **x).count();
            assert_eq!(n, 1);
            for c in &vals {
                if a < b && b < c {
                    assert!(a < c);
                }
            }
        }
    }
}

#[test]
fn fork_height_cases() {
    let a = with_bits(&[255]);
    assert_eq!(a.fork_height(&H256::zero()), 255);
    let mut state = 3u64;
    let v = H256::from(random_bytes(&mut state));
    assert_eq!(v.fork_height(&v), 0);
    let mut w = v;
    if w.get_bit(3) {
        w.clear_bit(3);
    } else {
        w.set_bit(3);
    }
    assert_eq!(v.fork_height(&w), 3);
    assert_eq!(w.fork_height(&v), 3);
    let x = with_bits(&[0]);
    assert_eq!(x.fork_height(&H256::zero()), 0);
    let y = with_bits(&[200, 17]);
    let z = with_bits(&[17, 100]);
    assert_eq!(y.fork_height(&z), 200);
}

#[test]
fn parent_path_boundary() {
    let mut state = 5u64;
    for _ in 0..10 {
        let v = H256::from(random_bytes(&mut state));
        assert!(v.parent_path(255).is_zero());
    }
    let v = with_bits(&[0, 1, 2, 5]);
    let p = v.parent_path(2);
    assert!(p.get_bit(5));
    assert!(!p.get_bit(0));
    assert!(!p.get_bit(1));
    assert!(!p.get_bit(2));
    assert_eq!(p, v.copy_bits(3));
    assert_eq!(p, with_bits(&[5]));
}

#[test]
fn copy_bits_byte_boundary() {
    let v = with_bits(&[7, 8]);
    let r8 = v.copy_bits(8);
    assert!(!r8.get_bit(7));
    assert!(r8.get_bit(8));
    let r9 = v.copy_bits(9);
    assert!(!r9.get_bit(7));
    assert!(!r9.get_bit(8));
    let all = H256::from([0xffu8; 32]);
    let c = all.copy_bits(13);
    assert_eq!(c.as_slice()[0], 0);
    assert_eq!(c.as_slice()[1], 0b1110_0000);
    assert_eq!(c.as_slice()[2], 0xff);
    assert_eq!(all.copy_bits(0), all);
}

#[test]
fn raw_bytes_round_trip() {
    let mut inputs = vec![[0u8; 32], [0xffu8; 32]];
    let mut state = 42u64;
    for _ in 0..100 {
        inputs.push(random_bytes(&mut state));
    }
    for b in inputs {
        let v = H256::from(b);
        let back: [u8; 32] = v.into();
        assert_eq!(back, b);
        assert_eq!(H256::from(&b), v);
        assert_eq!(v.as_slice(), &b[..]);
        let r: &[u8] = v.as_ref();
        assert_eq!(r, &b[..]);
    }
}

#[test]
fn peer_round_trip_v11() {
    let mut state = 99u64;
    for _ in 0..50 {
        let b = random_bytes(&mut state);
        let h = primitive_types::H256::from(b);
        let v = H256::from(h);
        assert_eq!(v.as_slice(), &b[..]);
        let back: primitive_types::H256 = v.into();
        assert_eq!(back, h);
        assert_eq!(H256::from(&h), v);
    }
}

#[test]
fn peer_round_trip_v10() {
    let mut state = 123u64;
    for _ in 0..50 {
        let b = random_bytes(&mut state);
        let h = ethereum_types::H256::from(b);
        let v = H256::from(h);
        assert_eq!(v.as_slice(), &b[..]);
        let back: ethereum_types::H256 = v.into();
        assert_eq!(back, h);
        assert_eq!(H256::from(&h), v);
    }
}

#[test]
fn widening_of_160_bit_hashes() {
    let mut b = [0u8; 20];
    for (k, x) in b.iter_mut().enumerate() {
        *x = k as u8 + 1;
    }
    let mut expected = [0u8; 32];
    expected[12..].copy_from_slice(&b);
    let a = primitive_types::H160::from(b);
    assert_eq!(H256::from(a).as_slice(), &expected[..]);
    assert_eq!(H256::from(&a).as_slice(), &expected[..]);
    let e = ethereum_types::H160::from(b);
    assert_eq!(H256::from(e).as_slice(), &expected[..]);
    assert_eq!(H256::from(&e).as_slice(), &expected[..]);
}
