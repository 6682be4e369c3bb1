use rust_labs::primes::{isprime, next_prime, primes_after};

fn truly_prime(x: u32) -> bool {
    x >= 2 && (2..x).all(|d| x % d != 0)
}

#[test]
fn isprime_small_values() {
    assert!(!isprime(0));
    assert!(!isprime(1));
    assert!(isprime(2));
    assert!(isprime(3));
    assert!(isprime(5));
    assert!(!isprime(6));
    assert!(!isprime(9));
    assert!(isprime(11));
    assert!(!isprime(25));
}

#[test]
fn isprime_accepts_four() {
    assert!(isprime(4));
}

#[test]
fn isprime_agrees_with_primality_except_four() {
    for x in 0u16..3000 {
        if x != 4 {
            assert_eq!(isprime(x), truly_prime(x as u32), "x = {}", x);
        }
    }
}

#[test]
fn next_prime_after_ten() {
    assert_eq!(next_prime(10), Some(11));
    assert_eq!(next_prime(11), Some(13));
    assert_eq!(next_prime(3), Some(4));
    assert_eq!(next_prime(0), Some(2));
}

#[test]
fn next_prime_none_at_the_top() {
    assert_eq!(next_prime(65521), None);
    assert_eq!(next_prime(65534), None);
    assert_eq!(next_prime(65520), Some(65521));
}

#[test]
fn primes_after_ten() {
    let v = primes_after(10);
    assert_eq!(&v[..5], &[11, 13, 17, 19, 23]);
    assert_eq!(*v.last().unwrap(), 65521);
    assert_eq!(v.len(), 6538);
    assert!(v.windows(2).all(|w| w[0] < w[1]));
}

#[test]
fn primes_after_zero_includes_four() {
    let v = primes_after(0);
    assert_eq!(&v[..5], &[2, 3, 4, 5, 7]);
}

#[test]
fn primes_after_top_is_empty() {
    assert!(primes_after(65521).is_empty());
    assert!(primes_after(65535).is_empty());
}
