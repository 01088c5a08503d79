use upperbench::upper::bytes_equal;
use upperbench::upper::reference_uppercase;
use upperbench::upper::to_upper_branchless;
use upperbench::upper::to_upper_naive;
use upperbench::upper::to_upper_rust_std;

fn b(s: &str) -> Vec<u8> {
    s.as_bytes().to_vec()
}

#[test]
fn naive_uppercases_lowercase_letters() {
    let mut v = b("hello, World! 123");
    to_upper_naive(&mut v);
    assert_eq!(v, b("HELLO, WORLD! 123"));
}

#[test]
fn branchless_uppercases_lowercase_letters() {
    let mut v = b("hello, World! 123");
    to_upper_branchless(&mut v);
    assert_eq!(v, b("HELLO, WORLD! 123"));
}

#[test]
fn rust_std_uppercases_lowercase_letters() {
    let mut v = b("hello, World! 123");
    to_upper_rust_std(&mut v);
    assert_eq!(v, b("HELLO, WORLD! 123"));
}

#[test]
fn rust_std_changes_a_lowercase_buffer() {
    let mut v = b("abc");
    to_upper_rust_std(&mut v);
    assert_eq!(v, b("ABC"));
    assert_ne!(v, b("abc"));
}

#[test]
fn transforms_agree_on_all_single_bytes() {
    for byte in 0u8..=255u8 {
        let mut naive = vec![byte];
        let mut branchless = vec![byte];
        let mut std_based = vec![byte];
        to_upper_naive(&mut naive);
        to_upper_branchless(&mut branchless);
        to_upper_rust_std(&mut std_based);
        let reference = reference_uppercase(&vec![byte]);
        assert_eq!(naive, reference);
        assert_eq!(branchless, reference);
        assert_eq!(std_based, reference);
    }
}

#[test]
fn empty_buffer_stays_empty() {
    let mut v: Vec<u8> = Vec::new();
    to_upper_naive(&mut v);
    assert_eq!(v, Vec::<u8>::new());
    to_upper_branchless(&mut v);
    assert_eq!(v, Vec::<u8>::new());
    to_upper_rust_std(&mut v);
    assert_eq!(v, Vec::<u8>::new());
}

#[test]
fn non_letter_bytes_pass_through() {
    let input: Vec<u8> = vec![0x00, 0x2f, 0x30, 0x39, 0x3a, 0x40, 0x5b, 0x60, 0x7b, 0xc3, 0xff];
    let mut v = input.clone();
    to_upper_naive(&mut v);
    assert_eq!(v, input);
}

#[test]
fn boundary_letters_fold() {
    let mut v = vec![b'a', b'z', b'A', b'Z', b'a' - 1, b'z' + 1];
    to_upper_naive(&mut v);
    assert_eq!(v, vec![b'A', b'Z', b'A', b'Z', b'a' - 1, b'z' + 1]);
}

#[test]
fn uppercasing_twice_equals_once() {
    let once = {
        let mut v = b("mIxEd CaSe 42!");
        to_upper_naive(&mut v);
        v
    };
    let twice = {
        let mut v = once.clone();
        to_upper_naive(&mut v);
        v
    };
    assert_eq!(twice, once);

    let once_branchless = {
        let mut v = b("mIxEd CaSe 42!");
        to_upper_branchless(&mut v);
        v
    };
    let twice_branchless = {
        let mut v = once_branchless.clone();
        to_upper_branchless(&mut v);
        v
    };
    assert_eq!(twice_branchless, once_branchless);

    let once_std = {
        let mut v = b("mIxEd CaSe 42!");
        to_upper_rust_std(&mut v);
        v
    };
    let twice_std = {
        let mut v = once_std.clone();
        to_upper_rust_std(&mut v);
        v
    };
    assert_eq!(twice_std, once_std);
}

#[test]
fn length_is_preserved() {
    let input = b("some input of length 24!");
    let mut naive = input.clone();
    let mut branchless = input.clone();
    let mut std_based = input.clone();
    to_upper_naive(&mut naive);
    to_upper_branchless(&mut branchless);
    to_upper_rust_std(&mut std_based);
    assert_eq!(naive.len(), input.len());
    assert_eq!(branchless.len(), input.len());
    assert_eq!(std_based.len(), input.len());
    assert_eq!(reference_uppercase(&input).len(), input.len());
}

#[test]
fn reference_uppercase_exact_value() {
    let v = b("a1Bz!");
    assert_eq!(reference_uppercase(&v), b("A1BZ!"));
}

#[test]
fn bytes_equal_compares_byte_for_byte() {
    assert!(bytes_equal(&b("abc"), &b("abc")));
    assert!(!bytes_equal(&b("abc"), &b("abd")));
    assert!(!bytes_equal(&b("abc"), &b("ab")));
    assert!(bytes_equal(&Vec::new(), &Vec::new()));
}
