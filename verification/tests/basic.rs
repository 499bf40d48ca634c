use comonoid::{discard, duplicate, Comonoid, Comonoidal};

#[test]
fn test_counit() {
    let x = Comonoidal(42);
    assert_eq!(x.counit(), ());
}

#[test]
fn test_comult() {
    let x = Comonoidal(42);
    let (y, z) = x.comult();
    assert_eq!(y.0, 42);
    assert_eq!(z.0, 42);
}

#[test]
fn duplicate_integer() {
    let (a, b) = duplicate(42);
    assert_eq!(a, 42);
    assert_eq!(b, 42);
}

#[test]
fn discard_integer() {
    assert_eq!(discard(42), ());
}

#[test]
fn duplicate_string_independent() {
    let (mut a, b) = duplicate(String::from("hello"));
    assert_eq!(a, "hello");
    assert_eq!(b, "hello");
    a.push_str(" world");
    assert_eq!(a, "hello world");
    assert_eq!(b, "hello");
}

#[test]
fn comult_string() {
    let x = Comonoidal(String::from("hello"));
    let (y, z) = x.comult();
    assert_eq!(y.0, "hello");
    assert_eq!(z.0, "hello");
}

#[test]
fn from_wraps_value() {
    let x = Comonoidal::from(7u64);
    assert_eq!(x.0, 7);
}

#[test]
fn as_ref_borrows_value() {
    let x = Comonoidal(String::from("abc"));
    assert_eq!(x.as_ref(), "abc");
}

#[test]
fn as_mut_borrows_value_mutably() {
    let mut x = Comonoidal(1u64);
    *x.as_mut() = 9;
    assert_eq!(x.0, 9);
}

#[test]
fn clone_copies_wrapped_value() {
    let x = Comonoidal(vec![1, 2, 3]);
    let y = x.clone();
    assert_eq!(y.0, vec![1, 2, 3]);
    assert_eq!(x.0, vec![1, 2, 3]);
}
