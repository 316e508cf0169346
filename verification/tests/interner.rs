use bumpalo::Bump;
use datalogic_rs::interner::StringInterner;
use std::ptr;

#[test]
fn test_interner_basic() {
    let bump = Bump::new();
    let mut interner = StringInterner::new();

    // Intern some strings
    let s1 = interner.intern("hello", &bump);
    let s2 = interner.intern("hello", &bump);
    let s3 = interner.intern("world", &bump);

    // Verify that identical strings return the same reference
    assert!(ptr::eq(s1, s2));

    // Verify that different strings return different references
    assert!(!ptr::eq(s1, s3));

    // Check length
    assert_eq!(interner._len(), 2);
}

#[test]
fn test_interner_with_capacity() {
    let bump = Bump::new();
    let mut interner = StringInterner::with_capacity(100);

    // Intern a large number of strings
    for i in 0..50 {
        let s = format!("string{i}");
        interner.intern(&s, &bump);
    }

    // Check length
    assert_eq!(interner._len(), 50);
}

#[test]
fn test_interner_clear() {
    let bump = Bump::new();
    let mut interner = StringInterner::new();

    // Intern some strings
    interner.intern("hello", &bump);
    interner.intern("world", &bump);

    // Clear the interner
    interner._clear();

    // Check that the interner is empty
    assert!(interner._is_empty());
    assert_eq!(interner._len(), 0);
}

#[test]
fn test_hash_collisions() {
    let bump = Bump::new();
    let mut interner = StringInterner::new();

    let strings = ["a", "b", "c", "d", "e", "f", "g", "h"];

    // Intern all strings
    let refs: Vec<_> = strings.iter().map(|&s| interner.intern(s, &bump)).collect();

    // Verify that all strings are correctly interned
    for (i, &s) in strings.iter().enumerate() {
        assert_eq!(refs[i], s);
    }

    // Verify that reinterning returns the same references
    for (i, &s) in strings.iter().enumerate() {
        assert!(ptr::eq(refs[i], interner.intern(s, &bump)));
    }
}

#[test]
fn interning_twice_keeps_the_count() {
    let bump = Bump::new();
    let mut interner = StringInterner::default();
    assert!(interner._is_empty());
    let first = interner.intern("", &bump);
    let again = interner.intern("", &bump);
    assert_eq!(first, "");
    assert!(ptr::eq(first, again));
    assert_eq!(interner._len(), 1);
}

#[test]
fn reserve_and_shrink_keep_interned_strings() {
    let bump = Bump::new();
    let mut interner = StringInterner::new();
    let a = interner.intern("alpha", &bump);
    interner._reserve(64);
    interner._shrink_to_fit();
    let b = interner.intern("alpha", &bump);
    assert!(ptr::eq(a, b));
    assert_eq!(interner._len(), 1);
    let owned = String::from("beta");
    let c = interner.intern(&owned, &bump);
    assert_eq!(c, "beta");
    assert!(!ptr::eq(c.as_ptr(), owned.as_ptr()));
    assert_eq!(interner._len(), 2);
}
