use memtable_core::{MutRefOrOwned, RefOrOwned};

#[test]
fn eq_against_str() {
    let x = RefOrOwned::Owned("some str");
    assert_eq!(*x, "some str");
}

#[test]
fn ref_or_owned_tells_borrowed_from_owned() {
    let value = 5;
    let borrowed = RefOrOwned::Borrowed(&value);
    let owned: RefOrOwned<'_, i32> = RefOrOwned::Owned(7);
    assert!(borrowed.is_borrowed());
    assert!(!borrowed.is_owned());
    assert!(owned.is_owned());
    assert!(!owned.is_borrowed());
    assert_eq!(borrowed.into_borrowed(), Some(&5));
    assert_eq!(borrowed.into_owned(), None);
    assert_eq!(owned.into_owned(), Some(7));
    assert_eq!(owned.into_borrowed(), None);
}

#[test]
fn ref_or_owned_map_either_keeps_the_kind() {
    let value = (1, 2);
    let borrowed = RefOrOwned::Borrowed(&value).map_either(|x| &x.1, |x| x.1);
    assert!(borrowed.is_borrowed());
    assert_eq!(*borrowed, 2);
    let owned = RefOrOwned::Owned((3, 4)).map_either(|x| &x.0, |x| x.0);
    assert!(owned.is_owned());
    assert_eq!(*owned, 3);
}

#[test]
fn ref_or_owned_into_cow_keeps_the_kind() {
    let value = String::from("a");
    let borrowed = RefOrOwned::Borrowed(&value).into_cow();
    assert!(matches!(borrowed, std::borrow::Cow::Borrowed(_)));
    let owned = RefOrOwned::Owned(String::from("b")).into_cow();
    assert!(matches!(owned, std::borrow::Cow::Owned(ref s) if s == "b"));
}

#[test]
fn mut_ref_or_owned_tells_borrowed_from_owned() {
    let mut value = 5;
    let owned: MutRefOrOwned<'_, i32> = MutRefOrOwned::Owned(7);
    assert!(owned.is_owned());
    assert_eq!(owned.into_owned(), Some(7));
    let borrowed = MutRefOrOwned::Borrowed(&mut value);
    assert!(borrowed.is_borrowed());
    assert_eq!(*borrowed, 5);
    if let Some(x) = borrowed.into_borrowed() {
        *x = 6;
    }
    assert_eq!(value, 6);
}

#[test]
fn defaults_are_owned() {
    let x: RefOrOwned<'_, u8> = RefOrOwned::default();
    assert!(x.is_owned());
    assert_eq!(*x, 0);
    let y: MutRefOrOwned<'_, u8> = MutRefOrOwned::default();
    assert!(y.is_owned());
    assert_eq!(*y, 0);
}
