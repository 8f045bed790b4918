use dyn_wrap::{Addr, MetaWrapped, WrapMeta};

#[test]
fn length_wraps_as_length() {
    assert_eq!(MetaWrapped::wrap(3usize), WrapMeta::Length(3));
    assert_eq!(MetaWrapped::wrap(0usize), WrapMeta::Length(0));
    assert_eq!(MetaWrapped::wrap(usize::MAX), WrapMeta::Length(usize::MAX));
}

#[test]
fn dispatch_wraps_as_trait_object() {
    assert_eq!(
        MetaWrapped::wrap(Addr(0xdead_b000)),
        WrapMeta::TraitObject(Addr(0xdead_b000))
    );
    assert_eq!(MetaWrapped::wrap(Addr(0)), WrapMeta::TraitObject(Addr(0)));
}

#[test]
fn length_unwraps_from_length_only() {
    assert_eq!(<usize as MetaWrapped>::unwrap(WrapMeta::Length(5)), Some(5));
    assert_eq!(<usize as MetaWrapped>::unwrap(WrapMeta::Length(0)), Some(0));
    assert_eq!(
        <usize as MetaWrapped>::unwrap(WrapMeta::TraitObject(Addr(5))),
        None
    );
    assert_eq!(
        <usize as MetaWrapped>::unwrap(WrapMeta::TraitObject(Addr(0))),
        None
    );
}

#[test]
fn dispatch_unwraps_from_trait_object_only() {
    assert_eq!(
        <Addr as MetaWrapped>::unwrap(WrapMeta::TraitObject(Addr(0x40))),
        Some(Addr(0x40))
    );
    assert_eq!(
        <Addr as MetaWrapped>::unwrap(WrapMeta::TraitObject(Addr(0))),
        Some(Addr(0))
    );
    assert_eq!(<Addr as MetaWrapped>::unwrap(WrapMeta::Length(0x40)), None);
    assert_eq!(<Addr as MetaWrapped>::unwrap(WrapMeta::Length(0)), None);
}

#[test]
fn unwrap_inverts_wrap() {
    for n in [0usize, 1, 3, 4096, usize::MAX] {
        assert_eq!(<usize as MetaWrapped>::unwrap(MetaWrapped::wrap(n)), Some(n));
        assert_eq!(
            <Addr as MetaWrapped>::unwrap(MetaWrapped::wrap(Addr(n))),
            Some(Addr(n))
        );
    }
}

#[test]
fn wrap_inverts_unwrap() {
    let stored = [
        WrapMeta::Length(0),
        WrapMeta::Length(17),
        WrapMeta::TraitObject(Addr(0)),
        WrapMeta::TraitObject(Addr(0x7fff_0000)),
    ];
    for x in stored {
        if let Some(n) = <usize as MetaWrapped>::unwrap(x) {
            assert_eq!(MetaWrapped::wrap(n), x);
        }
        if let Some(p) = <Addr as MetaWrapped>::unwrap(x) {
            assert_eq!(MetaWrapped::wrap(p), x);
        }
    }
}

#[test]
fn null_length_is_zero() {
    assert_eq!(<usize as MetaWrapped>::null(), 0);
}

#[test]
fn null_dispatch_is_the_null_address() {
    assert_eq!(<Addr as MetaWrapped>::null(), Addr(0));
    assert!(<Addr as MetaWrapped>::null().is_null());
}

#[test]
fn null_address_is_word_zero() {
    assert_eq!(Addr::null(), Addr(0));
    assert_eq!(Addr::null().0, 0);
    assert!(Addr::null().is_null());
    assert!(Addr(0).is_null());
    assert!(!Addr(1).is_null());
    assert!(!Addr(usize::MAX).is_null());
}
