use defined::Defined;
use defined::Optional;

#[test]
fn present_converts_to_some() {
    assert_eq!(Defined::Def(5u32).into_option(), Some(5));
    assert_eq!(Optional::Def(5u32).into_option(), Some(5));
}

#[test]
fn absent_converts_to_none() {
    assert_eq!(Defined::<u32>::Undef.into_option(), None);
    assert_eq!(Optional::<u32>::Undef.into_option(), None);
}

#[test]
fn null_converts_to_none_but_nested_some_none() {
    assert_eq!(Optional::<u32>::Null.into_option(), None);
    assert_eq!(Optional::<u32>::Null.into_nested_option(), Some(None));
    assert_eq!(Optional::<u32>::Undef.into_nested_option(), None);
    assert_ne!(
        Optional::<u32>::Null.into_nested_option(),
        Optional::<u32>::Undef.into_nested_option()
    );
}

#[test]
fn nested_option_widening_is_lossless() {
    assert_eq!(Optional::Def(5u32).into_nested_option(), Some(Some(5)));
    assert_eq!(Defined::Def(5u32).into_nested_option(), Some(Some(5)));
    assert_eq!(Defined::<u32>::Undef.into_nested_option(), None);
}

#[test]
fn raw_value_wraps_as_present() {
    assert_eq!(Defined::from(5u32), Defined::Def(5));
    assert_eq!(Optional::from(5u32), Optional::Def(5));
}

#[test]
fn native_optional_none_maps_to_explicit_null() {
    let some: Optional<u32> = Optional::from(Some(5u32));
    assert_eq!(some, Optional::Def(5));
    let none: Optional<u32> = Optional::from(None::<u32>);
    assert_eq!(none, Optional::Null);
}
