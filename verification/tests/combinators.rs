use defined::Defined;
use defined::Optional;

#[test]
fn defined_is_def() {
    let x: Defined<u32> = Defined::Def(1);
    assert_eq!(x.is_def(), true);
    let x: Defined<u32> = Defined::Undef;
    assert_eq!(x.is_def(), false);
}

#[test]
fn defined_is_def_and() {
    let x: Defined<u32> = Defined::Def(2);
    assert_eq!(x.is_def_and(|x| x > 1), true);
    let x: Defined<u32> = Defined::Def(0);
    assert_eq!(x.is_def_and(|x| x > 1), false);
    let x: Defined<u32> = Defined::Undef;
    assert_eq!(x.is_def_and(|x| x > 1), false);
}

#[test]
fn defined_unwrap_on_present_returns_value() {
    let x: Defined<u32> = Defined::Def(7);
    assert_eq!(x.unwrap(), 7);
    let x: Defined<u32> = Defined::Def(7);
    assert_eq!(x.expect("present"), 7);
}

#[test]
fn defined_unwrap_or() {
    assert_eq!(Defined::Def(5u32).unwrap_or(9), 5);
    assert_eq!(Defined::<u32>::Undef.unwrap_or(9), 9);
}

#[test]
fn defined_unwrap_or_else() {
    assert_eq!(Defined::Def(5u32).unwrap_or_else(|| 9), 5);
    assert_eq!(Defined::<u32>::Undef.unwrap_or_else(|| 9), 9);
}

#[test]
fn defined_unwrap_or_default() {
    assert_eq!(Defined::Def(5u32).unwrap_or_default(), 5);
    assert_eq!(Defined::<u32>::Undef.unwrap_or_default(), 0);
}

#[test]
fn defined_map_present_applies_transform() {
    let x: Defined<u32> = Defined::Def(21);
    assert_eq!(x.map(|v| v * 2), Defined::Def(42));
}

#[test]
fn defined_map_absent_keeps_tag() {
    let x: Defined<u32> = Defined::Undef;
    assert_eq!(x.map(|v| v * 2), Defined::Undef);
}

#[test]
fn defined_inspect_returns_value_unchanged() {
    let x: Defined<u32> = Defined::Def(3);
    assert_eq!(x.inspect(|_| {}), Defined::Def(3));
    let x: Defined<u32> = Defined::Undef;
    assert_eq!(x.inspect(|_| {}), Defined::Undef);
}

#[test]
fn defined_map_or() {
    assert_eq!(Defined::Def(3u32).map_or(0, |v| v + 1), 4);
    assert_eq!(Defined::<u32>::Undef.map_or(0, |v| v + 1), 0);
}

#[test]
fn defined_map_or_else() {
    assert_eq!(Defined::Def(3u32).map_or_else(|| 0, |v| v + 1), 4);
    assert_eq!(Defined::<u32>::Undef.map_or_else(|| 0, |v| v + 1), 0);
}

#[test]
fn defined_ok_or() {
    assert_eq!(Defined::Def(3u32).ok_or("missing"), Ok(3));
    assert_eq!(Defined::<u32>::Undef.ok_or("missing"), Err("missing"));
}

#[test]
fn defined_ok_or_else() {
    assert_eq!(Defined::Def(3u32).ok_or_else(|| "missing"), Ok(3));
    assert_eq!(Defined::<u32>::Undef.ok_or_else(|| "missing"), Err("missing"));
}

#[test]
fn defined_def_or() {
    let x: Defined<u32> = Defined::Def(1);
    assert_eq!(x.def_or(3).unwrap(), 1);
    let x: Defined<u32> = Defined::Undef;
    assert_eq!(x.def_or(3).unwrap(), 3);
}

#[test]
fn defined_map_def_or() {
    let x: Defined<u32> = Defined::Def(1);
    assert_eq!(x.map_def_or(None, |x| x).unwrap(), 1);
    let x: Defined<u32> = Defined::Undef;
    assert_eq!(x.map_def_or(Some(0), |x| x).unwrap(), 0);
}

#[test]
fn defined_as_ref_clone_default() {
    let x: Defined<String> = Defined::Def(String::from("a"));
    assert_eq!(x.as_ref(), Defined::Def(&String::from("a")));
    assert_eq!(x.clone(), x);
    let u: Defined<String> = Defined::Undef;
    assert_eq!(u.as_ref(), Defined::Undef);
    assert_eq!(Defined::<u32>::default(), Defined::Undef);
}

#[test]
fn defined_tag_order() {
    assert!(Defined::Undef < Defined::Def(0u32));
    assert!(Defined::Def(1u32) < Defined::Def(2u32));
}

#[test]
fn optional_is_def() {
    let x: Optional<u32> = Optional::Def(1);
    assert_eq!(x.is_def(), true);
    let x: Optional<u32> = Optional::Undef;
    assert_eq!(x.is_def(), false);
    let x: Optional<u32> = Optional::Null;
    assert_eq!(x.is_def(), false);
}

#[test]
fn optional_is_def_and() {
    let x: Optional<u32> = Optional::Def(2);
    assert_eq!(x.is_def_and(|x| x > 1), true);
    let x: Optional<u32> = Optional::Def(0);
    assert_eq!(x.is_def_and(|x| x > 1), false);
    let x: Optional<u32> = Optional::Undef;
    assert_eq!(x.is_def_and(|x| x > 1), false);
    let x: Optional<u32> = Optional::Null;
    assert_eq!(x.is_def_and(|x| x > 1), false);
}

#[test]
fn optional_is_null() {
    assert!(Optional::<u32>::Null.is_null());
    assert!(!Optional::<u32>::Undef.is_null());
    assert!(!Optional::Def(1u32).is_null());
}

#[test]
fn optional_unwrap_on_present_returns_value() {
    let x: Optional<u32> = Optional::Def(7);
    assert_eq!(x.unwrap(), 7);
    let x: Optional<u32> = Optional::Def(7);
    assert_eq!(x.expect("present"), 7);
}

#[test]
fn optional_unwrap_fallbacks() {
    assert_eq!(Optional::Def(5u32).unwrap_or(9), 5);
    assert_eq!(Optional::<u32>::Undef.unwrap_or(9), 9);
    assert_eq!(Optional::<u32>::Null.unwrap_or(9), 9);
    assert_eq!(Optional::<u32>::Null.unwrap_or_else(|| 9), 9);
    assert_eq!(Optional::<u32>::Null.unwrap_or_default(), 0);
    assert_eq!(Optional::<u32>::Undef.unwrap_or_default(), 0);
}

#[test]
fn optional_map_present_applies_transform() {
    let x: Optional<u32> = Optional::Def(21);
    assert_eq!(x.map(|v| v * 2), Optional::Def(42));
}

#[test]
fn optional_map_keeps_non_present_tags() {
    let x: Optional<u32> = Optional::Undef;
    assert_eq!(x.map(|v| v * 2), Optional::Undef);
    let x: Optional<u32> = Optional::Null;
    assert_eq!(x.map(|v| v * 2), Optional::Null);
}

#[test]
fn optional_inspect_returns_value_unchanged() {
    assert_eq!(Optional::Def(3u32).inspect(|_| {}), Optional::Def(3));
    assert_eq!(Optional::<u32>::Null.inspect(|_| {}), Optional::Null);
    assert_eq!(Optional::<u32>::Undef.inspect(|_| {}), Optional::Undef);
}

#[test]
fn optional_map_or_variants() {
    assert_eq!(Optional::Def(3u32).map_or(0, |v| v + 1), 4);
    assert_eq!(Optional::<u32>::Null.map_or(0, |v| v + 1), 0);
    assert_eq!(Optional::<u32>::Undef.map_or_else(|| 7, |v| v + 1), 7);
}

#[test]
fn optional_ok_or_variants() {
    assert_eq!(Optional::Def(3u32).ok_or("missing"), Ok(3));
    assert_eq!(Optional::<u32>::Null.ok_or("missing"), Err("missing"));
    assert_eq!(Optional::<u32>::Undef.ok_or_else(|| "missing"), Err("missing"));
}

#[test]
fn optional_def_or_treats_null_and_undef_apart() {
    let x: Optional<u32> = Optional::Def(1);
    assert_eq!(x.def_or(3), Some(1));
    let x: Optional<u32> = Optional::Undef;
    assert_eq!(x.def_or(3), Some(3));
    let x: Optional<u32> = Optional::Null;
    assert_eq!(x.def_or(3), None);
}

#[test]
fn optional_as_ref_clone_default() {
    let x: Optional<String> = Optional::Def(String::from("a"));
    assert_eq!(x.as_ref(), Optional::Def(&String::from("a")));
    assert_eq!(x.clone(), x);
    assert_eq!(Optional::<String>::Null.as_ref(), Optional::Null);
    assert_eq!(Optional::<u32>::default(), Optional::Undef);
}

#[test]
fn optional_tag_order() {
    assert!(Optional::<u32>::Undef < Optional::Null);
    assert!(Optional::Null < Optional::Def(0u32));
    assert!(Optional::Def(1u32) < Optional::Def(2u32));
}

#[test]
fn defined_as_mut_writes_into_payload() {
    let mut x: Defined<u32> = Defined::Def(3);
    if let Defined::Def(p) = x.as_mut() {
        *p = 7;
    }
    assert_eq!(x, Defined::Def(7));
    let mut u: Defined<u32> = Defined::Undef;
    assert_eq!(u.as_mut(), Defined::Undef);
}

#[test]
fn optional_as_mut_writes_into_payload() {
    let mut x: Optional<u32> = Optional::Def(3);
    if let Optional::Def(p) = x.as_mut() {
        *p = 7;
    }
    assert_eq!(x, Optional::Def(7));
    let mut n: Optional<u32> = Optional::Null;
    assert_eq!(n.as_mut(), Optional::Null);
    let mut u: Optional<u32> = Optional::Undef;
    assert_eq!(u.as_mut(), Optional::Undef);
}
