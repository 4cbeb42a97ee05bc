use either::{Either, Left, Right};

#[test]
fn basic() {
    let mut e = Left(2);
    let r = Right(2);
    assert_eq!(e, Left(2));
    e = r;
    assert_eq!(e, Right(2));
    assert_eq!(e.left(), None);
    assert_eq!(e.right(), Some(2));
    assert_eq!(e.as_ref().right(), Some(&2));
    assert_eq!(e.as_mut().right(), Some(&mut 2));
}

#[test]
fn discriminants_are_exclusive() {
    let l: Either<u8, &str> = Left(7);
    let r: Either<u8, &str> = Right("seven");
    assert!(l.is_left());
    assert!(!l.is_right());
    assert!(!r.is_left());
    assert!(r.is_right());
}

#[test]
fn extraction_matches_variant() {
    let l: Either<u8, &str> = Left(7);
    assert_eq!(l.left(), Some(7));
    let l: Either<u8, &str> = Left(7);
    assert_eq!(l.right(), None);
    let r: Either<u8, &str> = Right("seven");
    assert_eq!(r.right(), Some("seven"));
    let r: Either<u8, &str> = Right("seven");
    assert_eq!(r.left(), None);
}

#[test]
fn result_round_trip() {
    let failure: Result<u32, &str> = Err("boom");
    let e = Either::from_result(failure);
    assert_eq!(e, Left("boom"));
    assert_eq!(e.into_result(), Err("boom"));

    let success: Result<u32, &str> = Ok(99);
    let e = Either::from_result(success);
    assert_eq!(e, Right(99));
    assert_eq!(e.into_result(), Ok(99));
}

#[test]
fn flip_is_self_inverse() {
    let l: Either<u8, &str> = Left(7);
    assert_eq!(l.flip(), Right(7));
    assert_eq!(l.flip().flip(), l);
    let r: Either<u8, &str> = Right("seven");
    assert_eq!(r.flip(), Left("seven"));
    assert_eq!(r.flip().flip(), r);
}

#[test]
fn view_leaves_original_usable() {
    let e: Either<u8, u16> = Left(5);
    let v = e.as_ref();
    assert!(v.is_left());
    assert_eq!(v.left(), Some(&5));
    // The original is untouched and still usable after the view is gone.
    assert!(e.is_left());
    assert_eq!(e.left(), Some(5));
}

#[test]
fn view_mut_writes_into_payload() {
    let mut e: Either<u8, u16> = Right(5);
    match e.as_mut() {
        Left(_) => unreachable!(),
        Right(p) => *p = 50,
    }
    assert_eq!(e, Right(50));
}
