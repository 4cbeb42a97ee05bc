use std::io;

use either::{Either, Left, Right};

#[test]
fn iter() {
    let x = 3;
    let mut iter = match x {
        1..=3 => Left(0..10),
        _ => Right(17..),
    };

    assert_eq!(iter.next(), Some(0));
    let mut count = 0;
    while iter.next().is_some() {
        count += 1;
    }
    assert_eq!(count, 9);
}

#[test]
fn iter_yields_in_order_then_exhausts() {
    let mut it: Either<std::ops::Range<i32>, std::ops::Range<i32>> = Left(0..3);
    assert_eq!(it.next(), Some(0));
    assert_eq!(it.next(), Some(1));
    assert_eq!(it.next(), Some(2));
    assert_eq!(it.next(), None);
    assert_eq!(it.next(), None);
}

#[test]
fn empty_iter_exhausts_immediately() {
    let mut it: Either<std::ops::Range<i32>, std::ops::Range<i32>> = Right(0..0);
    assert_eq!(it.next(), None);
}

#[test]
fn size_hint_is_forwarded() {
    let it: Either<std::ops::Range<i32>, std::ops::Range<i32>> = Left(0..10);
    assert_eq!(it.size_hint(), (0..10).size_hint());
    assert_eq!(it.size_hint(), (10, Some(10)));
}

#[test]
fn next_back_is_forwarded() {
    let mut it: Either<std::ops::Range<i32>, std::ops::Range<i32>> = Right(0..3);
    assert_eq!(it.next_back(), Some(2));
    assert_eq!(it.next(), Some(0));
    assert_eq!(it.next_back(), Some(1));
    assert_eq!(it.next_back(), None);
}

#[test]
fn len_is_forwarded() {
    let mut it: Either<std::ops::Range<i32>, std::ops::Range<i32>> = Left(0..4);
    assert_eq!(it.len(), 4);
    it.next();
    assert_eq!(it.len(), 3);
}

#[test]
fn read_write() {
    let use_stdio = false;
    let mockdata = [0xff; 256];

    let mut reader = if use_stdio {
        Left(io::stdin())
    } else {
        Right(&mockdata[..])
    };

    let mut buf = [0u8; 16];
    assert_eq!(reader.read(&mut buf).unwrap(), buf.len());
    assert_eq!(&buf, &mockdata[..buf.len()]);

    let mut mockbuf = [0u8; 256];
    let mut writer = if use_stdio {
        Left(io::stdout())
    } else {
        Right(&mut mockbuf[..])
    };

    let buf = [1u8; 16];
    assert_eq!(writer.write(&buf).unwrap(), buf.len());
}

#[test]
fn read_to_end_drains_the_source() {
    let mockdata = [0xff_u8; 256];
    let mut reader: Either<&[u8], &[u8]> = Left(&mockdata[..]);
    let mut out: Vec<u8> = Vec::new();
    assert_eq!(reader.read_to_end(&mut out).unwrap(), 256);
    assert_eq!(out.len(), 256);
    assert!(out.iter().all(|b| *b == 0xff));
}

#[test]
fn write_lands_in_the_sink() {
    let mut sink = [0u8; 256];
    {
        let mut writer: Either<&mut [u8], &mut [u8]> = Right(&mut sink[..]);
        let buf = [1u8; 16];
        assert_eq!(writer.write(&buf).unwrap(), 16);
    }
    assert_eq!(&sink[..16], &[1u8; 16][..]);
    assert!(sink[16..].iter().all(|b| *b == 0));
}

#[test]
fn flush_succeeds_on_a_plain_sink() {
    let mut sink: Vec<u8> = Vec::new();
    let mut writer: Either<&mut Vec<u8>, &mut Vec<u8>> = Left(&mut sink);
    assert_eq!(writer.write(&[7u8, 8u8]).unwrap(), 2);
    assert!(writer.flush().is_ok());
    assert_eq!(sink, vec![7u8, 8u8]);
}

#[test]
fn fill_buf_and_consume_are_forwarded() {
    let data = [1u8, 2, 3, 4];
    let mut reader: Either<&[u8], &[u8]> = Left(&data[..]);
    let seen = reader.fill_buf().unwrap().to_vec();
    assert_eq!(seen, vec![1u8, 2, 3, 4]);
    reader.consume(2);
    let rest = reader.fill_buf().unwrap().to_vec();
    assert_eq!(rest, vec![3u8, 4]);
}

#[test]
fn coerces_to_shared_target() {
    let e: Either<String, String> = Left(String::from("hello"));
    let s: &str = e.as_target();
    assert_eq!(s, "hello");
    let e: Either<String, String> = Right(String::from("world"));
    let s: &str = e.as_target();
    assert_eq!(s, "world");
}

#[test]
fn coerces_to_exclusive_target() {
    let mut e: Either<Vec<u8>, Vec<u8>> = Right(vec![9u8, 9]);
    {
        let s: &mut [u8] = e.as_target_mut();
        s[0] = 1;
    }
    assert_eq!(e.right(), Some(vec![1u8, 9]));
}
