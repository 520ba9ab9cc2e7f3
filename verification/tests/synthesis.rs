use fuzztime::datetime::DateTime;
use fuzztime::naive::NaiveDateTime;
use fuzztime::offset::{FixedOffset, StrictOffset};
use fuzztime::synth::{Arbitrary, SynthError};
use fuzztime::unstructured::Unstructured;

const UNSTRCUTURED_BINARY1: [u8; 8] = [0x8f, 0xc2, 0x95, 0xdc, 0x3e, 0x45, 0xb2, 0x3e];
const UNSTRCUTURED_BINARY2: [u8; 8] = [0x8b, 0xad, 0x2c, 0xc9, 0xf0, 0x05, 0x75, 0x84];

#[test]
fn test_different_unstructured() {
    let mut unstrctured1 = Unstructured::new(&UNSTRCUTURED_BINARY1);
    let datetime1: DateTime<FixedOffset> = DateTime::arbitrary(&mut unstrctured1).unwrap();

    let mut unstrctured2 = Unstructured::new(&UNSTRCUTURED_BINARY2);
    let datetime2: DateTime<FixedOffset> = DateTime::arbitrary(&mut unstrctured2).unwrap();

    assert!(datetime1 != datetime2);
}

#[test]
fn test_same_unstructured() {
    let mut unstrctured1 = Unstructured::new(&UNSTRCUTURED_BINARY1);
    let datetime1: DateTime<FixedOffset> = DateTime::arbitrary(&mut unstrctured1).unwrap();

    let mut unstrctured2 = Unstructured::new(&UNSTRCUTURED_BINARY1);
    let datetime2: DateTime<FixedOffset> = DateTime::arbitrary(&mut unstrctured2).unwrap();

    assert!(datetime1 == datetime2);
}

#[test]
fn test_vector_fields_exact() {
    let mut u = Unstructured::new(&UNSTRCUTURED_BINARY1);
    let dt: DateTime<FixedOffset> = DateTime::arbitrary(&mut u).unwrap();
    assert_eq!(dt.naive_utc(), NaiveDateTime { days: 42833, secs: 30991 });
    assert_eq!(*dt.offset(), FixedOffset { local_minus_utc: -43386 });

    let mut u = Unstructured::new(&UNSTRCUTURED_BINARY2);
    let dt: DateTime<FixedOffset> = DateTime::arbitrary(&mut u).unwrap();
    assert_eq!(dt.naive_utc(), NaiveDateTime { days: 39064, secs: 18827 });
    assert_eq!(*dt.offset(), FixedOffset { local_minus_utc: -19795 });
}

#[test]
fn test_empty_input_degrades() {
    let mut u = Unstructured::new(&[]);
    let dt: DateTime<FixedOffset> = DateTime::arbitrary(&mut u).unwrap();
    assert_eq!(dt.naive_utc(), NaiveDateTime { days: 0, secs: 0 });
    assert_eq!(dt.offset().local_minus_utc, -86399);
}

#[test]
fn test_short_input_degrades() {
    // The civil draw gets three real bytes and one zero; the offset draw is
    // entirely zero-filled.
    let mut u = Unstructured::new(&[0x01, 0x02, 0x03]);
    let dt: DateTime<FixedOffset> = DateTime::arbitrary(&mut u).unwrap();
    assert_eq!(dt.naive_utc(), NaiveDateTime { days: 2, secs: 24321 });
    assert_eq!(dt.offset().local_minus_utc, -86399);
}

#[test]
fn test_day_split_exact() {
    // 0x00015180 is exactly one day of seconds: day 1, second 0; the offset
    // draw reads 5, which folds to 5 - 86399.
    let bytes: [u8; 8] = [0x80, 0x51, 0x01, 0x00, 0x05, 0x00, 0x00, 0x00];
    let mut u = Unstructured::new(&bytes);
    let dt: DateTime<FixedOffset> = DateTime::arbitrary(&mut u).unwrap();
    assert_eq!(dt.naive_utc(), NaiveDateTime { days: 1, secs: 0 });
    assert_eq!(dt.offset().local_minus_utc, -86394);
}

#[test]
fn test_offset_fold_exact() {
    // 0x0002a309 is 172809 = 172799 + 10, which folds to 10 - 86399.
    let bytes: [u8; 8] = [0x00, 0x00, 0x00, 0x00, 0x09, 0xa3, 0x02, 0x00];
    let mut u = Unstructured::new(&bytes);
    let dt: DateTime<FixedOffset> = DateTime::arbitrary(&mut u).unwrap();
    assert_eq!(dt.offset().local_minus_utc, -86389);
}

#[test]
fn test_strict_offset_accepted() {
    let bytes: [u8; 8] = [0x00, 0x00, 0x00, 0x00, 0x10, 0x00, 0x00, 0x00];
    let mut u = Unstructured::new(&bytes);
    let dt: DateTime<StrictOffset> = DateTime::arbitrary(&mut u).unwrap();
    assert_eq!(dt.offset().local_minus_utc, 16);
}

#[test]
fn test_strict_offset_rejected() {
    // The raw offset count is far outside the strict domain, so the failure
    // of the offset draw is the failure of the whole synthesis.
    let bytes: [u8; 8] = [0x00, 0x00, 0x00, 0x00, 0xff, 0xff, 0xff, 0xff];
    let mut u = Unstructured::new(&bytes);
    let r: Result<DateTime<StrictOffset>, SynthError> = DateTime::arbitrary(&mut u);
    match r {
        Err(e) => assert_eq!(e, SynthError::SynthesisFailed),
        Ok(_) => panic!("synthesis accepted an out-of-domain offset"),
    }
}

#[test]
fn test_order_sensitivity() {
    let mut u = Unstructured::new(&UNSTRCUTURED_BINARY1);
    let composed: DateTime<FixedOffset> = DateTime::arbitrary(&mut u).unwrap();

    // Running the sub-generators in the opposite order maps the same bytes
    // to the other field and yields a different composite value.
    let mut u = Unstructured::new(&UNSTRCUTURED_BINARY1);
    let offset = FixedOffset::arbitrary(&mut u).unwrap();
    let datetime = NaiveDateTime::arbitrary(&mut u).unwrap();
    let swapped: DateTime<FixedOffset> = DateTime::from_utc(datetime, offset);

    assert_eq!(swapped.naive_utc(), NaiveDateTime { days: 12174, secs: 36926 });
    assert_eq!(swapped.offset().local_minus_utc, 52408);
    assert!(composed != swapped);
}

#[test]
fn test_cursor_reads() {
    let mut u = Unstructured::new(&[0x05, 0xff]);
    assert_eq!(u.read_u8(), 0x05);
    assert_eq!(u.read_u8(), 0xff);
    // Exhausted: further reads degrade to zero.
    assert_eq!(u.read_u8(), 0);
    assert_eq!(u.read_u32_le(), 0);

    let mut u = Unstructured::new(&[0x01, 0x02, 0x03, 0x04]);
    assert_eq!(u.read_u32_le(), 0x04030201);
}
