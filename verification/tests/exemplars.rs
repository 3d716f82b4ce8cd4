use exemplars::{Exemplars, exemplars_take};
use bigdecimal::One;

fn collect_all<T: Exemplars>(limit: usize) -> Vec<T> {
    let mut out = Vec::new();
    let mut it = T::exemplars();
    while out.len() < limit {
        match it.next() {
            Some(v) => out.push(v),
            None => break,
        }
    }
    out
}

#[test]
fn every_type_yields_at_least_one_value() {
    assert!(!collect_all::<()>(10).is_empty());
    assert!(!collect_all::<u8>(10).is_empty());
    assert!(!collect_all::<i64>(10).is_empty());
    assert!(!collect_all::<Option<u8>>(10).is_empty());
    assert!(!collect_all::<Vec<u8>>(10).is_empty());
    assert!(!collect_all::<String>(10).is_empty());
    assert!(!collect_all::<bigdecimal::BigDecimal>(10).is_empty());
    assert!(!collect_all::<rust_decimal::Decimal>(10).is_empty());
    assert!(!collect_all::<uuid::Uuid>(10).is_empty());
}

#[test]
fn primary_is_first_enumerated() {
    assert_eq!(u8::exemplar(), u8::exemplars().next().unwrap());
    assert_eq!(i32::exemplar(), i32::exemplars().next().unwrap());
    assert_eq!(<()>::exemplar(), <()>::exemplars().next().unwrap());
    assert_eq!(Option::<u16>::exemplar(), Option::<u16>::exemplars().next().unwrap());
    assert_eq!(Vec::<u8>::exemplar(), Vec::<u8>::exemplars().next().unwrap());
    assert_eq!(String::exemplar(), String::exemplars().next().unwrap());
    assert_eq!(
        bigdecimal::BigDecimal::exemplar(),
        bigdecimal::BigDecimal::exemplars().next().unwrap()
    );
    assert_eq!(
        rust_decimal::Decimal::exemplar(),
        rust_decimal::Decimal::exemplars().next().unwrap()
    );
    assert_eq!(uuid::Uuid::exemplar(), uuid::Uuid::exemplars().next().unwrap());
}

#[test]
fn integer_exemplars_start_at_one_and_stay_in_range() {
    assert_eq!(u8::exemplar(), 1);
    assert_eq!(u16::exemplar(), 1);
    assert_eq!(u32::exemplar(), 1);
    assert_eq!(u64::exemplar(), 1);
    assert_eq!(u128::exemplar(), 1);
    assert_eq!(usize::exemplar(), 1);
    assert_eq!(i8::exemplar(), 1);
    assert_eq!(i16::exemplar(), 1);
    assert_eq!(i32::exemplar(), 1);
    assert_eq!(i64::exemplar(), 1);
    assert_eq!(i128::exemplar(), 1);
    let few: Vec<u32> = exemplars_take(1000);
    for (k, v) in few.iter().enumerate() {
        assert!(1 <= *v && *v <= u32::MAX);
        assert_eq!(*v as usize, k + 1);
    }
}

#[test]
fn i8_enumerates_one_to_max() {
    let all: Vec<i8> = exemplars_take(1000);
    let expected: Vec<i8> = (1..=i8::MAX).collect();
    assert_eq!(all, expected);
}

#[test]
fn u8_enumerates_one_to_max() {
    let all: Vec<u8> = exemplars_take(1000);
    assert_eq!(all.len(), 255);
    assert_eq!(all.first(), Some(&1));
    assert_eq!(all.last(), Some(&255));
    let expected: Vec<u8> = (1..=u8::MAX).collect();
    assert_eq!(all, expected);
}

#[test]
fn unit_has_exactly_one_exemplar() {
    assert_eq!(<()>::exemplar(), ());
    let all: Vec<()> = exemplars_take(10);
    assert_eq!(all.len(), 1);
}

#[test]
fn option_u8_enumerates_present_values_then_one_absent() {
    let all: Vec<Option<u8>> = exemplars_take(1000);
    assert_eq!(all.len(), 256);
    for k in 0..255usize {
        assert_eq!(all[k], Some((k + 1) as u8));
    }
    assert_eq!(all[255], None);
    assert_eq!(Option::<u8>::exemplar(), Some(1));
}

#[test]
fn option_prefers_present_primary() {
    assert_eq!(Option::<i64>::exemplar(), Some(1));
    assert_eq!(Option::<String>::exemplar(), Some(String::from("example")));
    assert_eq!(Option::<Option<u8>>::exemplar(), Some(Some(1)));
}

#[test]
fn vec_exemplars_are_singletons() {
    assert_eq!(Vec::<u8>::exemplar(), vec![1u8]);
    let all: Vec<Vec<u8>> = exemplars_take(1000);
    assert_eq!(all.len(), 255);
    for (k, v) in all.iter().enumerate() {
        assert_eq!(v.len(), 1);
        assert_eq!(v[0] as usize, k + 1);
    }
    assert_eq!(Vec::<Option<u8>>::exemplar(), vec![Some(1u8)]);
}

#[test]
fn text_exemplar_is_the_literal_example() {
    assert_eq!(String::exemplar(), "example");
    let all: Vec<String> = exemplars_take(10);
    assert_eq!(all, vec![String::from("example")]);
}

#[test]
fn primary_exemplar_is_idempotent() {
    assert_eq!(u8::exemplar(), u8::exemplar());
    assert_eq!(usize::exemplar(), usize::exemplar());
    assert_eq!(Option::<u32>::exemplar(), Option::<u32>::exemplar());
    assert_eq!(Vec::<i16>::exemplar(), Vec::<i16>::exemplar());
    assert_eq!(String::exemplar(), String::exemplar());
    assert_eq!(
        bigdecimal::BigDecimal::exemplar(),
        bigdecimal::BigDecimal::exemplar()
    );
    assert_eq!(
        rust_decimal::Decimal::exemplar(),
        rust_decimal::Decimal::exemplar()
    );
    assert_eq!(uuid::Uuid::exemplar(), uuid::Uuid::exemplar());
}

#[test]
fn big_decimal_exemplar_is_one() {
    let d = bigdecimal::BigDecimal::exemplar();
    assert_eq!(d, bigdecimal::BigDecimal::one());
    assert_eq!(d.to_plain_string(), "1");
    let all: Vec<bigdecimal::BigDecimal> = exemplars_take(10);
    assert_eq!(all.len(), 1);
}

#[test]
fn decimal_exemplar_is_one() {
    let d = rust_decimal::Decimal::exemplar();
    assert_eq!(d, rust_decimal::Decimal::ONE);
    assert_eq!(d.mantissa(), 1);
    assert_eq!(d.scale(), 0);
    let all: Vec<rust_decimal::Decimal> = exemplars_take(10);
    assert_eq!(all.len(), 1);
}

#[test]
fn uuid_exemplar_is_max() {
    let u = uuid::Uuid::exemplar();
    assert_eq!(u, uuid::Uuid::max());
    assert_eq!(u.as_u128(), u128::MAX);
    let all: Vec<uuid::Uuid> = exemplars_take(10);
    assert_eq!(all.len(), 1);
}

#[test]
fn enumerator_is_lazy_and_exhausts_cleanly() {
    let mut it = u16::exemplars();
    assert_eq!(it.next(), Some(1));
    assert_eq!(it.next(), Some(2));
    assert_eq!(it.next(), Some(3));
    let mut st = String::exemplars();
    assert_eq!(st.next(), Some(String::from("example")));
    assert_eq!(st.next(), None);
    assert_eq!(st.next(), None);
}

#[test]
fn exemplar_nth_indexes_the_sequence() {
    assert_eq!(u8::exemplar_nth(0), Some(1));
    assert_eq!(u8::exemplar_nth(254), Some(255));
    assert_eq!(u8::exemplar_nth(255), None);
    assert_eq!(Option::<u8>::exemplar_nth(254), Some(Some(255)));
    assert_eq!(Option::<u8>::exemplar_nth(255), Some(None));
    assert_eq!(Option::<u8>::exemplar_nth(256), None);
    assert_eq!(u128::exemplar_nth(u128::MAX - 1), Some(u128::MAX));
    assert_eq!(u128::exemplar_nth(u128::MAX), None);
}

#[test]
fn take_caps_at_request_or_sequence_end() {
    let five: Vec<u64> = exemplars_take(5);
    assert_eq!(five, vec![1, 2, 3, 4, 5]);
    let none: Vec<u64> = exemplars_take(0);
    assert!(none.is_empty());
    let capped: Vec<String> = exemplars_take(100);
    assert_eq!(capped.len(), 1);
}
