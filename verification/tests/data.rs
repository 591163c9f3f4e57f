use druid::Data;
use std::sync::Arc;

#[derive(Clone)]
struct AppState {
    pressed: Option<u32>,
    text: String,
}

impl Data for AppState {
    fn obeys_same_spec() -> bool {
        true
    }

    fn same_spec(&self, other: &Self) -> bool {
        self.pressed == other.pressed && self.text == other.text
    }

    fn lemma_same_reflexive(&self) {}

    fn same(&self, other: &Self) -> bool {
        self.pressed == other.pressed && self.text == other.text
    }
}

#[test]
fn same_is_reflexive_on_integers() {
    assert!(0i8.same(&0i8));
    assert!((-3i16).same(&-3i16));
    assert!(i32::MIN.same(&i32::MIN));
    assert!(i64::MAX.same(&i64::MAX));
    assert!(5isize.same(&5isize));
    assert!(255u8.same(&255u8));
    assert!(7u16.same(&7u16));
    assert!(7u32.same(&7u32));
    assert!(u64::MAX.same(&u64::MAX));
    assert!(9usize.same(&9usize));
}

#[test]
fn same_tells_integers_apart() {
    assert!(!0i8.same(&1i8));
    assert!(!7u32.same(&8u32));
    assert!(!u64::MAX.same(&0u64));
    assert!(!(-1i64).same(&1i64));
}

#[test]
fn same_on_char_and_bool() {
    assert!('a'.same(&'a'));
    assert!(!'a'.same(&'b'));
    assert!(true.same(&true));
    assert!(false.same(&false));
    assert!(!true.same(&false));
}

#[test]
fn same_on_strings_compares_content() {
    let a = String::from("hello");
    let b = String::from("hello");
    let c = String::from("hellp");
    assert!(a.same(&a));
    assert!(a.same(&b));
    assert!(!a.same(&c));
    assert!(String::new().same(&String::new()));
}

#[test]
fn same_on_vectors_compares_length_only() {
    let abc = vec![String::from("a"), String::from("b"), String::from("c")];
    let abd = vec![String::from("a"), String::from("b"), String::from("d")];
    let abcd = vec![
        String::from("a"),
        String::from("b"),
        String::from("c"),
        String::from("d"),
    ];
    assert!(abc.same(&abc));
    assert!(abc.same(&abc.clone()));
    assert!(!abc.same(&abcd));
    assert!(!abcd.same(&abc));
    // The shallow policy: a replaced element goes unnoticed.
    assert!(abc.same(&abd));
    let empty: Vec<String> = Vec::new();
    assert!(empty.same(&Vec::new()));
}

#[test]
fn same_on_shared_values_is_identity() {
    let a = Arc::new(String::from("x"));
    let b = a.clone();
    let c = Arc::new(String::from("x"));
    assert!(a.same(&a));
    assert!(a.same(&b));
    assert!(!a.same(&c));
}

#[test]
fn same_on_float_bit_patterns() {
    let nan = f64::NAN.to_bits();
    assert!(nan.same(&f64::NAN.to_bits()));
    let other_nan = f64::from_bits(nan ^ 1);
    assert!(other_nan.is_nan());
    assert!(!nan.same(&other_nan.to_bits()));
    assert!(1.5f64.to_bits().same(&1.5f64.to_bits()));
    assert!(!0.0f64.to_bits().same(&(-0.0f64).to_bits()));
    let nan32 = f32::NAN.to_bits();
    assert!(nan32.same(&f32::NAN.to_bits()));
    assert!(!nan32.same(&f32::from_bits(nan32 ^ 1).to_bits()));
}

#[test]
fn same_on_a_type_of_the_application() {
    let a = AppState { pressed: None, text: String::from("Hello world text") };
    let b = AppState { pressed: Some(1), text: String::from("Hello world text") };
    assert!(a.same(&a));
    assert!(a.same(&a.clone()));
    assert!(!a.same(&b));
}
