use rust_examples::variables_example::{List, LANGUAGE, THRESHOLD};
use std::mem;

fn analyze_slice(slice: &[i32]) {
    println!("first element of the slice: {}", slice[0]);
    println!("the slice has {} elements", slice.len());
}

#[test]
fn immutable_and_mutable() {
    let a: i64 = 123;
    println!("immutable a = {:b}", a);

    let mut b = 3.14f32;
    println!("mutable b = {0}", b);
    b = 3.15;
    println!("mutable b = {0}", b);

    const C: i32 = 123;
    println!("C = {}", C);

    println!("LANGUAGE = {}, THRESHOLD = {}", LANGUAGE, THRESHOLD);

    let d: u64 = 123;
    println!("shadow d = {shadow}", shadow = d);
    let d: f64 = 3.15;
    println!("shadow d = {}", d);
}

#[test]
fn scalar_test() {
    let a: isize = 98_222;
    let b: u64 = 0xff;
    let c: i64 = 0o77;
    let d: i32 = 0b1111_0000;
    let e: u8 = b'A';
    let f: bool = false;
    let g: char = '😻';
    println!(
        "a: isize = {}, b: u64 = {}, c: i64 = {}, d: i32 = {}, e: u8 = {}, f: bool = {}, g: char = {}",
        a, b, c, d, e, f, g
    );
}

#[test]
fn compound_test() {
    let tuple: (i32, f64, u8) = (500, 6.4, 1);
    println!(
        "tuple = {:?}, tuple.0 = {}, tuple.1 = {}, tuple.2 = {}",
        tuple, tuple.0, tuple.1, tuple.2
    );
    let (h, i, j) = tuple;
    println!("tuple destructure: h = {}, i = {}, j = {}", h, i, j);
    let tuple_of_tuples = ((1u8, 2u16, 2u32), (4u64, -1i8), -2i16);
    println!("tuple_of_tuples = {:?}", tuple_of_tuples);
    println!(
        "one element tuple: {:?}, just an integer: {:?}",
        (5u32,),
        (5u32)
    );
    let unit = ();
    println!("unit = {:?}", unit);

    let array: [i32; 5] = [1, 2, 3, 4, 5];
    println!(
        "array = {:?}, array[0] = {}, array[1] = {}",
        array, array[0], array[1]
    );
    let arr = [3; 5];
    println!("arr = {:?}", arr);
    println!("array occupies {} bytes", mem::size_of_val(&arr));
    analyze_slice(&arr);
    analyze_slice(&arr[0..2]);
}

#[test]
fn literal_and_operator() {
    println!("1 + 2 = {}", 1u32 + 2);
    println!("1 - 2 = {}", 1i32 - 2);

    println!("true AND false is {}", true && false);
    println!("true OR false is {}", true || false);
    println!("NOT true is {}", !true);

    println!("0011 AND 0101 is {:04b}", 0b0011u32 & 0b0101);
    println!("0011 OR 0101 is {:04b}", 0b0011u32 | 0b0101);
    println!("0011 XOR 0101 is {:04b}", 0b0011u32 ^ 0b0101);
    println!("1 << 5 is {}", 1u32 << 5);
    println!("0x80 >> 2 is 0x{:x}", 0x80u32 >> 2);

    println!("One million is written as {}", 1_000_000u32);
}

#[test]
fn display_example() {
    let v = List(vec![1, 2, 3]);
    println!("List Vector Display: {}", v.to_string());
}

#[test]
fn a_list_shows_each_number_behind_its_index() {
    assert_eq!(List(vec![1, 2, 3]).to_string(), "[0: 1, 1: 2, 2: 3]");
    assert_eq!(List(vec![]).to_string(), "[]");
    assert_eq!(List(vec![-7]).to_string(), "[0: -7]");
    assert_eq!(
        List(vec![0, i32::MIN, i32::MAX]).to_string(),
        "[0: 0, 1: -2147483648, 2: 2147483647]"
    );
    let long = List((0..12).collect());
    assert!(long.to_string().ends_with("9: 9, 10: 10, 11: 11]"));
}

#[test]
fn the_constants_hold_their_values() {
    assert_eq!(LANGUAGE, "Rust");
    assert_eq!(THRESHOLD, 10);
}
