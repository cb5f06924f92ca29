use rust_examples::advanced::macro_example::macro_example;
use rust_examples::advanced::senior_fn_example::{add_one, do_twice, returns_closure};
use rust_examples::advanced::senior_trait_example::{
    outline, push_repeated, Human, Meters, Millimeters, OutlinePrint, Pilot, Point, Wizard,
};
use rust_examples::advanced::senior_type_example::{
    senior_type_example, Circle, EvenNumber, Number,
};
use std::convert::TryFrom;
use std::convert::TryInto;

#[test]
fn the_examples_without_a_body_return() {
    macro_example();
    senior_type_example();
}

#[test]
fn add_one_adds_one() {
    assert_eq!(add_one(5), 6);
    assert_eq!(add_one(-1), 0);
    assert_eq!(add_one(i32::MIN), i32::MIN + 1);
    assert_eq!(add_one(i32::MAX - 1), i32::MAX);
}

#[test]
fn do_twice_adds_up_two_calls() {
    assert_eq!(do_twice(add_one, 5), 12);
    assert_eq!(do_twice(|x| x * 3, 4), 24);
    assert_eq!(do_twice(|_| 0, 4), 0);
}

#[test]
fn the_returned_closure_adds_one() {
    assert_eq!(returns_closure()(1), 2);
    assert_eq!(returns_closure()(-1), 0);
    assert_eq!(do_twice(returns_closure(), 5), 12);
}

#[test]
fn points_add_coordinate_by_coordinate() {
    let left = Point { x: 1, y: 0 };
    let right = Point { x: 2, y: 3 };
    assert_eq!(left + right, Point { x: 3, y: 3 });
    assert_eq!(
        Point { x: -4, y: i32::MAX } + Point { x: 4, y: 0 },
        Point { x: 0, y: i32::MAX }
    );
}

#[test]
fn metres_are_added_as_a_thousand_millimetres_each() {
    let sum = Millimeters(12) + Meters(11);
    assert_eq!(sum.0, 11012);
    assert_eq!((Millimeters(0) + Meters(0)).0, 0);
    assert_eq!((Millimeters(295) + Meters(4294967)).0, u32::MAX);
}

#[test]
fn a_human_flies_in_three_ways() {
    let person = Human;
    assert_eq!(Pilot::fly(&person), "This is your captain speaking.");
    assert_eq!(Wizard::fly(&person), "Up!");
    assert_eq!(person.fly(), "*waving arms furiously*");
}

#[test]
fn a_point_is_shown_in_a_frame() {
    let point = Point { x: 4, y: 5 };
    assert_eq!(point.to_string(), "(4, 5)");
    assert_eq!(
        point.outline_print(),
        vec!["**********", "*        *", "* (4, 5) *", "*        *", "**********"]
    );
    assert_eq!(Point { x: -10, y: 0 }.to_string(), "(-10, 0)");
}

#[test]
fn a_frame_is_as_wide_as_the_text_has_bytes() {
    assert_eq!(outline(""), vec!["****", "*  *", "*  *", "*  *", "****"]);
    assert_eq!(outline("ab"), vec!["******", "*    *", "* ab *", "*    *", "******"]);
    assert_eq!(outline("é"), vec!["******", "*    *", "* é *", "*    *", "******"]);
}

#[test]
fn push_repeated_appends_the_unit_over_and_over() {
    let mut text = String::from(">");
    push_repeated(&mut text, "ab", 3);
    assert_eq!(text, ">ababab");
    push_repeated(&mut text, "x", 0);
    assert_eq!(text, ">ababab");
    push_repeated(&mut text, "", 5);
    assert_eq!(text, ">ababab");
}

#[test]
fn a_number_is_made_from_an_integer() {
    let num = Number::from(30);
    assert_eq!(num.value, 30);
    let int = 5;
    let num: Number = int.into();
    assert_eq!(num.value, 5);
}

#[test]
fn only_even_numbers_become_even_numbers() {
    assert_eq!(EvenNumber::try_from(8), Ok(EvenNumber(8)));
    assert_eq!(EvenNumber::try_from(5), Err(()));
    let result: Result<EvenNumber, ()> = 8i32.try_into();
    assert_eq!(result, Ok(EvenNumber(8)));
    let result: Result<EvenNumber, ()> = 5i32.try_into();
    assert_eq!(result, Err(()));
    assert_eq!(EvenNumber::try_from(0), Ok(EvenNumber(0)));
    assert_eq!(EvenNumber::try_from(-4), Ok(EvenNumber(-4)));
    assert_eq!(EvenNumber::try_from(-3), Err(()));
    assert_eq!(EvenNumber::try_from(i32::MIN), Ok(EvenNumber(i32::MIN)));
    assert_eq!(EvenNumber::try_from(i32::MAX), Err(()));
}

#[test]
fn a_circle_is_shown_by_its_radius() {
    assert_eq!(Circle { radius: 6 }.to_string(), "Circle of radius 6");
    assert_eq!(Circle { radius: -6 }.to_string(), "Circle of radius -6");
    assert_eq!(Circle { radius: 0 }.to_string(), "Circle of radius 0");
}
