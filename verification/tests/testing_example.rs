use rust_examples::testing_example::{add_two, greeting, prints_and_returns_10, Guess, Rectangle};

#[test]
fn testing_example() {
    let rect = Rectangle {
        width: 12,
        height: 12,
    };
    println!("rect.width = {}, rect.height = {}", rect.width, rect.height);
    println!(
        "rect.can_hold = {}",
        rect.can_hold(&Rectangle {
            width: 10,
            height: 10
        })
    );
    println!("add_two = {}", add_two(100));
    println!("greeting = {}", greeting("name"));
    let guess = Guess::new(50);
    println!("guess.value = {}", guess.value());
    println!("prints_and_returns_10 = {}", prints_and_returns_10(100));
}

#[test]
fn exploration() {
    assert_eq!(2 + 2, 4);
}

#[test]
fn another() {
}

#[test]
fn larger_can_hold_smaller() {
    let larger = Rectangle {
        width: 8,
        height: 7,
    };
    let smaller = Rectangle {
        width: 5,
        height: 1,
    };
    assert!(larger.can_hold(&smaller));
}

#[test]
fn it_adds_two() {
    assert_eq!(4, add_two(2));
}

#[test]
fn greeting_contains_name() {
    let result = greeting("Carol");
    assert!(
        result.contains("Carol"),
        "Greeting did not contain name, value was `{}`",
        result
    );
}

#[test]
fn it_works() -> Result<(), String> {
    if 2 + 2 == 4 {
        Ok(())
    } else {
        Err(String::from("two plus two does not equal four"))
    }
}

#[test]
fn this_test_will_pass() {
    let value = prints_and_returns_10(4);
    assert_eq!(10, value);
}

#[test]
fn smaller_cannot_hold_larger() {
    let larger = Rectangle { width: 8, height: 7 };
    let smaller = Rectangle { width: 5, height: 1 };
    assert!(!smaller.can_hold(&larger));
    assert!(!larger.can_hold(&Rectangle { width: 8, height: 1 }));
    assert!(!larger.can_hold(&Rectangle { width: 1, height: 7 }));
}

#[test]
fn greeting_is_hello_name_and_an_exclamation_mark() {
    assert_eq!(greeting("Carol"), "Hello Carol!");
    assert_eq!(greeting(""), "Hello !");
}

#[test]
fn add_two_adds_two() {
    assert_eq!(add_two(-2), 0);
    assert_eq!(add_two(i32::MAX - 2), i32::MAX);
    assert_eq!(add_two(i32::MIN), i32::MIN + 2);
}

#[test]
fn guess_keeps_its_number() {
    assert_eq!(Guess::new(1).value(), 1);
    assert_eq!(Guess::new(100).value(), 100);
}
