use rust_examples::implementation_example::{area, Rectangle};

#[test]
fn implementation_test() {
    let scale = 2;
    let rect1 = Rectangle {
        width: 30 * scale,
        height: 50,
    };

    println!(
        "The area of the rectangle is {} square pixels.",
        area(&rect1)
    );
    println!("rect1 is {:?}", rect1);
    println!("rect1 is {:#?}", rect1);

    println!(
        "The area of the rectangle is {} square pixels.",
        rect1.area()
    );
    if rect1.width() {
        println!("The rectangle has a nonzero width; it is {}", rect1.width);
    }

    let rect2 = Rectangle {
        width: 10,
        height: 40,
    };
    let rect3 = Rectangle {
        width: 60,
        height: 45,
    };
    println!("Can rect1 hold rect2? {}", rect1.can_hold(&rect2));
    println!("Can rect1 hold rect3? {}", rect1.can_hold(&rect3));

    let sq = Rectangle::square(3);
    println!("sq = {:?}", sq);
}

#[test]
fn area_is_width_times_height() {
    let rect1 = Rectangle { width: 60, height: 50 };
    assert_eq!(area(&rect1), 3000);
    assert_eq!(rect1.area(), 3000);
    assert_eq!(Rectangle { width: 0, height: 7 }.area(), 0);
    assert_eq!(Rectangle { width: 65535, height: 65537 }.area(), u32::MAX);
}

#[test]
fn a_rectangle_holds_what_is_smaller_both_ways() {
    let rect1 = Rectangle { width: 60, height: 50 };
    assert!(rect1.can_hold(&Rectangle { width: 10, height: 40 }));
    assert!(!rect1.can_hold(&Rectangle { width: 60, height: 45 }));
    assert!(!rect1.can_hold(&Rectangle { width: 10, height: 50 }));
}

#[test]
fn a_square_has_equal_sides() {
    let sq = Rectangle::square(3);
    assert_eq!(sq.width, 3);
    assert_eq!(sq.height, 3);
    assert!(sq.width());
    assert!(!Rectangle::square(0).width());
}
