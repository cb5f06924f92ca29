use rust_examples::ownership_example::{
    calculate_length, calculate_length_new, change, dangle, first_word, gives_ownership,
    takes_and_gives_back,
};

fn taskes_ownership(some_string: String) {
    println!("{}", some_string);
}

fn makes_copy(some_integer: i32) {
    println!("{}", some_integer);
}

#[test]
fn ownership_test() {
    {
        let a = "rust";
        println!("a = {}", a);
    }

    let x = 5;
    let y = x;
    println!("x = {}, y = {}", x, y);

    let s1 = String::from("hello");
    let s2 = s1;
    println!("s2 = {}", s2);

    let s3 = String::from("world");
    let s4 = s3.clone();
    println!("s3 = {}, s4 = {}", s3, s4);
}

#[test]
fn fun_ownership_test() {
    let s1 = String::from("test");
    taskes_ownership(s1);

    let s2 = 5;
    makes_copy(s2);

    let s3 = gives_ownership();
    println!("s3 = {}", s3);

    let s4 = String::from("test");
    let s5 = takes_and_gives_back(s4);
    println!("s5 = {}", s5);

    let s6 = String::from("hello");
    let (s7, len) = calculate_length(s6);
    println!("The length of '{}' is {}.", s7, len);
}

#[test]
fn borrowing() {
    let s1 = String::from("hello");
    let mut s2 = &s1;
    println!("s1 = {}, s2 = {}", s1, s2);
    println!("len = {}", calculate_length_new(&s2));

    let mut s3 = s1;
    println!("s3 = {}", s3);

    s2 = &s3;
    println!("s2 = {}", s2);

    change(&mut s3);
    println!("s3 = {}", s3);

    let s4 = &mut s3;
    println!("s4 = {}", s4);

    let s7 = &s3;
    let s8 = &s3;
    println!("s7 = {}, s8 = {}", s7, s8);
    let s9 = &mut s3;
    println!("{}", s9);
}

#[test]
fn dangling_pointer() {
    println!("dangel = {}", dangle());
}

#[test]
fn slice() {
    let s = String::from("hello world");
    let part1 = &s[0..5];
    let part2 = &s[5..9];
    println!("{} = {} + {}", s, part1, part2);

    let word = first_word(&s);
    println!("word = {}", word);

    let str: &str = "hello";
    let string: String = String::from("hello");
    println!("str = {}, string = {}", str, string);

    let arr = [1, 3, 5, 7, 9];
    let part: &[i32] = &arr[0..3];
    for i in part.iter() {
        println!("i = {}", i);
    }
}

#[test]
fn the_first_word_ends_at_the_first_space() {
    assert_eq!(first_word("hello world"), "hello");
    assert_eq!(first_word("hello"), "hello");
    assert_eq!(first_word(" hello"), "");
    assert_eq!(first_word(""), "");
    assert_eq!(first_word("héllo wörld again"), "héllo");
    assert_eq!(first_word("a\tb c"), "a\tb");
}

#[test]
fn texts_are_handed_over_whole() {
    assert_eq!(gives_ownership(), "hello");
    assert_eq!(dangle(), "hello");
    assert_eq!(takes_and_gives_back(String::from("test")), "test");
    assert_eq!(calculate_length(String::from("hello")), (String::from("hello"), 5));
    assert_eq!(calculate_length(String::from("héllo")), (String::from("héllo"), 6));
    assert_eq!(calculate_length_new(&String::from("")), 0);
    assert_eq!(calculate_length_new(&String::from("wörld")), 6);
}

#[test]
fn change_appends_the_world() {
    let mut text = String::from("hello");
    change(&mut text);
    assert_eq!(text, "hello, world");
    change(&mut text);
    assert_eq!(text, "hello, world, world");
}
