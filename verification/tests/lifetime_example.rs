use rust_examples::lifetime_example::{
    longest, longest2, longest_with_an_announcement, ImportantExcerpt,
};

#[test]
fn lifetime_test() {
    let string1 = String::from("long string is long");
    {
        let string2 = String::from("xyz");
        let result = longest(string1.as_str(), string2.as_str());
        println!("The longest string is {}", result);
    }

    longest2(string1.as_str(), string1.as_str());

    let novel = String::from("Call me Ishmael. Some years ago...");
    let first_sentence = novel.split('.').next().expect("Could not find a '.'");
    let ie = ImportantExcerpt {
        part: first_sentence,
    };
    println!("ImportantExcerpt = {:?}, ie.part = {}", ie, ie.part);
    println!(
        "level = {}, announce_and_return_part = {}",
        ie.level(),
        ie.announce_and_return_part(novel.as_str())
    );

    let static_str: &'static str = "I have a static lifetime.";
    println!("static_str = {}", static_str);

    let result = longest_with_an_announcement(first_sentence, novel.as_str(), 233);
    println!("longest_with_an_announcement = {}", result);
}

#[test]
fn longest_gives_the_second_of_two_equally_long_texts() {
    assert_eq!(longest("long string is long", "xyz"), "long string is long");
    assert_eq!(longest("xyz", "long string is long"), "long string is long");
    assert_eq!(longest("abc", "xyz"), "xyz");
    assert_eq!(longest("", ""), "");
    assert_eq!(longest("éé", "xyz"), "éé");
    assert_eq!(longest_with_an_announcement("abcd", "xyz", 233), "abcd");
    assert_eq!(longest_with_an_announcement("abc", "xyz", "now"), "xyz");
}

#[test]
fn longest2_gives_the_first_text() {
    assert_eq!(longest2("a", "long string is long"), "a");
}

#[test]
fn an_excerpt_returns_its_part() {
    let ie = ImportantExcerpt { part: "Call me Ishmael" };
    assert_eq!(ie.level(), 3);
    assert_eq!(ie.announce_and_return_part("Attention"), "Call me Ishmael");
}
