use std::collections::HashMap;

#[derive(Debug)]
enum SpreadsheetCell {
    Int(i32),
    Float(f64),
    Text(String),
}

#[test]
fn vector_example() {
    let v: Vec<i32> = Vec::new();
    println!("v = {:?}", v);
    let v = vec![1, 2, 3];
    println!("v = {:?}", v);

    let mut v = Vec::new();
    v.push(666);

    {
        let v = vec![1, 2, 3, 4];
        println!("v = {:?}", v);
    }

    let v = vec![1, 2, 3, 4, 5];
    let third: &i32 = &v[2];
    println!("The third element is {}", third);
    match v.get(2) {
        Some(third) => println!("The third element is {}", third),
        None => println!("There is no third element."),
    }

    let mut v = vec![1, 2, 3, 4, 5];
    let first = &v[0];
    println!("The first element is: {}", first);
    v.push(6);

    let v = vec![100, 32, 57];
    for i in &v {
        println!("{}", i);
    }
    let mut v = vec![100, 32, 57];
    for i in &mut v {
        *i += 50;
    }
    let row = vec![
        SpreadsheetCell::Int(3),
        SpreadsheetCell::Text(String::from("blue")),
        SpreadsheetCell::Float(10.12),
    ];
    println!("row = {:?}", row);
}

#[test]
fn string_example() {
    let s = String::new();
    println!("s = {}", s);
    let data = "initial contents";
    let s = data.to_string();
    println!("s = {}", s);

    println!("hello = {}", String::from("السلام عليكم"));
    println!("hello = {}", String::from("Dobrý den"));
    println!("hello = {}", String::from("Hello"));
    println!("hello = {}", String::from("שָׁלוֹם"));
    println!("hello = {}", String::from("नमस्ते"));
    println!("hello = {}", String::from("こんにちは"));
    println!("hello = {}", String::from("안녕하세요"));
    println!("hello = {}", String::from("你好"));
    println!("hello = {}", String::from("Olá"));
    println!("hello = {}", String::from("Здравствуйте"));
    println!("hello = {}", String::from("Hola"));

    let mut s = String::from("foo");
    s.push_str("bar");
    s.push('l');
    let s1 = String::from("Hello, ");
    let s2 = String::from("world!");
    let s3 = s1 + &s2;
    println!("s3 = {}", s3);
    let s1 = String::from("tic");
    let s2 = String::from("tac");
    let s3 = String::from("toe");
    let s4 = format!("{}-{}-{}", s1, s2, s3);
    println!("s4 = {}", s4);

    let len = String::from("Здравствуйте").len();
    println!("len = {}", len);

    let hello = "Здравствуйте";
    let s = &hello[0..4];
    println!("s = {}", s);

    for c in "नमस्ते".chars() {
        println!("c = {}", c);
    }
    for b in "नमस्ते".bytes() {
        println!("b = {}", b);
    }
}

#[test]
fn map_test() {
    let mut scores = HashMap::new();
    scores.insert(String::from("Blue"), 10);
    scores.insert(String::from("Yellow"), 50);
    println!("scores = {:?}", scores);

    let teams = vec![String::from("Blue"), String::from("Yellow")];
    let initial_scores = vec![10, 50];
    let scores: HashMap<_, _> = teams.iter().zip(initial_scores.iter()).collect();
    println!("scores = {:?}", scores);

    let field_name = String::from("Favorite color");
    let field_value = String::from("Blue");
    let mut map = HashMap::new();
    map.insert(field_name, field_value);

    let mut scores = HashMap::new();
    scores.insert(String::from("Blue"), 10);
    scores.insert(String::from("Yellow"), 50);
    let team_name = String::from("Blue");
    let score = scores.get(&team_name);
    if let Some(score) = score {
        println!("score = {:?}", score);
    }

    for (key, value) in &scores {
        println!("{}: {}", key, value);
    }

    let mut scores = HashMap::new();
    scores.insert(String::from("Blue"), 10);
    scores.insert(String::from("Blue"), 25);
    scores.entry(String::from("Yellow")).or_insert(50);
    scores.entry(String::from("Blue")).or_insert(50);
    println!("{:?}", scores);

    let text = "hello world wonderful world";
    let mut map = HashMap::new();
    for word in text.split_whitespace() {
        let count = map.entry(word).or_insert(0);
        *count += 1;
    }
    println!("{:?}", map);
}
