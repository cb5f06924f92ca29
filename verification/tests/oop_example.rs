use rust_examples::oop_example::{draw_select_box, Button, Draw, Screen, SelectBox};

#[test]
fn inheritance() {
    let screen = Screen {
        components: vec![
            Box::new(SelectBox {
                width: 75,
                height: 10,
                options: vec![
                    String::from("Yes"),
                    String::from("Maybe"),
                    String::from("No"),
                ],
            }),
            Box::new(Button {
                width: 50,
                height: 10,
                label: String::from("OK"),
            }),
        ],
    };

    for line in screen.run() {
        println!("{}", line);
    }
}

#[test]
fn a_screen_draws_its_components_in_order() {
    let screen = Screen {
        components: vec![
            Box::new(SelectBox {
                width: 75,
                height: 10,
                options: vec![
                    String::from("Yes"),
                    String::from("Maybe"),
                    String::from("No"),
                ],
            }),
            Box::new(Button {
                width: 50,
                height: 10,
                label: String::from("OK"),
            }),
        ],
    };
    assert_eq!(
        screen.run(),
        vec![
            "width = 75, height = 10, options = [\"Yes\", \"Maybe\", \"No\"]",
            "width = 50, height = 10, label = OK",
        ]
    );
    assert_eq!(Screen { components: vec![] }.run(), Vec::<String>::new());
}

#[test]
fn components_draw_their_fields() {
    let button = Button { width: 0, height: 4294967295, label: String::from("") };
    assert_eq!(button.draw(), "width = 0, height = 4294967295, label = ");
    let select = SelectBox { width: 1, height: 2, options: vec![] };
    assert_eq!(select.draw(), "width = 1, height = 2, options = []");
    let select = SelectBox { width: 1, height: 2, options: vec![String::from("a\"b")] };
    assert_eq!(select.draw(), "width = 1, height = 2, options = [\"a\\\"b\"]");
}

#[test]
fn a_select_box_line_names_width_height_and_options() {
    assert_eq!(draw_select_box(75, 10, "[]"), "width = 75, height = 10, options = []");
    assert_eq!(draw_select_box(0, 0, ""), "width = 0, height = 0, options = ");
    assert_eq!(
        draw_select_box(4294967295, 1, "anything"),
        "width = 4294967295, height = 1, options = anything"
    );
}
