use rust_test_app::back_of_house::{Appetizer, Breakfast};
use rust_test_app::basics::{
    borrow_and_len, change_ref, first_word_len, gives_ownership, length_of_string, longest,
};
use rust_test_app::coins::{enum_control_flow, value_in_cents, Coin, UsState};
use rust_test_app::collections::{add_to_each, build_demo_vector, build_number_map};
use rust_test_app::geometry::{area_fn_struct, area_struct, area_tuple, Point, Rectangle};
use rust_test_app::users::{new_user, with_email};

#[test]
fn summer_breakfast_keeps_the_requested_toast() {
    let meal = Breakfast::summer("Rye");
    assert_eq!(meal.toast, "Rye");
    let mut meal = Breakfast::summer("Rye");
    meal.toast = String::from("Wheat");
    assert_eq!(meal.toast, "Wheat");
}

#[test]
fn appetizers_can_be_ordered() {
    let order1 = Appetizer::Soup;
    let order2 = Appetizer::Salad;
    assert!(matches!(order1, Appetizer::Soup));
    assert!(matches!(order2, Appetizer::Salad));
}

#[test]
fn ownership_comes_back_unchanged() {
    let s = gives_ownership(String::from("yo, do it!"));
    assert_eq!(s, "yo, do it!");
}

#[test]
fn string_lengths() {
    let s1 = String::from("hello");
    assert_eq!(borrow_and_len(&s1), 5);
    assert_eq!(length_of_string(s1), 5);
    assert_eq!(borrow_and_len(&String::new()), 0);
}

#[test]
fn change_ref_appends_world() {
    let mut s = String::from("hello");
    change_ref(&mut s);
    assert_eq!(s, "hello, world");
    change_ref(&mut s);
    assert_eq!(s, "hello, world, world");
}

#[test]
fn first_word_ends_at_the_first_space() {
    let sentence = String::from("Here is a sentence");
    assert_eq!(first_word_len(&sentence), 4);
    assert_eq!(&sentence[0..4], "Here");
    assert_eq!(first_word_len(&String::from("sentence")), 8);
    assert_eq!(first_word_len(&String::new()), 0);
    assert_eq!(first_word_len(&String::from(" leading")), 0);
}

#[test]
fn longest_picks_the_longer_string() {
    assert_eq!(longest("long", "longer"), "longer");
    assert_eq!(longest("longer", "long"), "longer");
    assert_eq!(longest("tie", "til"), "til");
}

#[test]
fn areas_multiply_the_sides() {
    assert_eq!(area_tuple((50, 90)), 4500);
    let rect = Rectangle {
        width: 50,
        height: 30,
    };
    assert_eq!(rect.area(), 1500);
    assert_eq!(area_struct(&rect), 1500);
    let rect = Rectangle {
        width: 60,
        height: 20,
    };
    assert_eq!(area_fn_struct(&rect), 1200);
}

#[test]
fn point_borrows_its_first_coordinate() {
    let point: Point<i32> = Point { x: 5, y: 3 };
    assert_eq!(*point.x(), 5);
    assert_eq!(point.y, 3);
}

#[test]
fn coins_have_their_face_values() {
    assert_eq!(value_in_cents(Coin::Penny), 1);
    assert_eq!(value_in_cents(Coin::Nickel), 5);
    assert_eq!(value_in_cents(Coin::Dime), 10);
    assert_eq!(value_in_cents(Coin::Quarter(UsState::Alaska)), 25);
    assert_eq!(value_in_cents(Coin::Quarter(UsState::Oregon)), 25);
    enum_control_flow();
}

#[test]
fn demo_vector_is_built_and_shifted() {
    let mut v = build_demo_vector();
    assert_eq!(v, vec![1, 2, 3, 12, 24]);
    v.push(48);
    add_to_each(&mut v, 100);
    assert_eq!(v, vec![101, 102, 103, 112, 124, 148]);
}

#[test]
fn number_map_holds_its_pair() {
    let m = build_number_map();
    assert_eq!(m.len(), 1);
    assert_eq!(m.get(&1), Some(&2));
}

#[test]
fn users_sign_up_and_change_email() {
    let user1 = new_user(
        String::from("someusername123"),
        String::from("someone@example.com"),
    );
    assert!(user1.active);
    assert_eq!(user1.sign_in_count, 1);
    let user2 = with_email(user1, String::from("tony@example.com"));
    assert_eq!(user2.email, "tony@example.com");
    assert_eq!(user2.username, "someusername123");
}
