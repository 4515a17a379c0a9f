use syntax_tour::borrowing::{calculate_length, change, longest};
use syntax_tour::flow::{
    collect_range, collect_range_inclusive, countdown, iterations_until, magnitude, number_kind,
    number_word, Magnitude, NumberKind, NumberWord,
};
use syntax_tour::math::{add, subtract};
use syntax_tour::numbers::{bounds, function_with_params, IntKind};
use syntax_tour::records::{Point, User};
use syntax_tour::sequences::{find_item, increment_all, keep_even};
use syntax_tour::summary::{NewsArticle, Summary};

#[test]
fn integer_bounds_are_the_true_ranges() {
    assert_eq!(bounds(IntKind::I8), (-128, 127));
    assert_eq!(bounds(IntKind::U8), (0, 255));
    assert_eq!(bounds(IntKind::I32), (-2147483648, 2147483647));
    assert_eq!(bounds(IntKind::U32), (0, 4294967295));
    assert_eq!(bounds(IntKind::I64), (-9223372036854775808, 9223372036854775807));
    assert_eq!(bounds(IntKind::U64), (0, 18446744073709551615));
    assert_eq!(bounds(IntKind::I8).1, i8::MAX as i128);
    assert_eq!(bounds(IntKind::U64).1, u64::MAX as i128);
}

#[test]
fn longest_prefers_strictly_longer_first() {
    assert_eq!(longest("long string", "xyz"), "long string");
}

#[test]
fn longest_tie_goes_to_second() {
    let a = String::from("abc");
    let b = String::from("xyz");
    let r = longest(a.as_str(), b.as_str());
    assert!(std::ptr::eq(r, b.as_str()));
}

#[test]
fn longest_returns_second_when_longer() {
    assert_eq!(longest("ab", "abcd"), "abcd");
}

#[test]
fn longest_counts_bytes() {
    // three characters but six bytes against five single-byte characters
    assert_eq!(longest("ééé", "abcde"), "ééé");
}

#[test]
fn keep_even_over_one_to_five() {
    assert_eq!(keep_even(vec![1, 2, 3, 4, 5]), vec![2, 4]);
}

#[test]
fn keep_even_keeps_order_and_negatives() {
    assert_eq!(keep_even(vec![8, -3, -6, 0, 7, 2]), vec![8, -6, 0, 2]);
    assert_eq!(keep_even(vec![]), Vec::<i32>::new());
}

#[test]
fn increment_all_over_one_to_three() {
    assert_eq!(increment_all(&vec![1, 2, 3]), vec![2, 3, 4]);
}

#[test]
fn increment_all_of_empty_and_negative() {
    assert_eq!(increment_all(&vec![]), Vec::<i32>::new());
    assert_eq!(increment_all(&vec![-1, i32::MAX - 1]), vec![0, i32::MAX]);
}

#[test]
fn find_item_found() {
    assert_eq!(find_item(&[1, 2, 3, 4, 5], 3), Some(2));
}

#[test]
fn find_item_first_of_duplicates() {
    assert_eq!(find_item(&[7, 4, 7, 4], 4), Some(1));
    assert_eq!(find_item(&[7, 4, 7, 4], 7), Some(0));
}

#[test]
fn find_item_absent() {
    assert_eq!(find_item(&[1, 2, 3, 4, 5], 9), None);
    assert_eq!(find_item(&[], 1), None);
}

#[test]
fn module_arithmetic() {
    assert_eq!(add(5, 3), 8);
    assert_eq!(subtract(10, 4), 6);
    assert_eq!(subtract(i32::MIN + 1, 1), i32::MIN);
    assert_eq!(function_with_params(5, 3), 8);
}

#[test]
fn length_is_counted_in_bytes() {
    assert_eq!(calculate_length(&String::from("hello")), 5);
    assert_eq!(calculate_length(&String::from("héllo")), 6);
    assert_eq!(calculate_length(&String::new()), 0);
}

#[test]
fn change_appends_world() {
    let mut s = String::from("hello");
    change(&mut s);
    assert_eq!(s, "hello, world");
}

#[test]
fn branching_on_seven() {
    assert_eq!(magnitude(7), Magnitude::BelowTen);
    assert_eq!(number_word(7), NumberWord::Other);
    assert_eq!(number_kind(7), NumberKind::OtherOdd);
}

#[test]
fn branching_arm_order() {
    assert_eq!(magnitude(4), Magnitude::BelowFive);
    assert_eq!(magnitude(10), Magnitude::TenOrMore);
    assert_eq!(number_word(1), NumberWord::One);
    assert_eq!(number_word(2), NumberWord::Two);
    assert_eq!(number_word(3), NumberWord::ThreeToFive);
    assert_eq!(number_word(5), NumberWord::ThreeToFive);
    assert_eq!(number_word(0), NumberWord::Other);
    assert_eq!(number_kind(4), NumberKind::InOneToFive(4));
    assert_eq!(number_kind(8), NumberKind::Even(8));
    assert_eq!(number_kind(0), NumberKind::Even(0));
    assert_eq!(number_kind(-3), NumberKind::OtherOdd);
}

#[test]
fn loop_sequences() {
    assert_eq!(iterations_until(3), 3);
    assert_eq!(countdown(3), vec![3, 2, 1]);
    assert_eq!(countdown(0), Vec::<u32>::new());
    assert_eq!(collect_range(1, 4), vec![1, 2, 3]);
    assert_eq!(collect_range(4, 4), Vec::<i32>::new());
    assert_eq!(collect_range_inclusive(1, 4), vec![1, 2, 3, 4]);
    assert_eq!(collect_range_inclusive(5, 4), Vec::<i32>::new());
    assert_eq!(collect_range_inclusive(i32::MAX - 1, i32::MAX), vec![i32::MAX - 1, i32::MAX]);
}

#[test]
fn struct_update_copies_remaining_fields() {
    let mut user1 = User {
        email: String::from("someone@example.com"),
        username: String::from("someusername123"),
        active: true,
        sign_in_count: 1,
    };
    user1.email = String::from("anotheremail@example.com");
    let user2 = User::with_identity(
        &user1,
        String::from("another@example.com"),
        String::from("anotherusername567"),
    );
    assert_eq!(user2.email, "another@example.com");
    assert_eq!(user2.username, "anotherusername567");
    assert_eq!(user2.sign_in_count, 1);
    assert!(user2.active);
    assert_eq!(user1.email, "anotheremail@example.com");
}

#[test]
fn point_accessor_at_two_types() {
    let integer = Point { x: 5, y: 10 };
    let float = Point { x: 1.0, y: 4.0 };
    assert_eq!(*integer.x(), 5);
    assert_eq!(*float.x(), 1.0);
    assert_eq!(integer.y, 10);
}

#[test]
fn article_summaries() {
    let article = NewsArticle {
        headline: String::from("Penguins win the Stanley Cup Championship!"),
        location: String::from("Pittsburgh, PA, USA"),
        author: String::from("Iceburgh"),
        content: String::from("The Pittsburgh Penguins once again are the best hockey team in the NHL."),
    };
    assert_eq!(
        article.summarize(),
        "Penguins win the Stanley Cup Championship!, by Iceburgh (Pittsburgh, PA, USA)"
    );
    assert_eq!(article.default_summary(), "(Read more...)");
}
