use workbook::dictionary::Dictionary;
use workbook::dv_winapi::WindowAction;
use workbook::dv_winapi::window_action;
use workbook::generics::pointSingleType;
use workbook::hashmaps::blue_score;
use workbook::hashmaps::team_score;
use workbook::learning_fltk::row_label;
use workbook::learning_fltk::worker_pause_millis;
use workbook::lifetimes::ImportantExcerpt;
use workbook::lifetimes::first_sentence;
use workbook::lifetimes::longest;
use workbook::restaurant::back_of_house::Appetizer;
use workbook::restaurant::back_of_house::Breakfast;
use workbook::restaurant::front_of_house::hosting::add_to_waitlist;
use workbook::restaurant::front_of_house::hosting::seat_at_table;
use workbook::restaurant::front_of_house::serving::serve_my_order;
use workbook::restaurant::front_of_house::serving::take_my_order;
use workbook::restaurant::front_of_house::serving::take_payment;
use workbook::statistics::median;
use workbook::statistics::median_index;
use workbook::statistics::mode;
use workbook::statistics::sorted;
use workbook::statistics::tally;
use workbook::traits::NewsArticle;
use workbook::traits::Summary;
use workbook::traits::Tweet;
use workbook::traits::breaking_news;
use workbook::traits::invitation;

#[test]
fn the_score_of_a_team() {
    assert_eq!(blue_score(), 10);
    let mut scores: Dictionary<i32> = Dictionary::new();
    scores.insert(String::from("Blue"), 10);
    scores.insert(String::from("Yellow"), 50);
    assert_eq!(team_score(&scores, &String::from("Blue")), 10);
    assert_eq!(team_score(&scores, &String::from("Yellow")), 50);
    assert_eq!(team_score(&scores, &String::from("Red")), 0);
}

#[test]
fn sorting_orders_and_keeps_every_number() {
    assert_eq!(sorted(&vec![3, 1, 2]), vec![1, 2, 3]);
    assert_eq!(
        sorted(&vec![1, 2, 4, 3, 1, 1, 2, 2, 3, 1, 1]),
        vec![1, 1, 1, 1, 1, 2, 2, 2, 3, 3, 4]
    );
    assert_eq!(sorted(&vec![]), Vec::<i32>::new());
    assert_eq!(sorted(&vec![5, -5, 5]), vec![-5, 5, 5]);
}

#[test]
fn median_and_mode_of_the_sample() {
    let list = vec![1, 2, 4, 3, 1, 1, 2, 2, 3, 1, 1];
    assert_eq!(median(&sorted(&list)), 2);
    assert_eq!(mode(&list), 1);
}

#[test]
fn the_median_sits_at_half_the_length_rounded() {
    assert_eq!(median(&vec![10, 20]), 20);
    assert_eq!(median(&vec![10, 20, 30]), 30);
    assert_eq!(median(&vec![10, 20, 30, 40]), 30);
    assert_eq!(median(&vec![10, 20, 30, 40, 50]), 40);
}

#[test]
fn the_mode_occurs_most_often() {
    assert_eq!(mode(&vec![]), 0);
    assert_eq!(mode(&vec![7]), 7);
    assert_eq!(mode(&vec![3, 9, 9, 3, 9]), 9);
    assert_eq!(mode(&vec![-1, -1, 5]), -1);
    let tied = mode(&vec![4, 6, 6, 4]);
    assert!(tied == 4 || tied == 6);
    let counts = tally(&vec![3, 9, 9, 3, 9]);
    assert_eq!(counts.len(), 2);
    assert_eq!(counts.get(&9), Some(&3));
    assert_eq!(counts.get(&3), Some(&2));
    assert_eq!(counts.get(&1), None);
    assert_eq!(tally(&vec![]).len(), 0);
}

#[test]
fn the_longest_of_two_texts() {
    assert_eq!(longest("abc", "abcd"), "abcd");
    assert_eq!(longest("abcd", "abc"), "abcd");
    assert_eq!(longest("abc", "xyz"), "xyz");
    assert_eq!(longest("é", "ab"), "ab");
    assert_eq!(longest("éé", "abc"), "éé");
    assert_eq!(longest("", ""), "");
}

#[test]
fn an_excerpt_is_of_level_three() {
    let novel = String::from("Call me Ishmael. Some years ago...");
    let excerpt = ImportantExcerpt { part: &novel[..15] };
    assert_eq!(excerpt.level(), 3);
    assert_eq!(excerpt.part, "Call me Ishmael");
}

#[test]
fn breakfast_comes_with_the_fruit_of_the_season() {
    let mut meal = Breakfast::summer("Rye");
    assert_eq!(meal.toast, "Rye");
    assert_eq!(meal.seasonal_fruit(), "peaches");
    meal.toast = String::from("Wheat");
    assert_eq!(meal.toast(), "Wheat");
    meal.set_toast("Spelt");
    assert_eq!(meal.toast, "Spelt");
    assert_eq!(meal.seasonal_fruit(), "peaches");
    let meal = Breakfast::new("white bread");
    assert_eq!(meal.toast, "white bread");
    assert_eq!(meal.seasonal_fruit(), "Apples");
    assert!(matches!(Appetizer::Soup, Appetizer::Soup));
    assert!(!matches!(Appetizer::Salad, Appetizer::Soup));
}

#[test]
fn the_front_of_house_serves() {
    add_to_waitlist();
    seat_at_table();
    take_my_order();
    serve_my_order();
    take_payment();
}

#[test]
fn an_article_invites_to_read_more() {
    let article = NewsArticle {
        headline: String::from("Penguins win the Stanley Cup Championship!"),
        location: String::from("Pittsburgh, PA, USA"),
        author: String::from("Iceburgh"),
        content: String::from("The Pittsburgh Penguins once again are the best."),
    };
    assert_eq!(article.summarize_author(), "Iceburgh");
    assert_eq!(article.summarize(), "(Read more from Iceburgh... )");
    assert_eq!(invitation(""), "(Read more from ... )");
}

#[test]
fn a_tweet_sums_itself_up() {
    let tweet = Tweet {
        username: String::from("horse_ebooks"),
        content: String::from("of course, as you probably already know, people"),
        reply: false,
        retweet: false,
    };
    assert_eq!(tweet.summarize_author(), "@horse_ebooks");
    assert_eq!(
        tweet.summarize(),
        "horse_ebooks: of course, as you probably already know, people"
    );
}

#[test]
fn wide_strings_are_utf16_closed_by_zero() {
    for text in ["", "WinApiAPP", "Button", "héllo", "日本語", "a😀b", "\u{10000}", "\u{ffff}\u{10ffff}"] {
        let mut expected: Vec<u16> = text.encode_utf16().collect();
        expected.push(0);
        assert_eq!(workbook::dv_winapi::to_wstring(text), expected);
    }
    assert_eq!(workbook::dv_winapi::to_wstring("Ok"), vec![79, 107, 0]);
    assert_eq!(workbook::dv_winapi::to_wstring("😀"), vec![0xD83D, 0xDE00, 0]);
}

#[test]
fn the_window_procedure_knows_four_messages() {
    assert_eq!(window_action(0x0002), WindowAction::Quit);
    assert_eq!(window_action(0x0003), WindowAction::Ignore);
    assert_eq!(window_action(0x0005), WindowAction::Ignore);
    assert_eq!(window_action(0x0111), WindowAction::ShowMessageBox);
    assert_eq!(window_action(0x0000), WindowAction::Default);
    assert_eq!(window_action(0x000F), WindowAction::Default);
    assert_eq!(window_action(u32::MAX), WindowAction::Default);
}

#[test]
fn the_first_sentence_ends_before_the_first_full_stop() {
    assert_eq!(first_sentence("Call me Ishmael. Some years ago..."), "Call me Ishmael");
    assert_eq!(first_sentence("no stop"), "no stop");
    assert_eq!(first_sentence(".x"), "");
    assert_eq!(first_sentence(""), "");
    assert_eq!(first_sentence("é.è."), "é");
    for text in ["a.b.c", "", ".", "abc", "..", "ü.ö"] {
        assert_eq!(first_sentence(text), text.split(".").next().unwrap());
    }
}

#[test]
fn breaking_news_announce_the_summary() {
    let tweet = Tweet {
        username: String::from("a"),
        content: String::from("b"),
        reply: false,
        retweet: true,
    };
    assert_eq!(breaking_news(&tweet), "Breaking news! a: b");
    let article = NewsArticle {
        headline: String::from("h"),
        location: String::from("l"),
        author: String::from("me"),
        content: String::from("c"),
    };
    assert_eq!(breaking_news(&article), "Breaking news! (Read more from me... )");
}

#[test]
fn the_first_coordinate_is_largest_when_not_below_the_second() {
    assert!(!pointSingleType { x: 5, y: 10 }.x_is_largest());
    assert!(pointSingleType { x: 10, y: 10 }.x_is_largest());
    assert!(pointSingleType { x: 11, y: 10 }.x_is_largest());
    assert!(pointSingleType { x: "b", y: "a" }.x_is_largest());
}

#[test]
fn workers_rest_longer_the_later_they_start() {
    assert_eq!(worker_pause_millis(0), 180);
    assert_eq!(worker_pause_millis(1), 260);
    assert_eq!(worker_pause_millis(3), 420);
    assert_eq!(row_label(0), "0");
    assert_eq!(row_label(49), "49");
    assert_eq!(row_label(-1), "-1");
}

#[test]
fn the_median_position_is_half_the_length_in_single_precision() {
    let mut lengths: Vec<usize> = vec![0, 1, 2, 3, 4, 5, 10, 11, 255, 256];
    let mut exponent = 20;
    while exponent < 64 {
        let power: usize = 1 << exponent;
        let mut offset = 0;
        while offset < 600 {
            lengths.push(power.wrapping_add(offset));
            lengths.push(power.wrapping_sub(offset));
            lengths.push((power + power / 2).wrapping_add(offset));
            offset += 1;
        }
        exponent += 1;
    }
    let mut offset = 0;
    while offset < 5000 {
        lengths.push(usize::MAX - offset);
        offset += 1;
    }
    for len in lengths {
        assert_eq!(median_index(len), (len as f32 / 2.0).round() as usize);
    }
    assert_eq!(median_index(11), 6);
    assert_eq!(median_index(16777217), 8388608);
    assert_eq!(median_index(16777219), 8388610);
}
