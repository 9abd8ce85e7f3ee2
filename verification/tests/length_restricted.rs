use rinha::controllers::create_person::{Name, Nickname, StackName};
use rinha::utils::{LengthError, LengthRestrictedString};

#[test]
fn text_within_bounds_is_kept_unchanged() {
    let kept = LengthRestrictedString::<1, 32>::new("maria").expect("five characters fit 1..=32");
    assert_eq!(kept.as_ref(), "maria");
}

#[test]
fn text_at_the_lower_bound_is_accepted() {
    let kept = LengthRestrictedString::<2, 4>::new("ab").expect("two characters fit 2..=4");
    assert_eq!(kept.as_ref(), "ab");
}

#[test]
fn text_at_the_upper_bound_is_accepted() {
    let kept = LengthRestrictedString::<2, 4>::new("abcd").expect("four characters fit 2..=4");
    assert_eq!(kept.as_ref(), "abcd");
}

#[test]
fn text_below_the_lower_bound_is_refused_with_length_and_bounds() {
    let refusal = LengthRestrictedString::<2, 4>::new("a").expect_err("one character is too few");
    assert_eq!(
        refusal,
        LengthError { value: "a".to_string(), length: 1, min: 2, max: 4 }
    );
}

#[test]
fn text_above_the_upper_bound_is_refused_with_length_and_bounds() {
    let refusal =
        LengthRestrictedString::<2, 4>::new("abcde").expect_err("five characters are too many");
    assert_eq!(
        refusal,
        LengthError { value: "abcde".to_string(), length: 5, min: 2, max: 4 }
    );
}

#[test]
fn empty_text_is_refused_where_one_character_is_required() {
    let refusal = Nickname::new("").expect_err("a nickname has at least one character");
    assert_eq!(refusal, LengthError { value: String::new(), length: 0, min: 1, max: 32 });
}

#[test]
fn empty_text_is_accepted_where_none_is_required() {
    let kept = LengthRestrictedString::<0, 3>::new("").expect("no character fits 0..=3");
    assert_eq!(kept.as_ref(), "");
}

#[test]
fn nothing_is_accepted_where_the_bounds_cross() {
    assert!(LengthRestrictedString::<3, 2>::new("ab").is_err());
    assert!(LengthRestrictedString::<3, 2>::new("abc").is_err());
}

#[test]
fn length_is_counted_in_characters() {
    let text = "ação";
    assert_eq!(text.len(), 6);
    let kept = LengthRestrictedString::<1, 4>::new(text).expect("four characters fit 1..=4");
    assert_eq!(kept.as_ref(), text);
    let refusal = LengthRestrictedString::<1, 3>::new(text).expect_err("four characters");
    assert_eq!(refusal.length, 4);
}

#[test]
fn nickname_takes_one_to_thirty_two_characters() {
    assert!(Nickname::new(&"n".repeat(32)).is_ok());
    let refusal = Nickname::new(&"n".repeat(33)).expect_err("33 characters");
    assert_eq!((refusal.length, refusal.min, refusal.max), (33, 1, 32));
}

#[test]
fn name_takes_one_to_a_hundred_characters() {
    assert!(Name::new(&"n".repeat(100)).is_ok());
    let refusal = Name::new(&"n".repeat(101)).expect_err("101 characters");
    assert_eq!((refusal.length, refusal.min, refusal.max), (101, 1, 100));
    assert_eq!(refusal.value, "n".repeat(101));
}

#[test]
fn stack_name_takes_one_to_thirty_two_characters() {
    assert!(StackName::new("Go").is_ok());
    assert!(StackName::new("").is_err());
    assert!(StackName::new(&"s".repeat(33)).is_err());
}

#[test]
fn accepted_text_is_given_away_without_change() {
    let kept = Nickname::new("maria").expect("accepted");
    assert_eq!(kept.clone().into_string(), "maria");
    let text: String = kept.into();
    assert_eq!(text, "maria");
}

#[test]
fn expecting_names_both_bounds() {
    assert_eq!(
        Nickname::expecting(),
        "a string no shorter than 1 and no longer than 32 characters"
    );
    assert_eq!(
        Name::expecting(),
        "a string no shorter than 1 and no longer than 100 characters"
    );
    assert_eq!(
        LengthRestrictedString::<0, 18446744073709551615>::expecting(),
        "a string no shorter than 0 and no longer than 18446744073709551615 characters"
    );
}
