use word_drill::game_rules::{parse_arguments, verify_args, Rules, RulesError};

#[test]
fn valid_number_of_arguments() {
    let rules = Rules::new(vec!["my_file".to_owned(), "2".to_owned()]).unwrap();
    assert_eq!(rules.file_name, "my_file".to_owned());
    assert_eq!(rules.amount_of_rounds, 2);
}

#[test]
fn invalid_number_of_arguments() {
    let rules = Rules::new(vec!["my_file".to_owned()]);
    match rules {
        Err(RulesError::WrongArgumentCount(ref e)) => {
            assert_eq!(e.expected, 2);
            assert_eq!(e.provided, 1);
        }
        _ => panic!(),
    }
}

#[test]
fn error_message_names_both_counts() {
    let rules = Rules::new(vec!["my_file".to_owned()]);
    match rules {
        Err(RulesError::WrongArgumentCount(ref e)) => {
            assert_eq!(
                e.message(),
                "Invalid number of arguments, expected: 2, provided: 1".to_owned()
            );
        }
        _ => panic!(),
    }
}

#[test]
fn verify_args_accepts_exactly_two() {
    assert!(verify_args(&vec!["a".to_owned(), "1".to_owned()]).is_ok());
    let err = verify_args(&vec![]).unwrap_err();
    assert_eq!(err.expected, 2);
    assert_eq!(err.provided, 0);
    let err = verify_args(&vec!["a".to_owned(), "1".to_owned(), "x".to_owned()]).unwrap_err();
    assert_eq!(err.provided, 3);
}

#[test]
fn round_count_must_be_a_number() {
    let rules = Rules::new(vec!["my_file".to_owned(), "abc".to_owned()]);
    assert!(matches!(rules, Err(RulesError::InvalidRoundCount)));
    let rules = Rules::new(vec!["my_file".to_owned(), "".to_owned()]);
    assert!(matches!(rules, Err(RulesError::InvalidRoundCount)));
    let rules = Rules::new(vec!["my_file".to_owned(), "-1".to_owned()]);
    assert!(matches!(rules, Err(RulesError::InvalidRoundCount)));
}

#[test]
fn round_count_bounds() {
    let rules = Rules::new(vec!["f".to_owned(), "4294967295".to_owned()]).unwrap();
    assert_eq!(rules.amount_of_rounds, u32::MAX);
    let rules = Rules::new(vec!["f".to_owned(), "4294967296".to_owned()]);
    assert!(matches!(rules, Err(RulesError::InvalidRoundCount)));
    let rules = Rules::new(vec!["f".to_owned(), "+7".to_owned()]).unwrap();
    assert_eq!(rules.amount_of_rounds, 7);
}

#[test]
fn parse_arguments_skips_the_program_name() {
    let rules =
        parse_arguments(vec!["prog".to_owned(), "my_file".to_owned(), "3".to_owned()]).unwrap();
    assert_eq!(rules.file_name, "my_file".to_owned());
    assert_eq!(rules.amount_of_rounds, 3);
    let err = parse_arguments(vec!["prog".to_owned(), "my_file".to_owned()]);
    match err {
        Err(RulesError::WrongArgumentCount(ref e)) => {
            assert_eq!(e.expected, 2);
            assert_eq!(e.provided, 1);
        }
        _ => panic!(),
    }
}
