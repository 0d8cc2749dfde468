use word_drill::game::{
    check_answer, create_game, feedback_line, generate_question, preview_lines, Await, Cmd, Game,
};
use word_drill::game_rules::Rules;
use word_drill::io::Reply;

fn two_words() -> Vec<(String, String)> {
    vec![
        ("Katze".to_owned(), "cat".to_owned()),
        ("Hund".to_owned(), "dog".to_owned()),
    ]
}

fn rules(rounds: u32) -> Rules {
    Rules { file_name: "my_file".to_owned(), amount_of_rounds: rounds }
}

#[test]
fn answer_check_is_exact() {
    assert!(check_answer(&"Katze".to_owned(), &"Katze".to_owned()));
    assert!(!check_answer(&"katze".to_owned(), &"Katze".to_owned()));
    assert!(!check_answer(&" Katze".to_owned(), &"Katze".to_owned()));
    assert!(!check_answer(&"Katze ".to_owned(), &"Katze".to_owned()));
}

#[test]
fn feedback_lines_are_verbatim() {
    assert_eq!(feedback_line(true, &"cat".to_owned()), "Correct!".to_owned());
    assert_eq!(
        feedback_line(false, &"cat".to_owned()),
        "Wrong! Correct answer is \"cat\"".to_owned()
    );
}

#[test]
fn generate_question_keeps_the_pair() {
    let q = generate_question(("a".to_owned(), "b".to_owned()));
    assert!(
        q == ("a".to_owned(), "b".to_owned()) || q == ("b".to_owned(), "a".to_owned())
    );
}

#[test]
fn preview_lists_pairs_verbatim() {
    let lines = preview_lines(&two_words());
    assert_eq!(lines, vec!["Katze - cat".to_owned(), "Hund - dog".to_owned()]);
}

#[test]
fn greeting_comes_first_and_verbatim() {
    let (_run, cmds) = create_game(rules(2), two_words(), Reply::No, &vec![]);
    assert_eq!(cmds[0], Cmd::Clear);
    assert_eq!(cmds[1], Cmd::Line("Greetings!".to_owned()));
    assert_eq!(
        cmds[2],
        Cmd::Line(
            "We are playing 2 rounds. There are 2 word pairs in file \"my_file\"".to_owned()
        )
    );
    assert_eq!(cmds[3], Cmd::Line("Start playing?".to_owned()));
    assert_eq!(cmds[4], Cmd::Line("Y/n".to_owned()));
}

#[test]
fn declining_renders_no_round() {
    let (run, cmds) = create_game(rules(3), two_words(), Reply::No, &vec![]);
    assert!(!run.played);
    assert_eq!(run.rounds.len(), 0);
    assert_eq!(cmds.len(), 5);
}

#[test]
fn zero_round_game_plays_nothing() {
    let (run, cmds) = create_game(rules(0), two_words(), Reply::Yes, &vec![]);
    assert!(run.played);
    assert_eq!(run.rounds.len(), 0);
    assert_eq!(cmds.len(), 5);
}

#[test]
fn plays_each_pair_exactly_once_per_round() {
    let answers: Vec<String> = vec!["a".to_owned(); 6];
    let (run, _cmds) = create_game(rules(3), two_words(), Reply::Yes, &answers);
    assert!(run.played);
    assert_eq!(run.rounds.len(), 3);
    for round in &run.rounds {
        assert_eq!(
            round.preview,
            vec!["Katze - cat".to_owned(), "Hund - dog".to_owned()]
        );
        assert_eq!(round.answered.len(), 2);
        let mut pairs: Vec<(String, String)> =
            round.answered.iter().map(|a| a.pair.clone()).collect();
        pairs.sort();
        let mut expected = two_words();
        expected.sort();
        assert_eq!(pairs, expected);
        for a in &round.answered {
            assert!(
                (a.prompt == a.pair.0 && a.expected == a.pair.1)
                    || (a.prompt == a.pair.1 && a.expected == a.pair.0)
            );
            assert_eq!(a.correct, a.given == a.expected);
        }
    }
}

#[test]
fn scripted_answers_are_judged_in_order() {
    let words = vec![("x".to_owned(), "x".to_owned())];
    let answers = vec!["x".to_owned(), "y".to_owned()];
    let (run, cmds) = create_game(rules(2), words, Reply::Yes, &answers);
    assert_eq!(run.rounds.len(), 2);
    let first = &run.rounds[0].answered[0];
    assert_eq!(first.given, "x".to_owned());
    assert!(first.correct);
    let second = &run.rounds[1].answered[0];
    assert_eq!(second.given, "y".to_owned());
    assert!(!second.correct);
    assert!(cmds.contains(&Cmd::Line("Correct!".to_owned())));
    assert!(cmds.contains(&Cmd::Line("Wrong! Correct answer is \"x\"".to_owned())));
}

#[test]
fn exhausted_answers_read_as_empty() {
    let words = vec![("x".to_owned(), "x".to_owned())];
    let (run, _cmds) = create_game(rules(1), words, Reply::Yes, &vec![]);
    let a = &run.rounds[0].answered[0];
    assert_eq!(a.given, "".to_owned());
    assert!(!a.correct);
}

#[test]
fn step_flow_renders_preview_banner_and_prompt() {
    let mut game = Game::new(rules(1), vec![("Katze".to_owned(), "cat".to_owned())]);
    let cmds = game.print_greeting();
    assert_eq!(cmds.len(), 5);
    assert_eq!(game.awaiting(), Await::Confirm);
    let cmds = game.on_reply(Reply::Yes);
    assert_eq!(
        cmds,
        vec![
            Cmd::Clear,
            Cmd::Line("Today's words are".to_owned()),
            Cmd::Line("Katze - cat".to_owned()),
            Cmd::Line("Press any key".to_owned()),
        ]
    );
    assert_eq!(game.awaiting(), Await::AnyKey);
    let cmds = game.on_any_key();
    assert_eq!(
        cmds,
        vec![
            Cmd::Clear,
            Cmd::Line("Round 1!".to_owned()),
            Cmd::Line("Press any key".to_owned()),
        ]
    );
    assert_eq!(game.awaiting(), Await::AnyKey);
    let cmds = game.on_any_key();
    assert_eq!(cmds.len(), 1);
    assert!(
        cmds[0] == Cmd::Inline("Katze - ".to_owned()) || cmds[0] == Cmd::Inline("cat - ".to_owned())
    );
    assert_eq!(game.awaiting(), Await::LineInput);
    let (answered, cmds) = game.on_line("cat".to_owned());
    assert_eq!(answered.given, "cat".to_owned());
    assert_eq!(cmds.len(), 1);
    assert_eq!(game.awaiting(), Await::Finished);
}

#[test]
fn empty_word_list_still_runs_its_rounds() {
    let (run, _cmds) = create_game(rules(2), vec![], Reply::Yes, &vec![]);
    assert!(run.played);
    assert_eq!(run.rounds.len(), 2);
    for round in &run.rounds {
        assert_eq!(round.preview.len(), 0);
        assert_eq!(round.answered.len(), 0);
    }
}
