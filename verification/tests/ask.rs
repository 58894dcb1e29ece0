use nano::ask::{ask, respond, CHOICES};

#[test]
fn respond_quotes_the_question_after_a_slash() {
    assert_eq!(
        respond("/", "Will it rain?", 0),
        "> Will it rain?\n\nIt is certain."
    );
}

#[test]
fn respond_quotes_every_line_of_the_question() {
    assert_eq!(
        respond("/", "one\ntwo\nthree", 19),
        "> one\n>two\n>three\n\nVery doubtful."
    );
}

#[test]
fn respond_gives_the_bare_answer_after_any_other_prefix() {
    assert_eq!(respond("!", "Will it rain?", 8), "Yes.");
    assert_eq!(respond("", "a\nb", 10), "Reply hazy, try again...");
    assert_eq!(respond("//", "a\nb", 16), "My reply is no.");
}

#[test]
fn choices_are_twenty_and_in_order() {
    assert_eq!(CHOICES.len(), 20);
    assert_eq!(CHOICES[0], "It is certain.");
    assert_eq!(CHOICES[9], "Signs point to yes.");
    assert_eq!(CHOICES[14], "Concentrate and ask again.");
    assert_eq!(CHOICES[19], "Very doubtful.");
}

#[test]
fn ask_answers_with_one_of_the_choices() {
    for _ in 0..200 {
        let reply = ask("!", "Is this random?");
        assert!(CHOICES.contains(&reply.as_str()));
        let quoted = ask("/", "Is this random?");
        let choice = quoted.strip_prefix("> Is this random?\n\n").unwrap();
        assert!(CHOICES.contains(&choice));
    }
}

#[test]
fn ask_does_not_always_give_the_same_answer() {
    let first = ask("!", "q");
    let mut differs = false;
    for _ in 0..500 {
        if ask("!", "q") != first {
            differs = true;
        }
    }
    assert!(differs);
}
