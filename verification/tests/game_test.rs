use primer::game::balance::{read_balance, DEFAULT_BALANCE};
use primer::game::drum::{advance, rotate_drum, FROM, TO};
use primer::game::message::{render, Message};
use primer::game::prompt::{ask_yes_no, read_answer, Asked};
use primer::game::round::{Game, Status};
use primer::numerals::{to_decimal, to_hex_pair, to_signed_decimal};
use primer::scan::{chars_of, parse_u32, trim};

fn lines(words: &[&str]) -> Vec<String> {
    words.iter().map(|word| word.to_string()).collect()
}

#[test]
fn advance_moves_one_up() {
    assert_eq!(advance(1), 2);
    assert_eq!(advance(2), 3);
    assert_eq!(advance(3), 4);
    assert_eq!(advance(4), 5);
}

#[test]
fn advance_reaches_the_top_and_wraps_to_the_bottom() {
    assert_eq!(advance(5), 6);
    assert_eq!(advance(6), 1);
}

#[test]
fn advance_never_shows_zero() {
    assert_eq!(advance(0), 1);
    assert_eq!(advance(11), 6);
    assert_eq!(advance(12), 1);
    assert_eq!(advance(u32::MAX), 4);
    for position in 0..1000u32 {
        let next = advance(position);
        assert!(FROM <= next && next <= TO);
    }
}

#[test]
fn advance_below_the_top_stays_below_it() {
    for position in FROM..TO - 1 {
        let next = advance(position);
        assert!(FROM <= next && next < TO);
    }
}

#[test]
fn six_advances_come_back() {
    for start in FROM..=TO {
        let mut position = start;
        for _ in 0..6 {
            position = advance(position);
        }
        assert_eq!(position, start);
    }
}

#[test]
fn rotate_drum_turns_in_place() {
    let mut position = 4;
    rotate_drum(&mut position);
    assert_eq!(position, 5);
    rotate_drum(&mut position);
    assert_eq!(position, 6);
    rotate_drum(&mut position);
    assert_eq!(position, 1);
}

#[test]
fn balance_is_read_from_a_number() {
    assert_eq!(read_balance("250\n"), 250);
    assert_eq!(read_balance("  42  "), 42);
    assert_eq!(read_balance("+7"), 7);
    assert_eq!(read_balance("0"), 0);
    assert_eq!(read_balance("000123"), 123);
    assert_eq!(read_balance("4294967295"), u32::MAX);
    assert_eq!(read_balance("\t100\r\n"), 100);
    assert_eq!(read_balance("\u{3000}5\u{a0}"), 5);
}

#[test]
fn malformed_balance_is_the_default() {
    assert_eq!(DEFAULT_BALANCE, 100);
    for line in [
        "", "\n", "   ", "abc", "12a", "a12", "-5", "+", "-", "1 2", "1_000", "4294967296",
        "99999999999999999999999", "3.5", "0x10", "++1", "+-1", "١٢٣", "１２",
    ] {
        assert_eq!(read_balance(line), 100);
    }
}

#[test]
fn balance_agrees_with_the_standard_parser() {
    for line in [
        "", " ", "0", "1", "+1", "-1", "-0", "+0", "007", " 12\n", "12 3", "4294967295",
        "4294967296", "42949672950", "18446744073709551616", "\u{2003}9\u{2003}", "\u{200b}9",
        "nine", "9\u{0}", "+", "+ 1", "1+", "1e3", "٣", "\u{85}77\u{85}", "\u{1680}8",
    ] {
        let expected: u32 = line.trim().parse().unwrap_or(100);
        assert_eq!(read_balance(line), expected);
    }
}

#[test]
fn trim_agrees_with_the_standard_library() {
    for line in [
        "", " ", "a", " a", "a ", " a b ", "\t\n\r a\u{b}\u{c}", "\u{2028}x\u{2029}",
        "\u{202f}x\u{205f}", "\u{200b}x", "\u{feff}x", "\u{1c}x", "\u{2000}\u{200a}x",
    ] {
        let kept: String = trim(&chars_of(line)).into_iter().collect();
        assert_eq!(kept, line.trim());
    }
}

#[test]
fn numbers_are_parsed_digit_by_digit() {
    assert_eq!(parse_u32(&chars_of("1234567890")), Some(1234567890));
    assert_eq!(parse_u32(&chars_of("+4294967295")), Some(4294967295));
    assert_eq!(parse_u32(&chars_of("4294967296")), None);
    assert_eq!(parse_u32(&chars_of("")), None);
    assert_eq!(parse_u32(&chars_of("+")), None);
    assert_eq!(parse_u32(&chars_of(" 1")), None);
}

#[test]
fn answers_are_read_whatever_the_case() {
    assert_eq!(read_answer("y"), Some(true));
    assert_eq!(read_answer("Y"), Some(true));
    assert_eq!(read_answer("n"), Some(false));
    assert_eq!(read_answer("N"), Some(false));
    assert_eq!(read_answer("  y\n"), Some(true));
    assert_eq!(read_answer("\tN \r\n"), Some(false));
    assert_eq!(read_answer(""), None);
    assert_eq!(read_answer("x"), None);
    assert_eq!(read_answer("yes"), None);
    assert_eq!(read_answer("no"), None);
    assert_eq!(read_answer("y n"), None);
}

#[test]
fn continue_prompt_rejects_then_accepts() {
    let asked = ask_yes_no(&lines(&["x", "Y"]));
    assert_eq!(asked, Asked { answer: Some(true), rejected: 1 });
}

#[test]
fn continue_prompt_takes_the_first_answer() {
    assert_eq!(ask_yes_no(&lines(&["n", "y"])), Asked { answer: Some(false), rejected: 0 });
    assert_eq!(
        ask_yes_no(&lines(&["", "maybe", " n ", "y"])),
        Asked { answer: Some(false), rejected: 2 }
    );
}

#[test]
fn continue_prompt_stays_open_without_an_answer() {
    assert_eq!(ask_yes_no(&lines(&[])), Asked { answer: None, rejected: 0 });
    assert_eq!(ask_yes_no(&lines(&["a", "b", "c"])), Asked { answer: None, rejected: 3 });
}

#[test]
fn first_pull_on_the_target_loses_everything() {
    let mut game = Game::new(100, 3, 3).unwrap();
    assert_eq!(game.status(), Status::Playing);
    let said = game.feed("\n");
    assert_eq!(said, vec![Message::YouLose, Message::Bye(0)]);
    assert_eq!(game.balance(), 0);
    assert_eq!(game.status(), Status::Lost);
    assert!(game.is_over());
    assert_eq!(game.farewell(), "Bye! Your final balance is 0");
    assert_eq!(render(&said), "You lose!\nBye! Your final balance is 0\n");
}

#[test]
fn one_round_survived_then_stopped() {
    let mut game = Game::new(50, 1, 4).unwrap();
    let said = game.feed("\n");
    assert_eq!(said, vec![Message::Balance(100), Message::AskContinue]);
    assert_eq!(game.current(), 2);
    assert_eq!(game.target(), 4);
    assert!(game.is_asking());
    let said = game.feed("n\n");
    assert_eq!(said, vec![Message::Bye(100)]);
    assert_eq!(game.balance(), 100);
    assert_eq!(game.status(), Status::Stopped);
    assert_eq!(game.farewell(), "Bye! Your final balance is 100");
}

#[test]
fn one_round_survived_then_stopped_from_a_script() {
    let mut game = Game::new(50, 1, 4).unwrap();
    let said = game.play(&lines(&["", "n"]));
    assert_eq!(said, vec![Message::Balance(100), Message::AskContinue, Message::Bye(100)]);
    assert_eq!(game.balance(), 100);
    assert_eq!(game.status(), Status::Stopped);
    assert_eq!(
        render(&said),
        "Your balance is 100\nDo you want continue? (y/n): Bye! Your final balance is 100\n"
    );
}

#[test]
fn any_line_pulls_the_trigger() {
    for line in ["", "y", "n", "no thanks", "\u{0}"] {
        let mut game = Game::new(10, 2, 5).unwrap();
        game.feed(line);
        assert_eq!(game.balance(), 20);
        assert_eq!(game.current(), 3);
        assert_eq!(game.status(), Status::Playing);
        assert!(game.is_asking());
    }
}

#[test]
fn a_line_that_is_no_answer_is_asked_again() {
    let mut game = Game::new(10, 2, 5).unwrap();
    game.feed("");
    let said = game.feed("perhaps");
    assert_eq!(said, vec![Message::Guidance, Message::AskContinue]);
    assert_eq!(game.balance(), 20);
    assert_eq!(game.current(), 3);
    assert!(game.is_asking());
    assert_eq!(game.status(), Status::Playing);
    let said = game.feed("Y");
    assert_eq!(said, vec![Message::Push]);
    assert!(!game.is_asking());
    assert_eq!(game.status(), Status::Playing);
}

#[test]
fn a_full_game_is_lost_at_the_target() {
    let mut game = Game::new(3, 2, 1).unwrap();
    let said = game.play(&lines(&[
        "", "y", "", "what", "y", "", "y", "", "y", "", "Y", "", "ignored", "ignored",
    ]));
    assert_eq!(game.status(), Status::Lost);
    assert_eq!(game.balance(), 0);
    assert_eq!(game.current(), 1);
    assert_eq!(
        said,
        vec![
            Message::Balance(6),
            Message::AskContinue,
            Message::Push,
            Message::Balance(12),
            Message::AskContinue,
            Message::Guidance,
            Message::AskContinue,
            Message::Push,
            Message::Balance(24),
            Message::AskContinue,
            Message::Push,
            Message::Balance(48),
            Message::AskContinue,
            Message::Push,
            Message::Balance(96),
            Message::AskContinue,
            Message::Push,
            Message::YouLose,
            Message::Bye(0),
        ]
    );
}

#[test]
fn the_largest_stake_doubles_without_loss() {
    let mut game = Game::new(u32::MAX, 2, 1).unwrap();
    game.play(&lines(&["", "y", "", "y", "", "y", "", "y", "", "n"]));
    assert_eq!(game.status(), Status::Stopped);
    assert_eq!(game.balance(), 4294967295u64 * 32);
    assert_eq!(game.farewell(), "Bye! Your final balance is 137438953440");
}

#[test]
fn a_game_that_is_over_stays_over() {
    let mut game = Game::new(5, 1, 1).unwrap();
    game.feed("");
    assert_eq!(game.status(), Status::Lost);
    assert_eq!(game.feed("y"), vec![]);
    assert_eq!(game.play(&lines(&["", "y", "n"])), vec![]);
    assert_eq!(game.status(), Status::Lost);
    assert_eq!(game.balance(), 0);
}

#[test]
fn no_game_on_positions_that_cannot_be_drawn() {
    assert!(Game::new(1, 0, 1).is_none());
    assert!(Game::new(1, 1, 0).is_none());
    assert!(Game::new(1, 6, 1).is_none());
    assert!(Game::new(1, 1, 6).is_none());
    assert!(Game::new(1, 5, 5).is_some());
    assert!(Game::new(1, 1, 1).is_some());
}

#[test]
fn a_dealt_game_starts_on_drawn_positions() {
    let mut seen = [false; 7];
    for _ in 0..400 {
        let game = Game::deal(77);
        assert_eq!(game.balance(), 77);
        assert_eq!(game.status(), Status::Playing);
        assert!(!game.is_asking());
        assert!(FROM <= game.current() && game.current() < TO);
        assert!(FROM <= game.target() && game.target() < TO);
        seen[game.current() as usize] = true;
    }
    assert!(seen[1] && seen[2] && seen[3] && seen[4] && seen[5]);
    assert!(!seen[0] && !seen[6]);
}

#[test]
fn a_dealt_game_ends_within_six_pulls() {
    for _ in 0..50 {
        let mut game = Game::deal(1);
        let mut pulls = 0;
        while !game.is_over() {
            game.feed("");
            pulls += 1;
            if !game.is_over() {
                game.feed("y");
            }
        }
        assert!(pulls <= 6);
        assert_eq!(game.status(), Status::Lost);
        assert_eq!(game.balance(), 0);
    }
}

#[test]
fn the_opening_names_the_balance_and_calls_for_a_pull() {
    let game = Game::new(100, 1, 2).unwrap();
    let said = game.opening();
    assert_eq!(said, vec![Message::StartBalance(100), Message::Push]);
    assert_eq!(render(&said), "Your start balance is 100\nPush!\n");
}

#[test]
fn messages_read_as_they_should() {
    assert_eq!(Message::EnterBalance.text(), "Enter your balance: ");
    assert_eq!(Message::StartBalance(7).text(), "Your start balance is 7");
    assert_eq!(Message::Push.text(), "Push!");
    assert_eq!(Message::YouLose.text(), "You lose!");
    assert_eq!(Message::Balance(200).text(), "Your balance is 200");
    assert_eq!(Message::AskContinue.text(), "Do you want continue? (y/n): ");
    assert_eq!(Message::Guidance.text(), "Please enter 'y' or 'n'");
    assert_eq!(Message::Bye(0).text(), "Bye! Your final balance is 0");
    assert!(Message::Push.ends_line());
    assert!(!Message::AskContinue.ends_line());
}

#[test]
fn numbers_are_written_out() {
    assert_eq!(to_decimal(0), "0");
    assert_eq!(to_decimal(9), "9");
    assert_eq!(to_decimal(10), "10");
    assert_eq!(to_decimal(1234567890), "1234567890");
    assert_eq!(to_decimal(u64::MAX), "18446744073709551615");
    assert_eq!(to_signed_decimal(0), "0");
    assert_eq!(to_signed_decimal(-1), "-1");
    assert_eq!(to_signed_decimal(21), "21");
    assert_eq!(to_signed_decimal(i64::MIN), "-9223372036854775808");
    assert_eq!(to_signed_decimal(i64::MAX), "9223372036854775807");
    assert_eq!(to_hex_pair(0), "00");
    assert_eq!(to_hex_pair(10), "0a");
    assert_eq!(to_hex_pair(255), "ff");
    assert_eq!(to_hex_pair(256), "100");
    assert_eq!(to_hex_pair(u32::MAX), "ffffffff");
}

#[test]
fn written_numbers_agree_with_the_standard_library() {
    for n in [0u64, 1, 9, 10, 11, 99, 100, 101, 65535, 4294967295, 4294967296, u64::MAX] {
        assert_eq!(to_decimal(n), format!("{}", n));
    }
    for n in [0i64, -1, 1, -128, 127, i64::MIN, i64::MAX] {
        assert_eq!(to_signed_decimal(n), format!("{}", n));
    }
    for n in [0u32, 1, 15, 16, 17, 255, 256, 4095, u32::MAX] {
        assert_eq!(to_hex_pair(n), format!("{:02x}", n));
    }
}

#[test]
fn the_prompt_repeats_the_question_after_each_rejection() {
    let asked = ask_yes_no(&lines(&["x", "Y"]));
    assert_eq!(
        asked.said(),
        vec![Message::AskContinue, Message::Guidance, Message::AskContinue]
    );
    assert_eq!(
        render(&asked.said()),
        "Do you want continue? (y/n): Please enter 'y' or 'n'\nDo you want continue? (y/n): "
    );
    assert_eq!(ask_yes_no(&lines(&["n"])).said(), vec![Message::AskContinue]);
}

#[test]
fn lines_that_do_not_answer_leave_the_game_as_it_is() {
    let mut game = Game::new(8, 4, 2).unwrap();
    game.feed("");
    let said = game.play(&lines(&["", "x", "yes", "0"]));
    assert_eq!(said.len(), 8);
    assert_eq!(game.balance(), 16);
    assert_eq!(game.current(), 5);
    assert_eq!(game.status(), Status::Playing);
    assert!(game.is_asking());
}

#[test]
fn a_written_balance_is_read_back() {
    for n in [0u32, 1, 10, 99, 100, 65536, 4294967295] {
        assert_eq!(read_balance(&to_decimal(n as u64)), n);
    }
}
