//! The question whether to go on, asked until it is answered.

use vstd::prelude::*;
use crate::game::message::Message;
use crate::scan::{chars_of, texts, trim, trimmed};

verus! {

/// What a line answers once the white space around it is dropped: `y` or `Y`
/// is yes, `n` or `N` is no, and anything else is no answer.
pub open spec fn answer_of(line: Seq<char>) -> Option<bool> {
    let word = trimmed(line);
    if word.len() == 1 && (word[0] == 'y' || word[0] == 'Y') {
        Some(true)
    } else if word.len() == 1 && (word[0] == 'n' || word[0] == 'N') {
        Some(false)
    } else {
        None
    }
}

/// Reads one line as an answer to a yes-or-no question.
pub fn read_answer(line: &str) -> (answer: Option<bool>)
    ensures
        answer == answer_of(line@),
{
    let chars: Vec<char> = chars_of(line);
    let word: Vec<char> = trim(&chars);
    if word.len() != 1 {
        return None;
    }
    let letter: char = word[0];
    if letter == 'y' || letter == 'Y' {
        Some(true)
    } else if letter == 'n' || letter == 'N' {
        Some(false)
    } else {
        None
    }
}

/// How a question went: the answer, if the lines held one, and the number of
/// lines that were turned down before it.
#[derive(Clone, Copy, Debug, PartialEq, Eq, Structural)]
pub struct Asked {
    pub answer: Option<bool>,
    pub rejected: usize,
}

/// What is said while a question is asked of lines of which the given
/// number are turned down: the question, and after each line that is turned
/// down the hint and the question again.
pub open spec fn said_while_asking(rejected: nat) -> Seq<Message>
    decreases rejected,
{
    if rejected == 0 {
        seq![Message::AskContinue]
    } else {
        said_while_asking((rejected - 1) as nat) + seq![Message::Guidance, Message::AskContinue]
    }
}

impl Asked {
    /// What was said while the question was asked.
    pub fn said(&self) -> (said: Vec<Message>)
        ensures
            said@ == said_while_asking(self.rejected as nat),
    {
        let mut said: Vec<Message> = vec![Message::AskContinue];
        assert(said@ =~= seq![Message::AskContinue]);
        let mut i: usize = 0;
        while i < self.rejected
            invariant
                i <= self.rejected,
                said@ == said_while_asking(i as nat),
            decreases self.rejected - i,
        {
            let ghost before = said@;
            said.push(Message::Guidance);
            said.push(Message::AskContinue);
            i += 1;
            assert(said@ =~= before + seq![Message::Guidance, Message::AskContinue]);
        }
        said
    }
}

/// Asks a yes-or-no question of the lines that a player enters, one line per
/// attempt, until one of them answers it.
///
/// Every line before the answer is no answer and is turned down. Where no
/// line answers, all of them are turned down and the question stays open.
pub fn ask_yes_no(lines: &Vec<String>) -> (asked: Asked)
    ensures
        asked.rejected <= lines.len(),
        forall|i: int| 0 <= i < asked.rejected ==> answer_of(#[trigger] texts(lines@)[i]) is None,
        asked.rejected < lines.len() ==> asked.answer is Some && asked.answer == answer_of(
            texts(lines@)[asked.rejected as int],
        ),
        asked.rejected == lines.len() ==> asked.answer is None,
{
    let mut i: usize = 0;
    while i < lines.len()
        invariant
            i <= lines.len(),
            forall|k: int| 0 <= k < i ==> answer_of(#[trigger] texts(lines@)[k]) is None,
        decreases lines.len() - i,
    {
        let answer: Option<bool> = read_answer(lines[i].as_str());
        assert(texts(lines@)[i as int] == lines@[i as int]@);
        if answer.is_some() {
            return Asked { answer, rejected: i };
        }
        i += 1;
    }
    Asked { answer: None, rejected: i }
}

} // verus!
