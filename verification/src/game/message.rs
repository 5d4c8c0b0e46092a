//! What the game says to the player.

use vstd::prelude::*;
use vstd::string::StringExecFns;
use crate::numerals::{decimal, to_decimal};

verus! {

/// One thing the game says.
#[derive(Clone, Copy, Debug, PartialEq, Eq, Structural)]
pub enum Message {
    /// The request for the starting balance.
    EnterBalance,
    /// The balance the player starts with.
    StartBalance(u64),
    /// The call to pull the trigger.
    Push,
    /// The pull met the target.
    YouLose,
    /// The balance after a pull that was survived.
    Balance(u64),
    /// The question whether to go on. The answer is typed on the same line.
    AskContinue,
    /// The hint after a line that was no answer.
    Guidance,
    /// The farewell, with the final balance.
    Bye(u64),
}

/// What a row of messages looks like on the screen: each one's text, and a
/// line break after all but the question.
pub open spec fn rendered(messages: Seq<Message>) -> Seq<char>
    decreases messages.len(),
{
    if messages.len() == 0 {
        Seq::<char>::empty()
    } else {
        rendered(messages.drop_last()) + messages.last().shown()
    }
}

impl Message {
    /// The words of the message.
    pub open spec fn text_of(self) -> Seq<char> {
        match self {
            Message::EnterBalance => "Enter your balance: "@,
            Message::StartBalance(balance) => "Your start balance is "@ + decimal(balance as nat),
            Message::Push => "Push!"@,
            Message::YouLose => "You lose!"@,
            Message::Balance(balance) => "Your balance is "@ + decimal(balance as nat),
            Message::AskContinue => "Do you want continue? (y/n): "@,
            Message::Guidance => "Please enter 'y' or 'n'"@,
            Message::Bye(balance) => "Bye! Your final balance is "@ + decimal(balance as nat),
        }
    }

    /// Whether a line break follows the message: it does, but after the
    /// question.
    pub open spec fn closes_line(self) -> bool {
        !(self is AskContinue)
    }

    /// The message as it appears on the screen.
    pub open spec fn shown(self) -> Seq<char> {
        if self.closes_line() {
            self.text_of().push('\n')
        } else {
            self.text_of()
        }
    }

    /// Puts the message into words.
    pub fn text(&self) -> (words: String)
        ensures
            words@ == self.text_of(),
    {
        match self {
            Message::EnterBalance => String::from_str("Enter your balance: "),
            Message::StartBalance(balance) => {
                let mut words: String = String::from_str("Your start balance is ");
                words.append(to_decimal(*balance).as_str());
                words
            },
            Message::Push => String::from_str("Push!"),
            Message::YouLose => String::from_str("You lose!"),
            Message::Balance(balance) => {
                let mut words: String = String::from_str("Your balance is ");
                words.append(to_decimal(*balance).as_str());
                words
            },
            Message::AskContinue => String::from_str("Do you want continue? (y/n): "),
            Message::Guidance => String::from_str("Please enter 'y' or 'n'"),
            Message::Bye(balance) => {
                let mut words: String = String::from_str("Bye! Your final balance is ");
                words.append(to_decimal(*balance).as_str());
                words
            },
        }
    }

    /// Tells whether a line break follows the message.
    pub fn ends_line(&self) -> (yes: bool)
        ensures
            yes == self.closes_line(),
    {
        match self {
            Message::AskContinue => false,
            _ => true,
        }
    }
}

/// Writes out a row of messages as they appear on the screen.
pub fn render(messages: &Vec<Message>) -> (screen: String)
    ensures
        screen@ == rendered(messages@),
{
    let mut screen: String = String::new();
    let mut i: usize = 0;
    while i < messages.len()
        invariant
            i <= messages.len(),
            screen@ == rendered(messages@.take(i as int)),
        decreases messages.len() - i,
    {
        let message: &Message = &messages[i];
        proof {
            let seen = messages@.take(i + 1);
            assert(seen.drop_last() == messages@.take(i as int));
            assert(seen.last() == *message);
            reveal_strlit("\n");
            assert("\n"@ =~= seq!['\n']);
        }
        screen.append(message.text().as_str());
        if message.ends_line() {
            screen.append("\n");
        }
        i += 1;
    }
    assert(messages@.take(messages.len() as int) == messages@);
    screen
}

} // verus!
