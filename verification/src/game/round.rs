//! The rounds of a game: a pull of the trigger, then the question whether to
//! go on, until the balance is lost or the player stops.

use vstd::prelude::*;
use crate::game::chance::random_below;
use crate::game::drum::{
    advance, drawn, lemma_turns_count_round_the_ring, next_position, on_ring, position_after, FROM,
    TO,
};
use crate::game::message::Message;
use crate::game::prompt::{answer_of, read_answer};
use crate::scan::texts;

verus! {

/// Where a game stands.
#[derive(Clone, Copy, Debug, PartialEq, Eq, Structural)]
pub enum Status {
    /// The game goes on.
    Playing,
    /// A pull met the target: the balance is gone and the game is over.
    Lost,
    /// The player stopped: the balance is kept and the game is over.
    Stopped,
}

/// A game as the contracts see it.
pub struct GameView {
    /// What the player holds.
    pub balance: nat,
    /// The position that the next pull fires.
    pub current: int,
    /// The position that holds the bullet.
    pub target: int,
    /// Where the game stands.
    pub status: Status,
    /// Whether the next line answers the question to go on, rather than
    /// pulling the trigger.
    pub asking: bool,
}

/// A game in progress or over.
pub struct Game {
    balance: u64,
    current: u32,
    target: u32,
    status: Status,
    asking: bool,
}

/// The number of pulls that can still be survived before a pull meets the
/// target.
pub open spec fn pulls_ahead(current: int, target: int) -> int {
    (target - current) % (TO as int)
}

/// A balance doubled a number of times.
pub open spec fn doubled(balance: nat, times: int) -> nat
    decreases times,
{
    if times <= 0 {
        balance
    } else {
        doubled(balance * 2, times - 1)
    }
}

/// A game that can be played to its end: the drum shows a position of the
/// ring, the target is one that can be drawn, a game that is over asks
/// nothing, and the balance can take every doubling still ahead of it.
pub open spec fn playable(game: GameView) -> bool {
    &&& on_ring(game.current)
    &&& drawn(game.target)
    &&& game.status != Status::Playing ==> !game.asking
    &&& doubled(game.balance, pulls_ahead(game.current, game.target)) <= u64::MAX
}

/// A game at its start.
pub open spec fn fresh(balance: nat, current: int, target: int) -> GameView {
    GameView { balance, current, target, status: Status::Playing, asking: false }
}

/// The game after a pull of the trigger. Where the drum shows the target the
/// balance is lost; otherwise it doubles, the drum turns, and the question to
/// go on is open.
pub open spec fn after_pull(game: GameView) -> GameView {
    if game.current == game.target {
        GameView { balance: 0, status: Status::Lost, ..game }
    } else {
        GameView {
            balance: game.balance * 2,
            current: next_position(game.current),
            asking: true,
            ..game
        }
    }
}

/// The game after a line that is read as an answer to the question to go on:
/// yes leads to the next pull, no ends the game, and anything else leaves the
/// question open.
pub open spec fn after_reply(game: GameView, line: Seq<char>) -> GameView {
    match answer_of(line) {
        Some(true) => GameView { asking: false, ..game },
        Some(false) => GameView { status: Status::Stopped, asking: false, ..game },
        None => game,
    }
}

/// The game after one line of input. While the question is open the line
/// answers it; otherwise it pulls the trigger, whatever it holds. A game that
/// is over stays as it is.
pub open spec fn after_line(game: GameView, line: Seq<char>) -> GameView {
    if game.status != Status::Playing {
        game
    } else if game.asking {
        after_reply(game, line)
    } else {
        after_pull(game)
    }
}

/// What the game says in return for one line of input.
pub open spec fn said_on_line(game: GameView, line: Seq<char>) -> Seq<Message> {
    if game.status != Status::Playing {
        Seq::<Message>::empty()
    } else if game.asking {
        match answer_of(line) {
            Some(true) => seq![Message::Push],
            Some(false) => seq![Message::Bye(game.balance as u64)],
            None => seq![Message::Guidance, Message::AskContinue],
        }
    } else if game.current == game.target {
        seq![Message::YouLose, Message::Bye(0)]
    } else {
        seq![Message::Balance((game.balance * 2) as u64), Message::AskContinue]
    }
}

/// The game after a row of lines, taken one after the other.
pub open spec fn after_lines(game: GameView, lines: Seq<Seq<char>>) -> GameView
    decreases lines.len(),
{
    if lines.len() == 0 {
        game
    } else {
        after_line(after_lines(game, lines.drop_last()), lines.last())
    }
}

/// All that the game says in return for a row of lines.
pub open spec fn said_on_lines(game: GameView, lines: Seq<Seq<char>>) -> Seq<Message>
    decreases lines.len(),
{
    if lines.len() == 0 {
        Seq::<Message>::empty()
    } else {
        said_on_lines(game, lines.drop_last()) + said_on_line(
            after_lines(game, lines.drop_last()),
            lines.last(),
        )
    }
}

/// Doubling never takes anything away.
pub proof fn lemma_doubled_grows(balance: nat, times: int)
    ensures
        balance <= doubled(balance, times),
    decreases times,
{
    if times > 0 {
        lemma_doubled_grows(balance * 2, times - 1);
    }
}

/// A pull that is survived brings the target one pull nearer.
pub proof fn lemma_pull_nears_target(current: int, target: int)
    requires
        on_ring(current),
        drawn(target),
        current != target,
    ensures
        pulls_ahead(current, target) >= 1,
        pulls_ahead(next_position(current), target) == pulls_ahead(current, target) - 1,
{
}

/// A line of input takes a playable game to a playable game: the positions
/// stay on the ring, the target stays where it is, and the balance stays
/// within reach of a machine word.
pub proof fn lemma_line_keeps_playable(game: GameView, line: Seq<char>)
    requires
        playable(game),
    ensures
        playable(after_line(game, line)),
        after_line(game, line).target == game.target,
{
    if game.status == Status::Playing && !game.asking {
        if game.current == game.target {
            assert(pulls_ahead(game.current, game.target) == 0);
        } else {
            lemma_pull_nears_target(game.current, game.target);
        }
    }
}

/// A game that is over takes no notice of further lines.
pub proof fn lemma_over_is_final(game: GameView, lines: Seq<Seq<char>>)
    requires
        game.status != Status::Playing,
    ensures
        after_lines(game, lines) == game,
        said_on_lines(game, lines) == Seq::<Message>::empty(),
    decreases lines.len(),
{
    if lines.len() > 0 {
        lemma_over_is_final(game, lines.drop_last());
    }
}

/// While the question to go on is open, lines that do not answer it change
/// nothing.
pub proof fn lemma_unanswered_lines_change_nothing(game: GameView, lines: Seq<Seq<char>>)
    requires
        game.status == Status::Playing,
        game.asking,
        forall|i: int| 0 <= i < lines.len() ==> answer_of(#[trigger] lines[i]) is None,
    ensures
        after_lines(game, lines) == game,
    decreases lines.len(),
{
    if lines.len() > 0 {
        let before = lines.drop_last();
        assert forall|i: int| 0 <= i < before.len() implies answer_of(#[trigger] before[i])
            is None by {
            assert(before[i] == lines[i]);
        }
        lemma_unanswered_lines_change_nothing(game, before);
    }
}

/// The drum meets the target after as many turns as there are pulls ahead,
/// and that is never more than five: no game outlasts six pulls.
pub proof fn lemma_target_is_met(current: int, target: int)
    requires
        on_ring(current),
        drawn(target),
    ensures
        0 <= pulls_ahead(current, target) <= 5,
        position_after(current, pulls_ahead(current, target) as nat) == target,
{
    lemma_turns_count_round_the_ring(current, pulls_ahead(current, target) as nat);
}

/// Lines can be fed in two batches: the game after both is the game after the
/// second batch, fed to the game after the first, and what is said is what
/// was said on the first batch followed by what is said on the second.
pub proof fn lemma_lines_in_batches(game: GameView, first: Seq<Seq<char>>, second: Seq<Seq<char>>)
    ensures
        after_lines(game, first + second) == after_lines(after_lines(game, first), second),
        said_on_lines(game, first + second) == said_on_lines(game, first) + said_on_lines(
            after_lines(game, first),
            second,
        ),
    decreases second.len(),
{
    if second.len() == 0 {
        assert(first + second == first);
    } else {
        lemma_lines_in_batches(game, first, second.drop_last());
        assert((first + second).drop_last() == first + second.drop_last());
        assert((first + second).last() == second.last());
    }
}

impl View for Game {
    type V = GameView;

    closed spec fn view(&self) -> GameView {
        GameView {
            balance: self.balance as nat,
            current: self.current as int,
            target: self.target as int,
            status: self.status,
            asking: self.asking,
        }
    }
}

impl Game {
    /// The game can be played to its end.
    pub open spec fn wf(&self) -> bool {
        playable(self@)
    }

    /// Starts a game with the given balance and positions.
    ///
    /// Both positions have to be among those that can be drawn; with any
    /// other there is no game.
    pub fn new(balance: u32, current: u32, target: u32) -> (game: Option<Game>)
        ensures
            game is Some <==> drawn(current as int) && drawn(target as int),
            game matches Some(started) ==> started.wf() && started@ == fresh(
                balance as nat,
                current as int,
                target as int,
            ),
    {
        if FROM <= current && current < TO && FROM <= target && target < TO {
            Some(Game::start(balance, current, target))
        } else {
            None
        }
    }

    /// Starts a game with the given balance and with both positions drawn at
    /// random, each on its own.
    pub fn deal(balance: u32) -> (game: Game)
        ensures
            game.wf(),
            game@.balance == balance,
            game@.status == Status::Playing,
            !game@.asking,
            drawn(game@.current),
            drawn(game@.target),
    {
        let current: u32 = random_below(FROM, TO);
        let target: u32 = random_below(FROM, TO);
        Game::start(balance, current, target)
    }

    /// Sets up a game on positions that are known to be among those that can
    /// be drawn.
    fn start(balance: u32, current: u32, target: u32) -> (game: Game)
        requires
            drawn(current as int),
            drawn(target as int),
        ensures
            game.wf(),
            game@ == fresh(balance as nat, current as int, target as int),
    {
        proof {
            reveal_with_fuel(doubled, 6);
        }
        Game { balance: balance as u64, current, target, status: Status::Playing, asking: false }
    }

    /// What the player holds.
    pub fn balance(&self) -> (balance: u64)
        ensures
            balance == self@.balance,
    {
        self.balance
    }

    /// The position that the next pull fires.
    pub fn current(&self) -> (current: u32)
        ensures
            current == self@.current,
    {
        self.current
    }

    /// The position that holds the bullet.
    pub fn target(&self) -> (target: u32)
        ensures
            target == self@.target,
    {
        self.target
    }

    /// Where the game stands.
    pub fn status(&self) -> (status: Status)
        ensures
            status == self@.status,
    {
        self.status
    }

    /// Whether the next line answers the question to go on.
    pub fn is_asking(&self) -> (asking: bool)
        ensures
            asking == self@.asking,
    {
        self.asking
    }

    /// Whether the game is over.
    pub fn is_over(&self) -> (over: bool)
        ensures
            over == (self@.status != Status::Playing),
    {
        match self.status {
            Status::Playing => false,
            _ => true,
        }
    }

    /// What the game says before the first line: the balance that the player
    /// starts with, and the call for the first pull.
    pub fn opening(&self) -> (said: Vec<Message>)
        ensures
            said@ == seq![Message::StartBalance(self@.balance as u64), Message::Push],
    {
        let said: Vec<Message> = vec![Message::StartBalance(self.balance), Message::Push];
        assert(said@ =~= seq![Message::StartBalance(self@.balance as u64), Message::Push]);
        said
    }

    /// The farewell, with the balance that the player leaves with.
    pub fn farewell(&self) -> (words: String)
        ensures
            words@ == Message::Bye(self@.balance as u64).text_of(),
    {
        Message::Bye(self.balance).text()
    }

    /// Pulls the trigger.
    fn pull(&mut self) -> (said: Vec<Message>)
        requires
            old(self).wf(),
            old(self)@.status == Status::Playing,
            !old(self)@.asking,
        ensures
            final(self).wf(),
            final(self)@ == after_pull(old(self)@),
            said@ == said_on_line(old(self)@, Seq::<char>::empty()),
    {
        proof {
            lemma_line_keeps_playable(self@, Seq::<char>::empty());
        }
        if self.current == self.target {
            self.balance = 0;
            self.status = Status::Lost;
            let said: Vec<Message> = vec![Message::YouLose, Message::Bye(0)];
            assert(said@ =~= seq![Message::YouLose, Message::Bye(0)]);
            said
        } else {
            proof {
                lemma_pull_nears_target(self@.current, self@.target);
                lemma_doubled_grows(
                    self@.balance * 2,
                    pulls_ahead(self@.current, self@.target) - 1,
                );
            }
            self.balance = self.balance * 2;
            self.current = advance(self.current);
            self.asking = true;
            let said: Vec<Message> = vec![Message::Balance(self.balance), Message::AskContinue];
            assert(said@ =~= seq![Message::Balance(self.balance), Message::AskContinue]);
            said
        }
    }

    /// Takes a line as the answer to the question to go on.
    fn reply(&mut self, line: &str) -> (said: Vec<Message>)
        requires
            old(self).wf(),
            old(self)@.status == Status::Playing,
            old(self)@.asking,
        ensures
            final(self).wf(),
            final(self)@ == after_reply(old(self)@, line@),
            said@ == said_on_line(old(self)@, line@),
    {
        match read_answer(line) {
            Some(true) => {
                self.asking = false;
                let said: Vec<Message> = vec![Message::Push];
                assert(said@ =~= seq![Message::Push]);
                said
            },
            Some(false) => {
                self.status = Status::Stopped;
                self.asking = false;
                let said: Vec<Message> = vec![Message::Bye(self.balance)];
                assert(said@ =~= seq![Message::Bye(self.balance)]);
                said
            },
            None => {
                let said: Vec<Message> = vec![Message::Guidance, Message::AskContinue];
                assert(said@ =~= seq![Message::Guidance, Message::AskContinue]);
                said
            },
        }
    }

    /// Feeds the game one line of input and returns what it says in return.
    ///
    /// While the question to go on is open the line answers it. Otherwise the
    /// line pulls the trigger, whatever it holds. A game that is over says
    /// nothing and stays as it is.
    pub fn feed(&mut self, line: &str) -> (said: Vec<Message>)
        requires
            old(self).wf(),
        ensures
            final(self).wf(),
            final(self)@ == after_line(old(self)@, line@),
            said@ == said_on_line(old(self)@, line@),
    {
        if self.is_over() {
            Vec::new()
        } else if self.asking {
            self.reply(line)
        } else {
            self.pull()
        }
    }

    /// Feeds the game a row of lines, one after the other, and returns all
    /// that it says in return.
    pub fn play(&mut self, lines: &Vec<String>) -> (said: Vec<Message>)
        requires
            old(self).wf(),
        ensures
            final(self).wf(),
            final(self)@ == after_lines(old(self)@, texts(lines@)),
            said@ == said_on_lines(old(self)@, texts(lines@)),
    {
        let ghost start = self@;
        let ghost all = texts(lines@);
        let mut said: Vec<Message> = Vec::new();
        let mut i: usize = 0;
        while i < lines.len() && !self.is_over()
            invariant
                i <= lines.len(),
                all == texts(lines@),
                self.wf(),
                self@ == after_lines(start, all.take(i as int)),
                said@ == said_on_lines(start, all.take(i as int)),
            decreases lines.len() - i,
        {
            let mut heard: Vec<Message> = self.feed(lines[i].as_str());
            proof {
                let seen = all.take(i + 1);
                assert(seen.drop_last() == all.take(i as int));
                assert(seen.last() == lines@[i as int]@);
            }
            said.append(&mut heard);
            i += 1;
        }
        proof {
            let seen = all.take(i as int);
            let rest = all.skip(i as int);
            assert(seen + rest == all);
            lemma_lines_in_batches(start, seen, rest);
            if i < lines.len() {
                lemma_over_is_final(self@, rest);
            } else {
                assert(rest.len() == 0);
            }
            assert(said@ + Seq::<Message>::empty() == said@);
        }
        said
    }
}

} // verus!
