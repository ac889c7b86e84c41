//! Counting points and wording the scoreboard.
//!
//! A point is counted when the ball reaches a wall. The scoreboard is a
//! title followed by one line for each player; a line is the player's name
//! and the count in decimal.

use vstd::prelude::*;
use vstd::string::StringExecFns;
use crate::court::home;
use crate::item::{GameItem, Player};

verus! {

/// The counts of both players.
#[derive(Clone, Copy, Debug, PartialEq, Eq, Structural)]
pub struct PlayerScores {
    pub player1: usize,
    pub player2: usize,
}

/// A line of the scoreboard that has to be rewritten: `span` is its place
/// on the board, `text` what it shall read.
#[derive(Debug)]
pub struct ScoreLine {
    pub span: usize,
    pub text: String,
}

/// The player whose count goes up when the ball reaches `item`: player two
/// at the left wall, player one at the right wall, nobody anywhere else.
pub open spec fn credited(item: GameItem) -> Option<Player> {
    match item {
        GameItem::LeftWall => Some(Player::Two),
        GameItem::RightWall => Some(Player::One),
        _ => None,
    }
}

/// What a contact means for the score. `first` and `second` tell, for the
/// first and the second body of the contact, which wall it is, or `None`
/// if it is no wall. Where both are walls, the second decides.
pub open spec fn goal_of(first: Option<GameItem>, second: Option<GameItem>) -> Option<Player> {
    if second is Some && credited(second->0) is Some {
        credited(second->0)
    } else if first is Some {
        credited(first->0)
    } else {
        None
    }
}

/// The place of a player's line on the scoreboard. Place 0 is the title.
pub open spec fn span_of(player: Player) -> usize {
    match player {
        Player::One => 1,
        Player::Two => 2,
    }
}

/// The character for a single decimal digit.
pub open spec fn digit(d: nat) -> char {
    if d == 0 {
        '0'
    } else if d == 1 {
        '1'
    } else if d == 2 {
        '2'
    } else if d == 3 {
        '3'
    } else if d == 4 {
        '4'
    } else if d == 5 {
        '5'
    } else if d == 6 {
        '6'
    } else if d == 7 {
        '7'
    } else if d == 8 {
        '8'
    } else {
        '9'
    }
}

/// `n` written in decimal, without leading zeros.
pub open spec fn decimal_digits(n: nat) -> Seq<char>
    decreases n,
{
    if n < 10 {
        seq![digit(n)]
    } else {
        decimal_digits(n / 10).push(digit(n % 10))
    }
}

/// The words that open a player's line.
pub open spec fn name_of(player: Player) -> Seq<char> {
    match player {
        Player::One => "Player1: "@,
        Player::Two => "Player2: "@,
    }
}

/// A player's line on the scoreboard when the player's count is `count`.
pub open spec fn label_text(player: Player, count: nat) -> Seq<char> {
    name_of(player) + decimal_digits(count)
}

/// The title of the scoreboard.
pub open spec fn title_text() -> Seq<char> {
    "Score: "@
}

impl PlayerScores {
    /// The count of `player`.
    pub open spec fn count(self, player: Player) -> nat {
        match player {
            Player::One => self.player1 as nat,
            Player::Two => self.player2 as nat,
        }
    }

    /// These counts with one point more for `player`.
    pub open spec fn credit(self, player: Player) -> PlayerScores {
        match player {
            Player::One => PlayerScores { player1: (self.player1 + 1) as usize, ..self },
            Player::Two => PlayerScores { player2: (self.player2 + 1) as usize, ..self },
        }
    }

    /// The counts at the start of a game: nothing for either player.
    pub fn new() -> (scores: PlayerScores)
        ensures
            scores == (PlayerScores { player1: 0, player2: 0 }),
    {
        PlayerScores { player1: 0, player2: 0 }
    }

    /// The count of `player`.
    pub fn of(&self, player: Player) -> (n: usize)
        ensures
            n == self.count(player),
    {
        match player {
            Player::One => self.player1,
            Player::Two => self.player2,
        }
    }

    /// Counts one point for `player`.
    pub fn award(&mut self, player: Player)
        requires
            old(self).count(player) < usize::MAX,
        ensures
            *final(self) == old(self).credit(player),
            final(self).count(player) == old(self).count(player) + 1,
    {
        match player {
            Player::One => {
                self.player1 = self.player1 + 1;
            },
            Player::Two => {
                self.player2 = self.player2 + 1;
            },
        }
    }

    /// The scoreboard line of `player` as the counts stand.
    pub fn line(&self, player: Player) -> (line: ScoreLine)
        ensures
            line.span == span_of(player),
            line.text@ == label_text(player, self.count(player)),
    {
        ScoreLine { span: span(player), text: label(player, self.of(player)) }
    }

    /// The whole scoreboard as the counts stand: the title at place 0, then
    /// each player's line at the player's place.
    pub fn board(&self) -> (lines: Vec<String>)
        ensures
            lines@.len() == 3,
            lines@[0]@ == title_text(),
            lines@[span_of(Player::One) as int]@ == label_text(Player::One, self.count(Player::One)),
            lines@[span_of(Player::Two) as int]@ == label_text(Player::Two, self.count(Player::Two)),
    {
        let mut lines: Vec<String> = Vec::new();
        lines.push(title());
        lines.push(label(Player::One, self.player1));
        lines.push(label(Player::Two, self.player2));
        lines
    }

    /// Takes note of one contact. `first` and `second` tell which wall the
    /// first and the second body of the contact is, `None` for a body that
    /// is no wall. If the contact is a goal, the player's count goes up by
    /// one and the line to rewrite on the scoreboard is returned; the ball
    /// is then out of play and the contacts that follow in the same frame
    /// are not to be looked at. Otherwise nothing changes.
    pub fn record(&mut self, first: Option<GameItem>, second: Option<GameItem>) -> (line: Option<
        ScoreLine,
    >)
        requires
            goal_of(first, second) matches Some(player) ==> old(self).count(player) < usize::MAX,
        ensures
            match goal_of(first, second) {
                Some(player) => {
                    &&& *final(self) == old(self).credit(player)
                    &&& line matches Some(l) && l.span == span_of(player) && l.text@ == label_text(
                        player,
                        old(self).count(player) + 1,
                    )
                },
                None => *final(self) == *old(self) && line is None,
            },
    {
        match goal(first, second) {
            Some(player) => {
                self.award(player);
                Some(self.line(player))
            },
            None => None,
        }
    }
}

/// The player whose count goes up when the ball reaches `item`.
pub fn scorer(item: GameItem) -> (player: Option<Player>)
    ensures
        player == credited(item),
{
    match item {
        GameItem::LeftWall => Some(Player::Two),
        GameItem::RightWall => Some(Player::One),
        _ => None,
    }
}

/// What a contact means for the score: the player who gets a point, if any.
/// `first` and `second` tell which wall the first and the second body of
/// the contact is, `None` for a body that is no wall.
pub fn goal(first: Option<GameItem>, second: Option<GameItem>) -> (player: Option<Player>)
    ensures
        player == goal_of(first, second),
{
    let by_second = match second {
        Some(item) => scorer(item),
        None => None,
    };
    match by_second {
        Some(player) => Some(player),
        None => match first {
            Some(item) => scorer(item),
            None => None,
        },
    }
}

/// The place of a player's line on the scoreboard.
pub fn span(player: Player) -> (place: usize)
    ensures
        place == span_of(player),
{
    match player {
        Player::One => 1,
        Player::Two => 2,
    }
}

/// The text for one decimal digit.
fn digit_text(d: usize) -> (text: &'static str)
    requires
        d < 10,
    ensures
        text@ == seq![digit(d as nat)],
{
    proof {
        reveal_strlit("0");
        reveal_strlit("1");
        reveal_strlit("2");
        reveal_strlit("3");
        reveal_strlit("4");
        reveal_strlit("5");
        reveal_strlit("6");
        reveal_strlit("7");
        reveal_strlit("8");
        reveal_strlit("9");
    }
    let text = if d == 0 {
        "0"
    } else if d == 1 {
        "1"
    } else if d == 2 {
        "2"
    } else if d == 3 {
        "3"
    } else if d == 4 {
        "4"
    } else if d == 5 {
        "5"
    } else if d == 6 {
        "6"
    } else if d == 7 {
        "7"
    } else if d == 8 {
        "8"
    } else {
        "9"
    };
    assert(text@ =~= seq![digit(d as nat)]);
    text
}

/// Writes `n` in decimal, without leading zeros.
pub fn decimal(n: usize) -> (text: String)
    ensures
        text@ == decimal_digits(n as nat),
    decreases n,
{
    if n < 10 {
        String::from_str(digit_text(n))
    } else {
        let mut text = decimal(n / 10);
        text.append(digit_text(n % 10));
        assert(text@ =~= decimal_digits((n / 10) as nat).push(digit((n % 10) as nat)));
        text
    }
}

/// Words a player's line of the scoreboard: the name, then the count.
pub fn label(player: Player, count: usize) -> (text: String)
    ensures
        text@ == label_text(player, count as nat),
{
    let mut text = match player {
        Player::One => String::from_str("Player1: "),
        Player::Two => String::from_str("Player2: "),
    };
    let digits = decimal(count);
    text.append(digits.as_str());
    text
}

/// The title of the scoreboard.
pub fn title() -> (text: String)
    ensures
        text@ == title_text(),
{
    String::from_str("Score: ")
}

/// A number in decimal has at least one digit, and two or more from ten on.
pub proof fn lemma_decimal_len(n: nat)
    ensures
        decimal_digits(n).len() >= 1,
        n >= 10 ==> decimal_digits(n).len() >= 2,
    decreases n,
{
    if n >= 10 {
        lemma_decimal_len(n / 10);
    }
}

/// Different numbers are written differently.
pub proof fn lemma_decimal_is_faithful(a: nat, b: nat)
    requires
        decimal_digits(a) == decimal_digits(b),
    ensures
        a == b,
    decreases a,
{
    lemma_decimal_len(a);
    lemma_decimal_len(b);
    if a < 10 && b < 10 {
        assert(decimal_digits(a)[0] == digit(a) && decimal_digits(b)[0] == digit(b));
    } else if a >= 10 && b >= 10 {
        let whole = decimal_digits(a);
        assert(whole.last() == digit(a % 10) && whole.last() == digit(b % 10));
        assert(whole.drop_last() =~= decimal_digits(a / 10));
        assert(whole.drop_last() =~= decimal_digits(b / 10));
        lemma_decimal_is_faithful(a / 10, b / 10);
    } else {
        assert(decimal_digits(a).len() == 1 || decimal_digits(b).len() == 1);
    }
}

/// The scoreboard can be read back: two lines with the same text belong to
/// the same player and show the same count.
pub proof fn lemma_label_tells_score(p: Player, a: nat, q: Player, b: nat)
    requires
        label_text(p, a) == label_text(q, b),
    ensures
        p == q,
        a == b,
{
    reveal_strlit("Player1: ");
    reveal_strlit("Player2: ");
    let left = label_text(p, a);
    let right = label_text(q, b);
    assert(name_of(p).len() == 9 && name_of(q).len() == 9);
    assert(left[6] == name_of(p)[6]);
    assert(right[6] == name_of(q)[6]);
    assert(p == q);
    assert(left.subrange(9, left.len() as int) =~= decimal_digits(a));
    assert(right.subrange(9, right.len() as int) =~= decimal_digits(b));
    lemma_decimal_is_faithful(a, b);
}

/// A goal is counted for one player only: the other count stays, and
/// counting never takes a point away.
pub proof fn lemma_credit_counts_once(scores: PlayerScores, player: Player, other: Player)
    requires
        scores.count(player) < usize::MAX,
    ensures
        scores.credit(player).count(player) == scores.count(player) + 1,
        other != player ==> scores.credit(player).count(other) == scores.count(other),
        scores.credit(player).count(other) >= scores.count(other),
{
}

/// A ball that gets past a paddle is counted for the player who moves that
/// paddle: the wall that counts for a player stands on that player's side.
pub proof fn lemma_wall_counts_for_its_side(wall: GameItem, paddle: GameItem)
    requires
        wall.wall(),
        paddle.paddle(),
        (home(wall).x > 0) == (home(paddle).x > 0),
    ensures
        credited(wall) == paddle.owner(),
{
}

/// Only a wall makes a goal, and a contact with no wall in it changes
/// nothing. Where both bodies are walls, the second decides.
pub proof fn lemma_goal_needs_a_wall(first: Option<GameItem>, second: Option<GameItem>)
    ensures
        goal_of(first, second) is Some <==> (first is Some && first->0.wall()) || (second is Some
            && second->0.wall()),
        second is Some && second->0.wall() ==> goal_of(first, second) == credited(second->0),
{
}

} // verus!
