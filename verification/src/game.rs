//! The game state machine: a secret number drawn from a closed range, a
//! bounded number of attempts, and feedback for each submitted guess.

use vstd::prelude::*;
use crate::numeral::int_text;
use crate::numeral::parsed_int;
use crate::numeral::format_int;
use crate::numeral::parse_int;
use crate::rng::draw_uniform;

verus! {

/// The result tag of one guess submission.
#[derive(Clone, Copy, PartialEq, Eq, Structural, Debug)]
pub enum Feedback {
    /// The submitted text was empty: nothing was evaluated.
    Pending,
    /// The guess is below the secret.
    TooLow,
    /// The guess is above the secret.
    TooHigh,
    /// The guess equals the secret; the round is won.
    Correct,
    /// The submitted text is not a valid integer numeral.
    InvalidInput,
    /// The round had already ended; the guess was not evaluated.
    RoundOver,
}

/// A rejected operation on the game state.
#[derive(Clone, Copy, PartialEq, Eq, Structural, Debug)]
pub enum GameError {
    /// A range whose lower bound exceeds its upper bound.
    InvalidRange,
}

/// The mathematical state of one game.
pub struct GameView {
    pub secret: int,
    pub attempts: int,
    pub range_min: int,
    pub range_max: int,
    pub won: bool,
}

impl GameView {
    /// Well-formedness: an ordered range and a nonnegative attempt counter.
    pub open spec fn inv(self) -> bool {
        self.range_min <= self.range_max && self.attempts >= 0
    }

    /// The round is over exactly when it was won or no attempts remain.
    pub open spec fn is_over(self) -> bool {
        self.won || self.attempts == 0
    }
}

/// The feedback that submitting `text` yields in state `s`: empty text is a
/// no-op, unparsable text is rejected, a finished round accepts no guess,
/// and otherwise the parsed guess is compared with the secret.
pub open spec fn guess_outcome(s: GameView, text: Seq<char>) -> Feedback {
    if text.len() == 0 {
        Feedback::Pending
    } else {
        match parsed_int(text) {
            None => Feedback::InvalidInput,
            Some(g) => {
                if s.is_over() {
                    Feedback::RoundOver
                } else if g == s.secret {
                    Feedback::Correct
                } else if g < s.secret {
                    Feedback::TooLow
                } else {
                    Feedback::TooHigh
                }
            },
        }
    }
}

/// The state after submitting `text` in state `s`: a correct guess sets the
/// win flag, a miss costs one attempt, and everything else changes nothing.
pub open spec fn guess_step(s: GameView, text: Seq<char>) -> GameView {
    match guess_outcome(s, text) {
        Feedback::Correct => GameView { won: true, ..s },
        Feedback::TooLow => GameView { attempts: s.attempts - 1, ..s },
        Feedback::TooHigh => GameView { attempts: s.attempts - 1, ..s },
        _ => s,
    }
}

/// The sentinel label shown for each feedback tag: `"? X"` while no guess
/// has been evaluated, and a comparison sign once one has.
pub open spec fn label_text(fb: Feedback) -> Seq<char> {
    match fb {
        Feedback::Correct => "= X"@,
        Feedback::TooLow => "< X"@,
        Feedback::TooHigh => "> X"@,
        _ => "? X"@,
    }
}

/// The display text of a closed range, `"(min, max)"`.
pub open spec fn range_text(min: int, max: int) -> Seq<char> {
    seq!['('] + int_text(min) + seq![',', ' '] + int_text(max) + seq![')']
}

impl Feedback {
    /// The display label of this feedback tag.
    pub fn label(&self) -> (r: String)
        ensures
            r@ == label_text(*self),
    {
        match self {
            Feedback::Correct => String::from_str("= X"),
            Feedback::TooLow => String::from_str("< X"),
            Feedback::TooHigh => String::from_str("> X"),
            _ => String::from_str("? X"),
        }
    }
}

/// One game: the secret, the remaining attempts, the range the secret was
/// drawn from, and the win flag. All fields change only through the methods
/// below.
pub struct GameData {
    secret_num: i32,
    no_guess: i32,
    range_min: i32,
    range_max: i32,
    win: bool,
}

impl View for GameData {
    type V = GameView;

    closed spec fn view(&self) -> GameView {
        GameView {
            secret: self.secret_num as int,
            attempts: self.no_guess as int,
            range_min: self.range_min as int,
            range_max: self.range_max as int,
            won: self.win,
        }
    }
}

impl GameData {
    /// Well-formedness of the game state.
    pub open spec fn wf(&self) -> bool {
        self@.inv()
    }

    /// Starts a game with `guess_num` attempts over the closed range
    /// `[range[0], range[1]]`, with a caller-supplied draw for the secret.
    /// This is the deterministic entry used where the draw is not random.
    pub fn new_with_secret(guess_num: i32, range: [i32; 2], secret: i32) -> (g: GameData)
        requires
            0 <= guess_num,
            range[0] <= secret <= range[1],
        ensures
            g.wf(),
            g@ == (GameView {
                secret: secret as int,
                attempts: guess_num as int,
                range_min: range[0] as int,
                range_max: range[1] as int,
                won: false,
            }),
    {
        GameData {
            secret_num: secret,
            no_guess: guess_num,
            range_min: range[0],
            range_max: range[1],
            win: false,
        }
    }

    /// Starts a game with `guess_num` attempts, drawing the secret from the
    /// closed range `[range[0], range[1]]`.
    pub fn new(guess_num: i32, range: [i32; 2]) -> (g: GameData)
        requires
            0 <= guess_num,
            range[0] <= range[1],
        ensures
            g.wf(),
            g@.attempts == guess_num as int,
            g@.range_min == range[0] as int,
            g@.range_max == range[1] as int,
            !g@.won,
            g@.range_min <= g@.secret <= g@.range_max,
    {
        let secret = draw_uniform(range[0], range[1]);
        GameData::new_with_secret(guess_num, range, secret)
    }

    /// The number of attempts that remain.
    pub fn get_no_guess(&self) -> (n: i32)
        ensures
            n as int == self@.attempts,
    {
        self.no_guess
    }

    /// Whether the round was won.
    pub fn game_won(&self) -> (w: bool)
        ensures
            w == self@.won,
    {
        self.win
    }

    /// Whether the round was lost: all attempts spent without a win.
    pub fn game_lost(&self) -> (l: bool)
        ensures
            l == (self@.attempts == 0 && !self@.won),
    {
        self.no_guess == 0 && !self.win
    }

    /// Whether the round is over, by win or by exhausted attempts.
    pub fn end(&self) -> (e: bool)
        ensures
            e == self@.is_over(),
    {
        self.win || self.no_guess == 0
    }

    /// Submits one guess and reports how it relates to the secret.
    pub fn submit_guess(&mut self, text: &str) -> (fb: Feedback)
        requires
            old(self).wf(),
        ensures
            final(self).wf(),
            final(self)@ == guess_step(old(self)@, text@),
            fb == guess_outcome(old(self)@, text@),
    {
        if text.unicode_len() == 0 {
            return Feedback::Pending;
        }
        match parse_int(text) {
            None => Feedback::InvalidInput,
            Some(g) => {
                if self.win || self.no_guess == 0 {
                    Feedback::RoundOver
                } else if g == self.secret_num {
                    self.win = true;
                    Feedback::Correct
                } else if g < self.secret_num {
                    self.no_guess = self.no_guess - 1;
                    Feedback::TooLow
                } else {
                    self.no_guess = self.no_guess - 1;
                    Feedback::TooHigh
                }
            },
        }
    }

    /// Submits one guess and returns the sentinel label of its feedback.
    pub fn new_guess(&mut self, guess: &str) -> (r: String)
        requires
            old(self).wf(),
        ensures
            final(self).wf(),
            final(self)@ == guess_step(old(self)@, guess@),
            r@ == label_text(guess_outcome(old(self)@, guess@)),
    {
        let fb = self.submit_guess(guess);
        fb.label()
    }

    /// Sets the range the next round will draw its secret from. An inverted
    /// pair of bounds is rejected and changes nothing.
    pub fn set_range(&mut self, min: i32, max: i32) -> (r: Result<(), GameError>)
        requires
            old(self).wf(),
        ensures
            final(self).wf(),
            min <= max ==> r is Ok && final(self)@ == (GameView {
                range_min: min as int,
                range_max: max as int,
                ..old(self)@
            }),
            min > max ==> r == Err::<(), GameError>(GameError::InvalidRange) && final(self)@
                == old(self)@,
    {
        if min <= max {
            self.range_min = min;
            self.range_max = max;
            Ok(())
        } else {
            Err(GameError::InvalidRange)
        }
    }

    /// Begins a new round with `guess_num` attempts and a caller-supplied
    /// draw for the secret; the range is kept as it stands.
    pub fn restart_with_secret(&mut self, guess_num: i32, secret: i32)
        requires
            old(self).wf(),
            0 <= guess_num,
            old(self)@.range_min <= secret as int <= old(self)@.range_max,
        ensures
            final(self).wf(),
            final(self)@ == (GameView {
                secret: secret as int,
                attempts: guess_num as int,
                won: false,
                ..old(self)@
            }),
    {
        self.secret_num = secret;
        self.no_guess = guess_num;
        self.win = false;
    }

    /// Begins a new round with `guess_num` attempts, drawing a fresh secret
    /// from the range as it currently stands.
    pub fn restart(&mut self, guess_num: i32)
        requires
            old(self).wf(),
            0 <= guess_num,
        ensures
            final(self).wf(),
            final(self)@.attempts == guess_num as int,
            !final(self)@.won,
            final(self)@.range_min == old(self)@.range_min,
            final(self)@.range_max == old(self)@.range_max,
            final(self)@.range_min <= final(self)@.secret <= final(self)@.range_max,
    {
        let secret = draw_uniform(self.range_min, self.range_max);
        self.restart_with_secret(guess_num, secret);
    }

    /// The display text of the current range.
    pub fn show_range(&self) -> (r: String)
        ensures
            r@ == range_text(self@.range_min, self@.range_max),
    {
        let mut r = String::from_str("(");
        let low = format_int(self.range_min);
        r.append(low.as_str());
        r.append(", ");
        let high = format_int(self.range_max);
        r.append(high.as_str());
        r.append(")");
        proof {
            reveal_strlit("(");
            reveal_strlit(", ");
            reveal_strlit(")");
            assert("("@ =~= seq!['(']);
            assert(", "@ =~= seq![',', ' ']);
            assert(")"@ =~= seq![')']);
            assert(r@ =~= range_text(self@.range_min, self@.range_max));
        }
        r
    }
}

/// Law: an empty submission yields `Pending` and leaves the state unchanged,
/// however often it is repeated.
pub proof fn lemma_pending_identity(s: GameView, text: Seq<char>)
    requires
        text.len() == 0,
    ensures
        guess_outcome(s, text) == Feedback::Pending,
        guess_step(s, text) == s,
        guess_step(guess_step(s, text), text) == s,
{
}

/// Law: while the round is active, a non-empty valid numeral is answered by
/// exactly one of `TooLow`, `TooHigh` and `Correct`, fixed by how the guess
/// compares with the secret; a miss costs exactly one attempt and a correct
/// guess costs none.
pub proof fn lemma_active_guess_classified(s: GameView, text: Seq<char>, g: int)
    requires
        s.inv(),
        !s.is_over(),
        text.len() > 0,
        parsed_int(text) == Some(g),
    ensures
        guess_outcome(s, text) == Feedback::Correct <==> g == s.secret,
        guess_outcome(s, text) == Feedback::TooLow <==> g < s.secret,
        guess_outcome(s, text) == Feedback::TooHigh <==> g > s.secret,
        guess_outcome(s, text) == Feedback::Correct ==> guess_step(s, text) == (GameView {
            won: true,
            ..s
        }),
        guess_outcome(s, text) != Feedback::Correct ==> guess_step(s, text) == (GameView {
            attempts: s.attempts - 1,
            ..s
        }),
{
}

/// Law: a guess submission keeps the state well formed; in particular the
/// attempt counter never becomes negative.
pub proof fn lemma_guess_step_preserves_inv(s: GameView, text: Seq<char>)
    requires
        s.inv(),
    ensures
        guess_step(s, text).inv(),
{
}

/// Law: once a round is over it stays over under guess submissions; only a
/// restart begins a new round.
pub proof fn lemma_over_is_monotone(s: GameView, text: Seq<char>)
    requires
        s.is_over(),
    ensures
        guess_step(s, text).is_over(),
{
}

} // verus!
