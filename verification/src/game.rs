//! Problems, answers, and the session state machine.

use rand::RngExt;
use vstd::prelude::*;

use crate::text::{
    dec_text, frac_expr_string, frac_pair_string, frac_pair_text, int_pair_string, int_to_string,
};

verus! {

/// A difficulty tier; each maps to a fixed inclusive operand range.
#[derive(Copy, Clone)]
pub enum GameDifficulty {
    Basic,
    Medium,
    Hard,
    Mastery,
}

/// The kind of arithmetic problem being practised.
#[derive(Copy, Clone)]
pub enum GameType {
    Addition,
    Subtraction,
    Multiplication,
    Division,
    FractionAddition,
    FractionSubtraction,
}

/// An answer value: a plain integer, or a fraction kept unreduced.
#[derive(Debug, PartialEq, PartialOrd, Clone, Copy)]
pub enum Answer {
    Integer(i32),
    Fraction { numerator: i32, denominator: i32 },
}

/// Two answers agree when both are integers with the same value, or both are
/// fractions that cross-multiply to equal products; an integer never equals
/// a fraction, and a fraction with a zero denominator equals nothing.
pub open spec fn answer_equiv(expected: Answer, given: Answer) -> bool {
    match (expected, given) {
        (Answer::Integer(a), Answer::Integer(b)) => a == b,
        (
            Answer::Fraction { numerator: n1, denominator: d1 },
            Answer::Fraction { numerator: n2, denominator: d2 },
        ) => d1 != 0 && d2 != 0 && n1 * d2 == n2 * d1,
        _ => false,
    }
}

impl Answer {
    /// Decides whether `user_answer` is accepted for this expected answer.
    /// Fractions are compared by cross-multiplication, so equivalent
    /// unreduced forms are accepted without reducing either side; a
    /// fraction with a zero denominator is simply non-equal.
    pub fn check(&self, user_answer: &Answer) -> (r: bool)
        ensures
            r == answer_equiv(*self, *user_answer),
    {
        match (self, user_answer) {
            (Answer::Integer(a), Answer::Integer(b)) => a == b,
            (
                Answer::Fraction { numerator: n1, denominator: d1 },
                Answer::Fraction { numerator: n2, denominator: d2 },
            ) => {
                if *d1 == 0 || *d2 == 0 {
                    return false;
                }
                proof {
                    assert(-0x4000_0000_0000_0000 <= (*n1 as int) * (*d2 as int)
                        <= 0x4000_0000_0000_0000) by (nonlinear_arith)
                        requires
                            -0x8000_0000 <= *n1 as int <= 0x7fff_ffff,
                            -0x8000_0000 <= *d2 as int <= 0x7fff_ffff,
                    ;
                    assert(-0x4000_0000_0000_0000 <= (*n2 as int) * (*d1 as int)
                        <= 0x4000_0000_0000_0000) by (nonlinear_arith)
                        requires
                            -0x8000_0000 <= *n2 as int <= 0x7fff_ffff,
                            -0x8000_0000 <= *d1 as int <= 0x7fff_ffff,
                    ;
                }
                let left: i64 = (*n1 as i64) * (*d2 as i64);
                let right: i64 = (*n2 as i64) * (*d1 as i64);
                left == right
            },
            _ => false,
        }
    }

    /// Renders the answer as the user would type it: an integer in
    /// decimal, a fraction as `numerator/denominator`.
    pub fn to_string(&self) -> (s: String)
        ensures
            match *self {
                Answer::Integer(n) => s@ == dec_text(n as int),
                Answer::Fraction { numerator, denominator } => s@ == frac_pair_text(
                    numerator as int,
                    denominator as int,
                ),
            },
    {
        match self {
            Answer::Integer(n) => int_to_string(*n),
            Answer::Fraction { numerator, denominator } => frac_pair_string(
                *numerator,
                *denominator,
            ),
        }
    }
}

/// A pair of integers presented as a fraction.
#[derive(Debug, PartialEq)]
pub struct Fraction {
    pub numerator: i32,
    pub denominator: i32,
}

impl Fraction {
    pub fn new(numerator: i32, denominator: i32) -> (f: Self)
        ensures
            f.numerator == numerator,
            f.denominator == denominator,
    {
        Self { numerator, denominator }
    }

    /// Renders the fraction as `numerator/denominator`.
    pub fn to_string(&self) -> (s: String)
        ensures
            s@ == frac_pair_text(self.numerator as int, self.denominator as int),
    {
        frac_pair_string(self.numerator, self.denominator)
    }
}

/// The phase of the current round.
#[derive(PartialEq, Eq, Structural, Copy, Clone, Debug)]
pub enum GameState {
    NotStarted,
    Playing,
    RoundComplete,
}

/// Relies on `rand::rng` and `rand::RngExt::random_range`: a value drawn
/// from the inclusive range, which panics only when the range is empty.
/// Nothing beyond membership in the range is assumed of the draw.
#[verifier::external_body]
fn draw_in_range(min: i32, max: i32) -> (r: i32)
    requires
        min <= max,
    ensures
        min <= r <= max,
{
    rand::rng().random_range(min..=max)
}

/// Relies on `chrono::Utc::now` and `chrono::DateTime::timestamp_millis`:
/// the current time as milliseconds since the Unix epoch. Nothing is
/// assumed of the value.
#[verifier::external_body]
fn now_millis() -> i64 {
    chrono::Utc::now().timestamp_millis()
}

/// Smallest operand the difficulty tier allows.
pub open spec fn range_min(d: GameDifficulty) -> int {
    match d {
        GameDifficulty::Basic => 1,
        GameDifficulty::Medium => 10,
        GameDifficulty::Hard => 100,
        GameDifficulty::Mastery => 1000,
    }
}

/// Largest operand the difficulty tier allows.
pub open spec fn range_max(d: GameDifficulty) -> int {
    match d {
        GameDifficulty::Basic => 9,
        GameDifficulty::Medium => 99,
        GameDifficulty::Hard => 999,
        GameDifficulty::Mastery => 10000,
    }
}

/// `x` lies within the inclusive operand range of tier `d`.
pub open spec fn in_range(d: GameDifficulty, x: int) -> bool {
    range_min(d) <= x <= range_max(d)
}

/// An operand any tier could have drawn; products and sums of such
/// operands stay well within `i32`.
pub open spec fn valid_operand(x: int) -> bool {
    1 <= x <= 10000
}

/// What a problem built from operation `op` and drawn operands looks like.
/// `a` and `b` are the first drawn pair; `c` and `d` are the second pair,
/// used only by the fraction operations.
pub open spec fn problem_matches(p: Problem, op: GameType, a: i32, b: i32, c: i32, d: i32) -> bool {
    &&& p.solved_at is None
    &&& match op {
        GameType::Addition => {
            &&& p.operand1 == a
            &&& p.operand2 == b
            &&& p.answer matches Answer::Integer(v) && v == a + b
            &&& p.problem@ == dec_text(a as int) + seq![' ', '+', ' '] + dec_text(b as int)
        },
        GameType::Subtraction => {
            &&& p.operand1 == a
            &&& p.operand2 == b
            &&& p.answer matches Answer::Integer(v) && v == a - b
            &&& p.problem@ == dec_text(a as int) + seq![' ', '-', ' '] + dec_text(b as int)
        },
        GameType::Multiplication => {
            &&& p.operand1 == a
            &&& p.operand2 == b
            &&& p.answer matches Answer::Integer(v) && v == a * b
            &&& p.problem@ == dec_text(a as int) + seq![' ', '*', ' '] + dec_text(b as int)
        },
        GameType::Division => {
            &&& p.operand1 == a * b
            &&& p.operand2 == b
            &&& p.answer == Answer::Integer(a)
            &&& p.problem@ == dec_text(a as int * b as int) + seq![' ', '/', ' '] + dec_text(
                b as int,
            )
        },
        GameType::FractionAddition => {
            &&& p.operand1 == a
            &&& p.operand2 == b
            &&& p.answer matches Answer::Fraction { numerator: n, denominator: den } && n == a * d
                + b * c && den == b * d
            &&& p.problem@ == frac_pair_text(a as int, b as int) + seq![' ', '+', ' ']
                + frac_pair_text(c as int, d as int)
        },
        GameType::FractionSubtraction => {
            &&& p.operand1 == a
            &&& p.operand2 == b
            &&& p.answer matches Answer::Fraction { numerator: n, denominator: den } && n == a * d
                - b * c && den == b * d
            &&& p.problem@ == frac_pair_text(a as int, b as int) + seq![' ', '-', ' ']
                + frac_pair_text(c as int, d as int)
        },
    }
}

/// One generated arithmetic problem: its display text, the expected answer,
/// the operands it was built from, and timestamps in milliseconds since the
/// Unix epoch.
#[derive(Debug, PartialEq, Clone)]
pub struct Problem {
    pub problem: String,
    pub answer: Answer,
    pub operand1: i32,
    pub operand2: i32,
    pub created_at: i64,
    pub solved_at: Option<i64>,
}

impl Problem {
    pub fn new(problem: String, answer: Answer, operand1: i32, operand2: i32) -> (p: Self)
        ensures
            p.problem == problem,
            p.answer == answer,
            p.operand1 == operand1,
            p.operand2 == operand2,
            p.solved_at is None,
    {
        Self { problem, answer, operand1, operand2, created_at: now_millis(), solved_at: None }
    }

    /// Checks an answer against the expected one. Every accepted answer
    /// stamps `solved_at` with the current instant, overwriting any
    /// earlier stamp; a rejected answer changes nothing.
    pub fn check_answer(&mut self, user_answer: &Answer) -> (r: bool)
        ensures
            r == answer_equiv(old(self).answer, *user_answer),
            final(self).problem == old(self).problem,
            final(self).answer == old(self).answer,
            final(self).operand1 == old(self).operand1,
            final(self).operand2 == old(self).operand2,
            final(self).created_at == old(self).created_at,
            r ==> final(self).solved_at is Some,
            !r ==> final(self).solved_at == old(self).solved_at,
    {
        let correct = self.answer.check(user_answer);
        if correct {
            self.solved_at = Some(now_millis());
        }
        correct
    }

    /// Builds the problem for operation `op` from drawn operands. The
    /// second pair `(c, d)` feeds only the fraction operations. Division
    /// presents the product `a * b` as the dividend so that the quotient
    /// is exactly `a`.
    pub fn from_operands(op: GameType, a: i32, b: i32, c: i32, d: i32) -> (p: Problem)
        requires
            valid_operand(a as int),
            valid_operand(b as int),
            valid_operand(c as int),
            valid_operand(d as int),
        ensures
            problem_matches(p, op, a, b, c, d),
    {
        proof {
            assert(1 <= (a as int) * (b as int) <= 100_000_000) by (nonlinear_arith)
                requires
                    1 <= a as int <= 10000,
                    1 <= b as int <= 10000,
            ;
            assert(1 <= (a as int) * (d as int) <= 100_000_000) by (nonlinear_arith)
                requires
                    1 <= a as int <= 10000,
                    1 <= d as int <= 10000,
            ;
            assert(1 <= (b as int) * (c as int) <= 100_000_000) by (nonlinear_arith)
                requires
                    1 <= b as int <= 10000,
                    1 <= c as int <= 10000,
            ;
            assert(1 <= (b as int) * (d as int) <= 100_000_000) by (nonlinear_arith)
                requires
                    1 <= b as int <= 10000,
                    1 <= d as int <= 10000,
            ;
            reveal_strlit(" + ");
            reveal_strlit(" - ");
            reveal_strlit(" * ");
            reveal_strlit(" / ");
            assert(" + "@ =~= seq![' ', '+', ' ']);
            assert(" - "@ =~= seq![' ', '-', ' ']);
            assert(" * "@ =~= seq![' ', '*', ' ']);
            assert(" / "@ =~= seq![' ', '/', ' ']);
        }
        match op {
            GameType::Addition => {
                let text = int_pair_string(a, " + ", b);
                Problem::new(text, Answer::Integer(a + b), a, b)
            },
            GameType::Subtraction => {
                let text = int_pair_string(a, " - ", b);
                Problem::new(text, Answer::Integer(a - b), a, b)
            },
            GameType::Multiplication => {
                let text = int_pair_string(a, " * ", b);
                Problem::new(text, Answer::Integer(a * b), a, b)
            },
            GameType::Division => {
                let dividend = a * b;
                let text = int_pair_string(dividend, " / ", b);
                Problem::new(text, Answer::Integer(a), dividend, b)
            },
            GameType::FractionAddition => {
                let text = frac_expr_string(a, b, " + ", c, d);
                let numerator = a * d + b * c;
                let denominator = b * d;
                Problem::new(text, Answer::Fraction { numerator, denominator }, a, b)
            },
            GameType::FractionSubtraction => {
                let text = frac_expr_string(a, b, " - ", c, d);
                let numerator = a * d - b * c;
                let denominator = b * d;
                Problem::new(text, Answer::Fraction { numerator, denominator }, a, b)
            },
        }
    }
}

/// One practice session: the current selection, the problem on screen, and
/// the round bookkeeping. A round spans a fixed number of solved problems.
///
/// `mock_operands`, when set, replaces the random draws with a fixed pair
/// so that generated problems are reproducible.
pub struct Game {
    pub score: i32,
    pub current_type: GameType,
    pub current_difficulty: GameDifficulty,
    pub current_problem: Option<Problem>,
    pub problems_per_round: i32,
    pub current_round_completed_problems: i32,
    pub game_state: GameState,
    pub mock_operands: Option<(i32, i32)>,
}

impl Game {
    /// The session invariant: the round length is the fixed constant, the
    /// completed count stays within the round, the score cannot overflow
    /// across the rest of the round, and any mocked operands are values a
    /// tier could have drawn.
    pub open spec fn wf(self) -> bool {
        &&& self.problems_per_round == 10
        &&& 0 <= self.current_round_completed_problems <= self.problems_per_round
        &&& 0 <= self.score
        &&& self.score + self.problems_per_round - self.current_round_completed_problems
            <= i32::MAX
        &&& match self.mock_operands {
            Some(m) => valid_operand(m.0 as int) && valid_operand(m.1 as int),
            None => true,
        }
    }

    /// The starting state: no score, addition at the basic tier, no problem
    /// on screen, and a round not yet begun.
    pub open spec fn is_initial(self) -> bool {
        &&& self.score == 0
        &&& self.current_type is Addition
        &&& self.current_difficulty is Basic
        &&& self.current_problem is None
        &&& self.problems_per_round == 10
        &&& self.current_round_completed_problems == 0
        &&& self.game_state is NotStarted
        &&& self.mock_operands is None
    }

    pub fn new() -> (g: Self)
        ensures
            g.is_initial(),
            g.wf(),
    {
        Self {
            score: 0,
            current_type: GameType::Addition,
            current_difficulty: GameDifficulty::Basic,
            current_problem: None,
            problems_per_round: 10,
            current_round_completed_problems: 0,
            game_state: GameState::NotStarted,
            mock_operands: None,
        }
    }

    /// A session whose problem generation always uses the given operand
    /// pair instead of random draws, for reproducible problems.
    pub fn with_mock_rng(operand1: i32, operand2: i32) -> (g: Self)
        requires
            valid_operand(operand1 as int),
            valid_operand(operand2 as int),
        ensures
            g.wf(),
            g.score == 0,
            g.current_type is Addition,
            g.current_difficulty is Basic,
            g.current_problem is None,
            g.problems_per_round == 10,
            g.current_round_completed_problems == 0,
            g.game_state is NotStarted,
            g.mock_operands == Some((operand1, operand2)),
    {
        Self {
            score: 0,
            current_type: GameType::Addition,
            current_difficulty: GameDifficulty::Basic,
            current_problem: None,
            problems_per_round: 10,
            current_round_completed_problems: 0,
            game_state: GameState::NotStarted,
            mock_operands: Some((operand1, operand2)),
        }
    }

    /// The fixed inclusive operand range of a difficulty tier.
    pub fn generate_range(&self, difficulty: &GameDifficulty) -> (r: (i32, i32))
        ensures
            r.0 == range_min(*difficulty),
            r.1 == range_max(*difficulty),
    {
        match difficulty {
            GameDifficulty::Basic => (1, 9),
            GameDifficulty::Medium => (10, 99),
            GameDifficulty::Hard => (100, 999),
            GameDifficulty::Mastery => (1000, 10000),
        }
    }

    /// Generates a problem for the current operation and difficulty, makes
    /// it the current problem, and returns it. Operands come from the
    /// mocked pair when one is set, else from fresh random draws within the
    /// tier's range; either way the stored problem agrees with the returned
    /// one in text, answer, and operands.
    pub fn generate_problem(&mut self) -> (p: Problem)
        requires
            old(self).wf(),
        ensures
            final(self).wf(),
            final(self).score == old(self).score,
            final(self).current_type == old(self).current_type,
            final(self).current_difficulty == old(self).current_difficulty,
            final(self).problems_per_round == old(self).problems_per_round,
            final(self).current_round_completed_problems == old(
                self,
            ).current_round_completed_problems,
            final(self).game_state == old(self).game_state,
            final(self).mock_operands == old(self).mock_operands,
            (final(self).current_problem matches Some(q) && {
                &&& q.problem@ == p.problem@
                &&& q.answer == p.answer
                &&& q.operand1 == p.operand1
                &&& q.operand2 == p.operand2
                &&& q.created_at == p.created_at
                &&& q.solved_at is None
            }),
            match old(self).mock_operands {
                Some(m) => problem_matches(p, old(self).current_type, m.0, m.1, m.0, m.1),
                None => exists|a: i32, b: i32, c: i32, d: i32|
                    {
                        &&& in_range(old(self).current_difficulty, a as int)
                        &&& in_range(old(self).current_difficulty, b as int)
                        &&& in_range(old(self).current_difficulty, c as int)
                        &&& in_range(old(self).current_difficulty, d as int)
                        &&& #[trigger] problem_matches(p, old(self).current_type, a, b, c, d)
                    },
            },
            old(self).mock_operands is None && !(old(self).current_type is Division) ==> in_range(
                old(self).current_difficulty,
                p.operand1 as int,
            ) && in_range(old(self).current_difficulty, p.operand2 as int),
            old(self).mock_operands is None && old(self).current_type is Division ==> in_range(
                old(self).current_difficulty,
                p.operand2 as int,
            ) && (p.answer matches Answer::Integer(q) && in_range(
                old(self).current_difficulty,
                q as int,
            )),
    {
        let (min, max) = self.generate_range(&self.current_difficulty);
        let (a, b) = match self.mock_operands {
            Some(m) => m,
            None => (draw_in_range(min, max), draw_in_range(min, max)),
        };
        let (c, d) = match self.mock_operands {
            Some(m) => m,
            None => match self.current_type {
                GameType::FractionAddition | GameType::FractionSubtraction => (
                    draw_in_range(min, max),
                    draw_in_range(min, max),
                ),
                _ => (a, b),
            },
        };
        let p = Problem::from_operands(self.current_type, a, b, c, d);
        let stored = Problem {
            problem: p.problem.clone(),
            answer: p.answer,
            operand1: p.operand1,
            operand2: p.operand2,
            created_at: p.created_at,
            solved_at: p.solved_at,
        };
        self.current_problem = Some(stored);
        p
    }

    /// Checks an answer against the current problem. A correct answer
    /// during an unfinished round scores one point and completes one more
    /// problem; once the round is complete, and when no problem is on
    /// screen, nothing is accepted and nothing changes.
    pub fn check_answer(&mut self, user_answer: &Answer) -> (r: bool)
        requires
            old(self).wf(),
        ensures
            final(self).wf(),
            r == (!(old(self).game_state is RoundComplete) && match old(self).current_problem {
                Some(pr) => answer_equiv(pr.answer, *user_answer),
                None => false,
            }),
            final(self).current_type == old(self).current_type,
            final(self).current_difficulty == old(self).current_difficulty,
            final(self).problems_per_round == old(self).problems_per_round,
            final(self).game_state == old(self).game_state,
            final(self).mock_operands == old(self).mock_operands,
            !r ==> *final(self) == *old(self),
            r && old(self).current_round_completed_problems < old(self).problems_per_round ==> {
                &&& final(self).score == old(self).score + 1
                &&& final(self).current_round_completed_problems == old(
                    self,
                ).current_round_completed_problems + 1
            },
            r && old(self).current_round_completed_problems == old(self).problems_per_round ==> {
                &&& final(self).score == old(self).score
                &&& final(self).current_round_completed_problems == old(
                    self,
                ).current_round_completed_problems
            },
            r ==> (final(self).current_problem matches Some(q) && match old(
                self,
            ).current_problem {
                Some(pr) => {
                    &&& q.problem@ == pr.problem@
                    &&& q.answer == pr.answer
                    &&& q.operand1 == pr.operand1
                    &&& q.operand2 == pr.operand2
                    &&& q.created_at == pr.created_at
                    &&& q.solved_at is Some
                },
                None => false,
            }),
    {
        if self.game_state == GameState::RoundComplete {
            return false;
        }
        match &mut self.current_problem {
            None => false,
            Some(problem) => {
                let correct = problem.check_answer(user_answer);
                if correct && self.current_round_completed_problems < self.problems_per_round {
                    self.score = self.score + 1;
                    self.current_round_completed_problems = self.current_round_completed_problems
                        + 1;
                }
                correct
            },
        }
    }

    /// The round is complete exactly when the completed count has reached
    /// the round length.
    pub fn is_round_completed(&self) -> (r: bool)
        ensures
            r == (self.current_round_completed_problems == self.problems_per_round),
    {
        self.current_round_completed_problems == self.problems_per_round
    }

    /// Begins the round: a session that has not started moves to playing;
    /// any other state is left as it is.
    pub fn start_round(&mut self)
        ensures
            old(self).game_state is NotStarted ==> final(self).game_state is Playing,
            !(old(self).game_state is NotStarted) ==> final(self).game_state == old(
                self,
            ).game_state,
            final(self).score == old(self).score,
            final(self).current_type == old(self).current_type,
            final(self).current_difficulty == old(self).current_difficulty,
            final(self).current_problem == old(self).current_problem,
            final(self).problems_per_round == old(self).problems_per_round,
            final(self).current_round_completed_problems == old(
                self,
            ).current_round_completed_problems,
            final(self).mock_operands == old(self).mock_operands,
            old(self).wf() ==> final(self).wf(),
    {
        if self.game_state == GameState::NotStarted {
            self.game_state = GameState::Playing;
        }
    }

    /// Ends the round: a playing session whose completed count has reached
    /// the round length moves to round-complete; otherwise nothing changes.
    pub fn complete_round(&mut self)
        ensures
            old(self).game_state is Playing && old(self).current_round_completed_problems == old(
                self,
            ).problems_per_round ==> final(self).game_state is RoundComplete,
            !(old(self).game_state is Playing && old(self).current_round_completed_problems == old(
                self,
            ).problems_per_round) ==> final(self).game_state == old(self).game_state,
            final(self).score == old(self).score,
            final(self).current_type == old(self).current_type,
            final(self).current_difficulty == old(self).current_difficulty,
            final(self).current_problem == old(self).current_problem,
            final(self).problems_per_round == old(self).problems_per_round,
            final(self).current_round_completed_problems == old(
                self,
            ).current_round_completed_problems,
            final(self).mock_operands == old(self).mock_operands,
            old(self).wf() ==> final(self).wf(),
    {
        if self.game_state == GameState::Playing && self.is_round_completed() {
            self.game_state = GameState::RoundComplete;
        }
    }

    /// Starts over: whatever the prior values, the score and completed
    /// count return to zero and the round state to not-started. The
    /// selection and the problem on screen are kept.
    pub fn reset(&mut self)
        ensures
            final(self).score == 0,
            final(self).current_round_completed_problems == 0,
            final(self).game_state is NotStarted,
            final(self).current_type == old(self).current_type,
            final(self).current_difficulty == old(self).current_difficulty,
            final(self).current_problem == old(self).current_problem,
            final(self).problems_per_round == old(self).problems_per_round,
            final(self).mock_operands == old(self).mock_operands,
            old(self).wf() ==> final(self).wf(),
    {
        self.score = 0;
        self.current_round_completed_problems = 0;
        self.game_state = GameState::NotStarted;
    }
}

impl Default for Game {
    fn default() -> (g: Self)
        ensures
            g.is_initial(),
            g.wf(),
    {
        Game::new()
    }
}

} // verus!
