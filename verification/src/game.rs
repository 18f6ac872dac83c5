//! Core of the number-guessing game.
//!
//! A [`Game`] holds a secret value in `1..=100`.  One line of input is
//! handed to [`Game::submit_line`] per round: the line is trimmed and
//! parsed as an unsigned integer, a line that does not parse leaves the
//! game unchanged, and a parsed guess is compared against the secret.
//! The game is done exactly when the secret itself has been guessed.

use vstd::prelude::*;

verus! {

/// True for the whitespace characters that are trimmed from a line of
/// input before parsing: space, tab, carriage return and line feed.
pub open spec fn is_space(c: char) -> bool {
    c == ' ' || c == '\t' || c == '\r' || c == '\n'
}

/// True when `c` is an ASCII decimal digit.
pub open spec fn is_digit(c: char) -> bool {
    48 <= c as u32 <= 57
}

/// The numeric value of the digit `c`.
pub open spec fn digit_val(c: char) -> nat {
    (c as u32 - 48) as nat
}

/// `s` with its leading whitespace removed.
pub open spec fn trim_front(s: Seq<char>) -> Seq<char>
    decreases s.len(),
{
    if s.len() > 0 && is_space(s[0]) {
        trim_front(s.drop_first())
    } else {
        s
    }
}

/// `s` with its trailing whitespace removed.
pub open spec fn trim_back(s: Seq<char>) -> Seq<char>
    decreases s.len(),
{
    if s.len() > 0 && is_space(s[s.len() - 1]) {
        trim_back(s.drop_last())
    } else {
        s
    }
}

/// `s` with whitespace removed from both ends.
pub open spec fn trimmed(s: Seq<char>) -> Seq<char> {
    trim_back(trim_front(s))
}

/// True when every character of `s` is an ASCII decimal digit.
pub open spec fn all_digits(s: Seq<char>) -> bool {
    forall|i: int| 0 <= i < s.len() ==> is_digit(#[trigger] s[i])
}

/// The number written by the digit string `s`, most significant digit
/// first.
pub open spec fn digits_value(s: Seq<char>) -> nat
    decreases s.len(),
{
    if s.len() == 0 {
        0
    } else {
        digits_value(s.drop_last()) * 10 + digit_val(s.last())
    }
}

/// What one line of input parses to: the trimmed line must be a
/// non-empty string of ASCII digits whose value fits in a `u32`.
pub open spec fn spec_parse(line: Seq<char>) -> Option<u32> {
    let t = trimmed(line);
    if t.len() > 0 && all_digits(t) && digits_value(t) <= u32::MAX {
        Some(digits_value(t) as u32)
    } else {
        None
    }
}

/// The three answers the game can give to a parsed guess.
#[derive(Clone, Copy, Debug, PartialEq, Eq, Structural)]
pub enum Feedback {
    TooSmall,
    TooBig,
    Win,
}

/// How a guess compares against the secret.
pub open spec fn spec_compare(guess: u32, secret: u32) -> Feedback {
    if guess < secret {
        Feedback::TooSmall
    } else if guess > secret {
        Feedback::TooBig
    } else {
        Feedback::Win
    }
}

/// Compares a parsed guess against the secret value.
pub fn compare_guess(guess: u32, secret: u32) -> (f: Feedback)
    ensures
        f == spec_compare(guess, secret),
{
    if guess < secret {
        Feedback::TooSmall
    } else if guess > secret {
        Feedback::TooBig
    } else {
        Feedback::Win
    }
}

/// One round of the guessing game: the secret value, fixed when the
/// game starts, and whether it has been guessed.
#[derive(Clone, Copy)]
pub struct Game {
    /// The value to be guessed, fixed when the game starts.
    pub secret: u32,
    /// Whether the secret has been guessed.
    pub done: bool,
}

impl Game {
    /// The secret value, for use in specifications.
    pub open spec fn spec_secret(&self) -> u32 {
        self.secret
    }

    /// Whether the game has been won, for use in specifications.
    pub open spec fn spec_done(&self) -> bool {
        self.done
    }

    /// A well-formed game holds a secret drawn from `1..=100`.
    pub open spec fn wf(&self) -> bool {
        1 <= self.spec_secret() <= 100
    }

    /// Starts a game with the given secret value.
    pub fn new(secret: u32) -> (g: Game)
        requires
            1 <= secret <= 100,
        ensures
            g.spec_secret() == secret,
            !g.spec_done(),
            g.wf(),
    {
        Game { secret, done: false }
    }

    /// Starts a game whose secret is drawn at random from `1..=100`.
    pub fn with_random_secret() -> (g: Game)
        ensures
            g.wf(),
            !g.spec_done(),
    {
        Game::new(random_secret())
    }

    /// The secret value.
    pub fn secret(&self) -> (r: u32)
        ensures
            r == self.spec_secret(),
    {
        self.secret
    }

    /// Whether the game has been won.
    pub fn is_done(&self) -> (r: bool)
        ensures
            r == self.spec_done(),
    {
        self.done
    }

    /// The game after one line of input: a line that does not parse
    /// changes nothing, and a parsed guess ends the game exactly when
    /// it equals the secret.  The secret itself never changes.
    pub open spec fn spec_step(self, line: Seq<char>) -> Game {
        match spec_parse(line) {
            Option::None => self,
            Option::Some(v) => Game {
                secret: self.spec_secret(),
                done: self.spec_done() || v == self.spec_secret(),
            },
        }
    }

    /// The answer one line of input gets: none for a line that does not
    /// parse, else the comparison of the guess against the secret.
    pub open spec fn spec_answer(self, line: Seq<char>) -> Option<Feedback> {
        match spec_parse(line) {
            Option::None => Option::None,
            Option::Some(v) => Option::Some(spec_compare(v, self.spec_secret())),
        }
    }

    /// Plays one round on the given line of input.
    ///
    /// A line that does not parse as an unsigned integer returns `None`
    /// and leaves the game exactly as it was, so the caller re-prompts.
    /// A parsed guess is answered, the game becomes done exactly when
    /// the guess equals the secret, and the secret never changes.
    pub fn submit_line(&mut self, line: &str) -> (r: Option<Feedback>)
        ensures
            *final(self) == old(self).spec_step(line@),
            r == old(self).spec_answer(line@),
            final(self).spec_secret() == old(self).spec_secret(),
            spec_parse(line@) is None ==> *final(self) == *old(self) && r is None,
            spec_parse(line@) == Some(old(self).spec_secret()) ==> final(self).spec_done()
                && r == Some(Feedback::Win),
            spec_parse(line@) is Some && spec_parse(line@)->0 != old(self).spec_secret()
                ==> final(self).spec_done() == old(self).spec_done(),
    {
        match parse_guess(line) {
            Option::None => Option::None,
            Option::Some(v) => {
                let f = compare_guess(v, self.secret);
                if v == self.secret {
                    self.done = true;
                }
                Option::Some(f)
            },
        }
    }
}

/// Relies on `rand::Rng::gen_range` on the thread-local generator:
/// returns a value drawn from the given non-empty range, here `1..101`.
#[verifier::external_body]
fn random_secret() -> (r: u32)
    ensures
        1 <= r < 101,
{
    rand::Rng::gen_range(&mut rand::thread_rng(), 1..101)
}

/// Trims `line` and parses it as an unsigned integer.
pub fn parse_guess(line: &str) -> (r: Option<u32>)
    ensures
        r == spec_parse(line@),
{
    let n = line.unicode_len();
    let ghost s = line@;

    // Find the first and last non-whitespace characters.
    let mut lo: usize = 0;
    while lo < n && is_space_char(line.get_char(lo))
        invariant
            n == s.len(),
            s == line@,
            0 <= lo <= n,
            forall|j: int| 0 <= j < lo ==> is_space(#[trigger] s[j]),
        decreases n - lo,
    {
        lo = lo + 1;
    }
    let mut hi: usize = n;
    while hi > lo && is_space_char(line.get_char(hi - 1))
        invariant
            n == s.len(),
            s == line@,
            0 <= lo <= hi <= n,
            forall|j: int| 0 <= j < lo ==> is_space(#[trigger] s[j]),
            lo < n ==> !is_space(s[lo as int]),
            forall|j: int| hi <= j < n ==> is_space(#[trigger] s[j]),
        decreases hi,
    {
        hi = hi - 1;
    }

    proof {
        lemma_trim_front_at(s, lo as int);
        lemma_trim_back_at(s.subrange(lo as int, n as int), hi - lo);
        assert(trimmed(s) == s.subrange(lo as int, hi as int)) by {
            assert(s.subrange(lo as int, n as int).subrange(0, hi - lo)
                =~= s.subrange(lo as int, hi as int));
        }
    }
    let ghost t = s.subrange(lo as int, hi as int);

    if lo == hi {
        // Nothing but whitespace: the trimmed line is empty.
        return Option::None;
    }

    // Read the digits, most significant first.
    let mut acc: u64 = 0;
    let mut too_big = false;
    let mut i: usize = lo;
    while i < hi
        invariant
            n == s.len(),
            s == line@,
            0 <= lo < hi <= n,
            lo <= i <= hi,
            t == s.subrange(lo as int, hi as int),
            t == trimmed(s),
            all_digits(t.subrange(0, i - lo)),
            !too_big ==> acc == digits_value(t.subrange(0, i - lo)) && acc <= u32::MAX,
            too_big ==> digits_value(t.subrange(0, i - lo)) > u32::MAX,
        decreases hi - i,
    {
        let c = line.get_char(i);
        let cv = c as u32;
        if cv < 48 || cv > 57 {
            proof {
                assert(t[i - lo] == s[i as int]);
                assert(!all_digits(t));
            }
            return Option::None;
        }
        let d: u64 = (cv - 48) as u64;
        proof {
            assert(t.subrange(0, i + 1 - lo).drop_last() =~= t.subrange(0, i - lo));
            assert(t.subrange(0, i + 1 - lo).last() == s[i as int]);
            assert(digits_value(t.subrange(0, i + 1 - lo))
                == digits_value(t.subrange(0, i - lo)) * 10 + digit_val(s[i as int]));
        }
        if too_big {
            proof {
                let v = digits_value(t.subrange(0, i - lo));
                assert(v * 10 + digit_val(s[i as int]) >= v) by (nonlinear_arith)
                    requires
                        v >= 0,
                ;
            }
        } else {
            let next = acc * 10 + d;
            if next > 0xffff_ffff {
                too_big = true;
            } else {
                acc = next;
            }
        }
        i = i + 1;
    }

    proof {
        assert(t.subrange(0, hi - lo) =~= t);
    }
    if too_big {
        Option::None
    } else {
        Option::Some(acc as u32)
    }
}

/// True when `c` is one of the whitespace characters that are trimmed.
fn is_space_char(c: char) -> (r: bool)
    ensures
        r == is_space(c),
{
    c == ' ' || c == '\t' || c == '\r' || c == '\n'
}

/// If the first `k` characters of `s` are whitespace and the next one,
/// if any, is not, trimming the front of `s` drops exactly those `k`.
proof fn lemma_trim_front_at(s: Seq<char>, k: int)
    requires
        0 <= k <= s.len(),
        forall|j: int| 0 <= j < k ==> is_space(#[trigger] s[j]),
        k < s.len() ==> !is_space(s[k]),
    ensures
        trim_front(s) == s.subrange(k, s.len() as int),
    decreases k,
{
    if k == 0 {
        if s.len() > 0 && is_space(s[0]) {
            assert(false);
        }
        assert(s.subrange(0, s.len() as int) =~= s);
    } else {
        lemma_trim_front_at(s.drop_first(), k - 1);
        assert(s.drop_first().subrange(k - 1, s.drop_first().len() as int)
            =~= s.subrange(k, s.len() as int));
    }
}

/// If everything from index `k` on is whitespace and the character just
/// before it, if any, is not, trimming the back of `s` keeps exactly
/// the first `k` characters.
proof fn lemma_trim_back_at(s: Seq<char>, k: int)
    requires
        0 <= k <= s.len(),
        forall|j: int| k <= j < s.len() ==> is_space(#[trigger] s[j]),
        k > 0 ==> !is_space(s[k - 1]),
    ensures
        trim_back(s) == s.subrange(0, k),
    decreases s.len() - k,
{
    if k == s.len() {
        if s.len() > 0 && is_space(s[s.len() - 1]) {
            assert(false);
        }
        assert(s.subrange(0, k) =~= s);
    } else {
        lemma_trim_back_at(s.drop_last(), k);
        assert(s.drop_last().subrange(0, k) =~= s.subrange(0, k));
    }
}

/// The state of a game after a whole sequence of input lines has been
/// played, one call of [`Game::submit_line`] per line.
pub open spec fn run_game(g: Game, lines: Seq<Seq<char>>) -> Game
    decreases lines.len(),
{
    if lines.len() == 0 {
        g
    } else {
        run_game(g.spec_step(lines[0]), lines.drop_first())
    }
}

/// However many rounds are played, and whatever is typed, the secret
/// value never changes.
pub proof fn lemma_secret_never_changes(g: Game, lines: Seq<Seq<char>>)
    ensures
        run_game(g, lines).spec_secret() == g.spec_secret(),
    decreases lines.len(),
{
    if lines.len() > 0 {
        lemma_secret_never_changes(g.spec_step(lines[0]), lines.drop_first());
    }
}

/// The game is won after a run exactly when it was already won or some
/// line of input parses to the secret value: a guess of anything else,
/// or a line that does not parse, never ends the game, and the secret
/// itself always does.
pub proof fn lemma_done_iff_secret_guessed(g: Game, lines: Seq<Seq<char>>)
    ensures
        run_game(g, lines).spec_done() <==> g.spec_done() || exists|i: int|
            0 <= i < lines.len() && spec_parse(#[trigger] lines[i]) == Some(g.spec_secret()),
    decreases lines.len(),
{
    if lines.len() > 0 {
        let g1 = g.spec_step(lines[0]);
        assert(g1.spec_secret() == g.spec_secret());
        assert(g1.spec_done() == (g.spec_done() || spec_parse(lines[0]) == Some(
            g.spec_secret(),
        )));
        assert(forall|i: int| 0 <= i < lines.drop_first().len()
            ==> #[trigger] lines.drop_first()[i] == lines[i + 1]);
        lemma_done_iff_secret_guessed(g1, lines.drop_first());
        if run_game(g, lines).spec_done() && !g1.spec_done() {
            let w = choose|i: int|
                0 <= i < lines.drop_first().len() && spec_parse(
                    #[trigger] lines.drop_first()[i],
                ) == Some(g1.spec_secret());
            assert(spec_parse(lines[w + 1]) == Some(g.spec_secret()));
        }
        if !run_game(g, lines).spec_done() {
            assert forall|i: int|
                0 <= i < lines.len() implies spec_parse(#[trigger] lines[i]) != Some(
                g.spec_secret(),
            ) by {
                if i > 0 {
                    assert(lines.drop_first()[i - 1] == lines[i]);
                }
            }
        }
    }
}

} // verus!
