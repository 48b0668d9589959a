use vstd::prelude::*;

verus! {

// ── Score ────────────────────────────────────────────────────────────────────
/// The score of the running game and the best score ever reached.
#[derive(Clone, Copy, PartialEq, Eq, Debug, Structural)]
pub struct GameScore {
    /// Enemies defeated in the running game.
    pub current: u32,
    /// The best score reached so far, across games.
    pub high_score: u32,
}

impl GameScore {
    /// A fresh game: no enemies defeated yet, and the best score that was saved.
    pub fn with_high_score(high_score: u32) -> (score: Self)
        ensures
            score.current == 0,
            score.high_score == high_score,
    {
        GameScore { current: 0, high_score }
    }

    /// Counts one more defeated enemy. The best score follows the current
    /// score once it is beaten; the result tells whether that happened, in
    /// which case the new best score is to be saved.
    pub fn record_kill(&mut self) -> (new_best: bool)
        requires
            old(self).current < u32::MAX,
        ensures
            final(self).current == old(self).current + 1,
            new_best == (old(self).current + 1 > old(self).high_score),
            final(self).high_score == (if new_best {
                final(self).current
            } else {
                old(self).high_score
            }),
    {
        self.current = self.current + 1;
        if self.current > self.high_score {
            self.high_score = self.current;
            true
        } else {
            false
        }
    }

    /// Starts the count of a new game, keeping the best score.
    pub fn reset_current(&mut self)
        ensures
            final(self).current == 0,
            final(self).high_score == old(self).high_score,
    {
        self.current = 0;
    }
}

/// Counting a kill never lowers the best score, and leaves the best score at
/// least as high as the current score.
pub proof fn lemma_record_kill_keeps_best(before: GameScore, after: GameScore, new_best: bool)
    requires
        before.current < u32::MAX,
        after.current == before.current + 1,
        new_best == (before.current + 1 > before.high_score),
        after.high_score == (if new_best {
            after.current
        } else {
            before.high_score
        }),
    ensures
        after.high_score >= before.high_score,
        after.current <= after.high_score,
        after.high_score == if before.high_score >= after.current {
            before.high_score
        } else {
            after.current
        },
{
}

// ── Game state ───────────────────────────────────────────────────────────────
/// Whether the game is being played or over.
#[derive(Clone, Copy, PartialEq, Eq, Debug, Structural)]
pub enum GameState {
    /// The player is alive and playing.
    Playing,
    /// The player has lost all health.
    GameOver,
}

impl Default for GameState {
    fn default() -> (state: Self)
        ensures
            state == GameState::Playing,
    {
        GameState::Playing
    }
}

/// The state that the game moves to after the player's health was checked:
/// `Some(GameOver)` once the health is used up, otherwise no change.
pub fn game_over_transition(health_depleted: bool) -> (next: Option<GameState>)
    ensures
        next == (if health_depleted {
            Some(GameState::GameOver)
        } else {
            None
        }),
{
    if health_depleted {
        Some(GameState::GameOver)
    } else {
        None
    }
}

// ── Text of the saved best score ─────────────────────────────────────────────
/// Unicode `White_Space`, the whitespace that `str::trim` removes.
pub open spec fn spec_is_whitespace(c: char) -> bool {
    let u = c as u32;
    (0x9 <= u <= 0xd) || u == 0x20 || u == 0x85 || u == 0xa0 || u == 0x1680 || (0x2000 <= u
        <= 0x200a) || u == 0x2028 || u == 0x2029 || u == 0x202f || u == 0x205f || u == 0x3000
}

/// Whether `c` is Unicode whitespace.
pub fn is_whitespace(c: char) -> (ws: bool)
    ensures
        ws == spec_is_whitespace(c),
{
    let u = c as u32;
    (0x9 <= u && u <= 0xd) || u == 0x20 || u == 0x85 || u == 0xa0 || u == 0x1680 || (0x2000 <= u
        && u <= 0x200a) || u == 0x2028 || u == 0x2029 || u == 0x202f || u == 0x205f || u == 0x3000
}

/// `s` without its leading whitespace.
pub open spec fn spec_trim_start(s: Seq<char>) -> Seq<char>
    decreases s.len(),
{
    if s.len() > 0 && spec_is_whitespace(s[0]) {
        spec_trim_start(s.drop_first())
    } else {
        s
    }
}

/// `s` without its trailing whitespace.
pub open spec fn spec_trim_end(s: Seq<char>) -> Seq<char>
    decreases s.len(),
{
    if s.len() > 0 && spec_is_whitespace(s.last()) {
        spec_trim_end(s.drop_last())
    } else {
        s
    }
}

/// `s` without leading and trailing whitespace.
pub open spec fn spec_trim(s: Seq<char>) -> Seq<char> {
    spec_trim_end(spec_trim_start(s))
}

/// An ASCII decimal digit.
pub open spec fn spec_is_digit(c: char) -> bool {
    '0' <= c <= '9'
}

/// The value of a decimal digit.
pub open spec fn spec_digit_value(c: char) -> int {
    c as int - '0' as int
}

/// Every character of `s` is a decimal digit.
pub open spec fn spec_all_digits(s: Seq<char>) -> bool {
    forall|i: int| 0 <= i < s.len() ==> spec_is_digit(#[trigger] s[i])
}

/// The number that the digits `s` write in base ten.
pub open spec fn spec_digits_value(s: Seq<char>) -> nat
    decreases s.len(),
{
    if s.len() == 0 {
        0
    } else {
        (spec_digits_value(s.drop_last()) * 10 + spec_digit_value(s.last())) as nat
    }
}

/// `u32::from_str` on `s`: an optional `+` followed by at least one decimal
/// digit, of a value that fits in a `u32`.
pub open spec fn spec_parse_u32(s: Seq<char>) -> Option<u32> {
    let digits = if s.len() > 0 && s[0] == '+' {
        s.drop_first()
    } else {
        s
    };
    if digits.len() > 0 && spec_all_digits(digits) && spec_digits_value(digits) <= u32::MAX {
        Some(spec_digits_value(digits) as u32)
    } else {
        None
    }
}

/// The best score that a saved text stands for: the number it holds, once
/// surrounding whitespace is trimmed, or 0 when it holds none.
pub open spec fn spec_high_score_from_text(text: Seq<char>) -> u32 {
    match spec_parse_u32(spec_trim(text)) {
        Some(value) => value,
        None => 0,
    }
}

/// The character of a decimal digit `d < 10`.
pub open spec fn spec_digit_char(d: nat) -> char {
    if d == 0 {
        '0'
    } else if d == 1 {
        '1'
    } else if d == 2 {
        '2'
    } else if d == 3 {
        '3'
    } else if d == 4 {
        '4'
    } else if d == 5 {
        '5'
    } else if d == 6 {
        '6'
    } else if d == 7 {
        '7'
    } else if d == 8 {
        '8'
    } else {
        '9'
    }
}

/// The decimal digits of `n`, most significant first, without leading zeros.
pub open spec fn spec_decimal(n: nat) -> Seq<char>
    decreases n,
{
    if n < 10 {
        seq![spec_digit_char(n)]
    } else {
        spec_decimal(n / 10).push(spec_digit_char(n % 10))
    }
}

/// The characters of `contents`, in order.
fn collect_chars(contents: &str) -> (chars: Vec<char>)
    ensures
        chars@ == contents@,
{
    let mut chars: Vec<char> = Vec::new();
    for c in it: contents.chars()
        invariant
            chars@ == it.seq().take(it.index()),
    {
        chars.push(c);
    }
    chars
}

proof fn lemma_digits_value_prefix(s: Seq<char>, k: int)
    requires
        spec_all_digits(s),
        0 <= k <= s.len(),
    ensures
        spec_digits_value(s.take(k)) <= spec_digits_value(s),
    decreases s.len(),
{
    if k < s.len() {
        let t = s.drop_last();
        assert(spec_all_digits(t)) by {
            assert forall|i: int| 0 <= i < t.len() implies spec_is_digit(#[trigger] t[i]) by {
                assert(t[i] == s[i]);
            }
        }
        lemma_digits_value_prefix(t, k);
        assert(t.take(k) =~= s.take(k));
        assert(spec_is_digit(s[s.len() - 1]));
    } else {
        assert(s.take(k) =~= s);
    }
}

/// Parses `chars[start..end]` as `u32::from_str` does.
fn parse_u32_range(chars: &Vec<char>, start: usize, end: usize) -> (value: Option<u32>)
    requires
        start <= end <= chars@.len(),
    ensures
        value == spec_parse_u32(chars@.subrange(start as int, end as int)),
{
    let ghost s = chars@.subrange(start as int, end as int);
    let mut i = start;
    if i < end && chars[i] == '+' {
        i = i + 1;
    }
    let ghost digits = chars@.subrange(i as int, end as int);
    assert(digits =~= (if s.len() > 0 && s[0] == '+' {
        s.drop_first()
    } else {
        s
    }));
    if i == end {
        return None;
    }
    let digits_start = i;
    let mut value: u32 = 0;
    assert(chars@.subrange(digits_start as int, i as int) =~= Seq::<char>::empty());
    while i < end
        invariant
            digits_start <= i <= end,
            start <= digits_start,
            end <= chars@.len(),
            digits == chars@.subrange(digits_start as int, end as int),
            digits.len() > 0,
            s == chars@.subrange(start as int, end as int),
            digits == (if s.len() > 0 && s[0] == '+' {
                s.drop_first()
            } else {
                s
            }),
            value as nat == spec_digits_value(chars@.subrange(digits_start as int, i as int)),
            spec_all_digits(chars@.subrange(digits_start as int, i as int)),
        decreases end - i,
    {
        let ghost prefix = chars@.subrange(digits_start as int, i as int);
        let ghost next = chars@.subrange(digits_start as int, i + 1);
        assert(next.drop_last() =~= prefix);
        assert(next.last() == chars@[i as int]);
        let c = chars[i];
        if !(c >= '0' && c <= '9') {
            assert(!spec_all_digits(digits)) by {
                assert(digits[i - digits_start] == c);
            }
            return None;
        }
        let d: u32 = (c as u32) - ('0' as u32);
        assert(spec_digit_value(c) == d);
        if value > (u32::MAX - d) / 10 {
            assert(value * 10 + d > u32::MAX) by (nonlinear_arith)
                requires
                    value > (u32::MAX - d) / 10,
                    d <= 9,
            ;
            proof {
                if spec_all_digits(digits) {
                    assert(digits.take(i + 1 - digits_start) =~= next);
                    lemma_digits_value_prefix(digits, i + 1 - digits_start);
                }
            }
            return None;
        }
        assert(value * 10 + d <= u32::MAX) by (nonlinear_arith)
            requires
                value <= (u32::MAX - d) / 10,
                d <= 9,
        ;
        value = value * 10 + d;
        assert(spec_all_digits(next)) by {
            assert forall|j: int| 0 <= j < next.len() implies spec_is_digit(#[trigger] next[j]) by {
                if j < prefix.len() {
                    assert(next[j] == prefix[j]);
                }
            }
        }
        i = i + 1;
    }
    assert(chars@.subrange(digits_start as int, i as int) =~= digits);
    Some(value)
}

/// The best score that a saved text holds: the text, trimmed of surrounding
/// whitespace, parsed as a `u32`; 0 when it is not one.
pub fn parse_high_score(contents: &str) -> (high_score: u32)
    ensures
        high_score == spec_high_score_from_text(contents@),
{
    let chars = collect_chars(contents);
    let n = chars.len();
    let mut start: usize = 0;
    assert(chars@.subrange(0, n as int) =~= chars@);
    while start < n && is_whitespace(chars[start])
        invariant
            start <= n,
            n == chars@.len(),
            spec_trim_start(chars@) == spec_trim_start(chars@.subrange(start as int, n as int)),
        decreases n - start,
    {
        assert(chars@.subrange(start as int, n as int).drop_first() =~= chars@.subrange(
            start + 1,
            n as int,
        ));
        start = start + 1;
    }
    let mut end: usize = n;
    while end > start && is_whitespace(chars[end - 1])
        invariant
            start <= end <= n,
            n == chars@.len(),
            spec_trim_end(chars@.subrange(start as int, n as int)) == spec_trim_end(
                chars@.subrange(start as int, end as int),
            ),
        decreases end - start,
    {
        assert(chars@.subrange(start as int, end as int).drop_last() =~= chars@.subrange(
            start as int,
            end - 1,
        ));
        end = end - 1;
    }
    assert(spec_trim(contents@) == chars@.subrange(start as int, end as int));
    match parse_u32_range(&chars, start, end) {
        Some(value) => value,
        None => 0,
    }
}

/// The one-character text of a decimal digit.
fn digit_text(d: u32) -> (text: &'static str)
    requires
        d < 10,
    ensures
        text@ == seq![spec_digit_char(d as nat)],
{
    proof {
        reveal_strlit("0");
        reveal_strlit("1");
        reveal_strlit("2");
        reveal_strlit("3");
        reveal_strlit("4");
        reveal_strlit("5");
        reveal_strlit("6");
        reveal_strlit("7");
        reveal_strlit("8");
        reveal_strlit("9");
    }
    if d == 0 {
        "0"
    } else if d == 1 {
        "1"
    } else if d == 2 {
        "2"
    } else if d == 3 {
        "3"
    } else if d == 4 {
        "4"
    } else if d == 5 {
        "5"
    } else if d == 6 {
        "6"
    } else if d == 7 {
        "7"
    } else if d == 8 {
        "8"
    } else {
        "9"
    }
}

/// Appends the decimal digits of `n` to `out`.
pub fn append_decimal(out: &mut String, n: u32)
    ensures
        final(out)@ == old(out)@ + spec_decimal(n as nat),
    decreases n,
{
    if n >= 10 {
        append_decimal(out, n / 10);
    }
    out.append(digit_text(n % 10));
    proof {
        if n >= 10 {
            assert(old(out)@ + spec_decimal(n as nat) =~= old(out)@ + spec_decimal((n / 10) as nat)
                + seq![spec_digit_char((n % 10) as nat)]);
        } else {
            assert(old(out)@ + spec_decimal(n as nat) =~= old(out)@ + seq![
                spec_digit_char((n % 10) as nat),
            ]);
        }
    }
}

/// The text that a best score is saved as: its decimal digits.
pub fn high_score_text(high_score: u32) -> (text: String)
    ensures
        text@ == spec_decimal(high_score as nat),
{
    let mut text = String::new();
    append_decimal(&mut text, high_score);
    assert(text@ =~= spec_decimal(high_score as nat));
    text
}

// ── Laws of the saved text ───────────────────────────────────────────────────
proof fn lemma_digit_char(d: nat)
    requires
        d < 10,
    ensures
        spec_is_digit(spec_digit_char(d)),
        spec_digit_value(spec_digit_char(d)) == d,
        !spec_is_whitespace(spec_digit_char(d)),
        spec_digit_char(d) != '+',
{
}

proof fn lemma_decimal(n: nat)
    ensures
        spec_decimal(n).len() > 0,
        spec_all_digits(spec_decimal(n)),
        spec_digits_value(spec_decimal(n)) == n,
        !spec_is_whitespace(spec_decimal(n)[0]),
        !spec_is_whitespace(spec_decimal(n).last()),
        spec_decimal(n)[0] != '+',
    decreases n,
{
    if n < 10 {
        lemma_digit_char(n);
        assert(spec_decimal(n).drop_last() =~= Seq::<char>::empty());
        assert(spec_digits_value(Seq::<char>::empty()) == 0);
        assert(spec_digits_value(spec_decimal(n)) == spec_digit_value(spec_digit_char(n)));
    } else {
        lemma_decimal(n / 10);
        lemma_digit_char(n % 10);
        let s = spec_decimal(n);
        let t = spec_decimal(n / 10);
        assert(s.drop_last() =~= t);
        assert(n == (n / 10) * 10 + n % 10) by (nonlinear_arith);
        assert(spec_digits_value(s) == spec_digits_value(t) * 10 + spec_digit_value(
            spec_digit_char(n % 10),
        ));
        assert forall|i: int| 0 <= i < s.len() implies spec_is_digit(#[trigger] s[i]) by {
            if i < t.len() {
                assert(s[i] == t[i]);
            }
        }
        assert(s[0] == t[0]);
    }
}

proof fn lemma_trim_start_whitespace_prefix(before: Seq<char>, rest: Seq<char>)
    requires
        forall|i: int| 0 <= i < before.len() ==> spec_is_whitespace(#[trigger] before[i]),
        rest.len() > 0,
        !spec_is_whitespace(rest[0]),
    ensures
        spec_trim_start(before + rest) == rest,
    decreases before.len(),
{
    if before.len() == 0 {
        assert(before + rest =~= rest);
    } else {
        let tail = before.drop_first();
        assert((before + rest).drop_first() =~= tail + rest);
        assert((before + rest)[0] == before[0]);
        assert forall|i: int| 0 <= i < tail.len() implies spec_is_whitespace(#[trigger] tail[i]) by {
            assert(tail[i] == before[i + 1]);
        }
        lemma_trim_start_whitespace_prefix(tail, rest);
    }
}

proof fn lemma_trim_end_whitespace_suffix(body: Seq<char>, after: Seq<char>)
    requires
        forall|i: int| 0 <= i < after.len() ==> spec_is_whitespace(#[trigger] after[i]),
        body.len() > 0,
        !spec_is_whitespace(body.last()),
    ensures
        spec_trim_end(body + after) == body,
    decreases after.len(),
{
    if after.len() == 0 {
        assert(body + after =~= body);
    } else {
        let front = after.drop_last();
        assert((body + after).drop_last() =~= body + front);
        assert((body + after).last() == after.last());
        assert forall|i: int| 0 <= i < front.len() implies spec_is_whitespace(#[trigger] front[i]) by {
            assert(front[i] == after[i]);
        }
        lemma_trim_end_whitespace_suffix(body, front);
    }
}

/// The text a best score is saved as reads back as that same score, also
/// with whitespace (such as a line break) before or after it.
pub proof fn lemma_high_score_text_reads_back(high_score: u32, before: Seq<char>, after: Seq<char>)
    requires
        forall|i: int| 0 <= i < before.len() ==> spec_is_whitespace(#[trigger] before[i]),
        forall|i: int| 0 <= i < after.len() ==> spec_is_whitespace(#[trigger] after[i]),
    ensures
        spec_high_score_from_text(before + spec_decimal(high_score as nat) + after) == high_score,
{
    let digits = spec_decimal(high_score as nat);
    lemma_decimal(high_score as nat);
    let body = digits + after;
    assert(body[0] == digits[0]);
    assert(before + digits + after =~= before + body);
    lemma_trim_start_whitespace_prefix(before, body);
    lemma_trim_end_whitespace_suffix(digits, after);
}

/// Saving a best score and loading it again gives back the same score.
pub proof fn lemma_high_score_round_trip(high_score: u32)
    ensures
        spec_high_score_from_text(spec_decimal(high_score as nat)) == high_score,
{
    let empty = Seq::<char>::empty();
    lemma_high_score_text_reads_back(high_score, empty, empty);
    assert(empty + spec_decimal(high_score as nat) + empty =~= spec_decimal(high_score as nat));
}

} // verus!
