//! The sequence matcher: a strategem is a fixed directional code and a cursor
//! into it; it consumes one directional input at a time and tracks whether
//! the inputs so far match the code.

use vstd::prelude::*;

use crate::event::Key;

verus! {

/// One directional symbol of a strategem code.
#[derive(Debug, Clone, Copy, PartialEq, Eq, Structural)]
pub enum StrategemKey {
    Up,
    Down,
    Left,
    Right,
}

impl StrategemKey {
    /// The directional symbol that a logical input event stands for.
    ///
    /// The escape signal has no directional meaning, so it is excluded by
    /// precondition; the session layer handles it before any conversion.
    pub fn from_key(value: Key) -> (r: StrategemKey)
        requires
            value.spec_is_directional(),
        ensures
            r == spec_key_symbol(value),
    {
        match value {
            Key::ArrowUp => StrategemKey::Up,
            Key::ArrowDown => StrategemKey::Down,
            Key::ArrowLeft => StrategemKey::Left,
            Key::ArrowRight => StrategemKey::Right,
            Key::Escape => StrategemKey::Up,  // unreachable by precondition
        }
    }
}

/// The directional symbol for each directional event; the escape event is
/// mapped arbitrarily and never used.
pub open spec fn spec_key_symbol(value: Key) -> StrategemKey {
    match value {
        Key::ArrowUp => StrategemKey::Up,
        Key::ArrowDown => StrategemKey::Down,
        Key::ArrowLeft => StrategemKey::Left,
        Key::ArrowRight => StrategemKey::Right,
        Key::Escape => StrategemKey::Up,
    }
}

/// Difficulty bracket of a strategem, fixed at build time from the length of
/// its code.
#[derive(Debug, Clone, Copy, PartialEq, Eq, Structural)]
pub enum StrategemDifficulty {
    Easy,
    Medium,
    Hard,
}

/// Cosmetic category of a strategem; it has no gameplay effect.
#[derive(Debug, Clone, Copy, PartialEq, Eq, Structural)]
pub enum StrategemClass {
    Supply,
    Mission,
    Defensive,
    Offensive,
}

/// The difficulty implied by a code length: 1-3 symbols are Easy, 4-6 Medium,
/// 7 and above Hard.
pub open spec fn spec_difficulty_of(len: nat) -> StrategemDifficulty {
    if len <= 3 {
        StrategemDifficulty::Easy
    } else if len <= 6 {
        StrategemDifficulty::Medium
    } else {
        StrategemDifficulty::Hard
    }
}

/// A named directional code together with the matcher state: a cursor into
/// the code and a validity flag.
pub struct Strategem {
    pub name: &'static str,
    pub difficulty: StrategemDifficulty,
    pub class: StrategemClass,
    pub code: Vec<StrategemKey>,
    pub idx: usize,
    pub valid: bool,
}

/// One matcher step on the abstract state (cursor, validity): a completed or
/// invalidated matcher ignores the input; otherwise the cursor advances by
/// one and validity records whether the input matched the code symbol under
/// the old cursor.
pub open spec fn spec_step(
    code: Seq<StrategemKey>,
    cursor: int,
    valid: bool,
    key: StrategemKey,
) -> (int, bool) {
    if !valid || cursor >= code.len() {
        (cursor, valid)
    } else {
        (cursor + 1, code[cursor] == key)
    }
}

/// The matcher state after feeding a whole sequence of inputs, one step at a
/// time.
pub open spec fn spec_run(
    code: Seq<StrategemKey>,
    cursor: int,
    valid: bool,
    keys: Seq<StrategemKey>,
) -> (int, bool)
    decreases keys.len(),
{
    if keys.len() == 0 {
        (cursor, valid)
    } else {
        let next = spec_step(code, cursor, valid, keys[0]);
        spec_run(code, next.0, next.1, keys.drop_first())
    }
}

impl Strategem {
    /// Structural invariant: the cursor never passes the end of the code, the
    /// code fits the fixed 16-symbol frame, and the stored difficulty is the
    /// one implied by the code length.
    pub open spec fn wf(self) -> bool {
        &&& self.idx <= self.code@.len()
        &&& self.code@.len() <= 16
        &&& self.difficulty == spec_difficulty_of(self.code@.len())
    }

    /// The directional code, as a sequence of symbols.
    pub open spec fn spec_code(self) -> Seq<StrategemKey> {
        self.code@
    }

    /// The cursor: how many inputs have been consumed while the matcher was
    /// live.
    pub open spec fn spec_cursor(self) -> int {
        self.idx as int
    }

    /// Whether no mismatched input has been consumed since the last reset.
    pub open spec fn spec_valid(self) -> bool {
        self.valid
    }

    /// The display name.
    pub open spec fn spec_name(self) -> Seq<char> {
        self.name@
    }

    /// The cosmetic class.
    pub open spec fn spec_class(self) -> StrategemClass {
        self.class
    }

    /// The difficulty bracket.
    pub open spec fn spec_difficulty(self) -> StrategemDifficulty {
        self.difficulty
    }

    /// A strategem is completed when it is still valid and the cursor has
    /// reached the end of the code.
    pub open spec fn spec_completed(self) -> bool {
        self.valid && self.idx == self.code@.len()
    }

    /// Whether two strategems share identity and code, differing at most in
    /// matcher state (cursor and validity).
    pub open spec fn same_identity(self, other: Strategem) -> bool {
        &&& self.name@ == other.name@
        &&& self.difficulty == other.difficulty
        &&& self.class == other.class
        &&& self.code@ == other.code@
    }

    /// Builds a strategem directly from its parts; the catalog builder is the
    /// usual way in.
    pub(crate) fn assemble(
        name: &'static str,
        difficulty: StrategemDifficulty,
        class: StrategemClass,
        code: Vec<StrategemKey>,
    ) -> (s: Strategem)
        requires
            code@.len() <= 16,
            difficulty == spec_difficulty_of(code@.len()),
        ensures
            s.wf(),
            s.spec_name() == name@,
            s.spec_difficulty() == difficulty,
            s.spec_class() == class,
            s.spec_code() == code@,
            s.spec_cursor() == 0,
            s.spec_valid(),
    {
        Strategem { name, difficulty, class, code, idx: 0, valid: true }
    }

    /// The display name.
    pub fn name(&self) -> (r: &str)
        ensures
            r@ == self.spec_name(),
    {
        self.name
    }

    /// The difficulty bracket.
    pub fn difficulty(&self) -> (r: &StrategemDifficulty)
        ensures
            *r == self.spec_difficulty(),
    {
        &self.difficulty
    }

    /// The cosmetic class.
    pub fn class(&self) -> (r: &StrategemClass)
        ensures
            *r == self.spec_class(),
    {
        &self.class
    }

    /// Number of symbols in the code.
    pub fn code_len(&self) -> (n: usize)
        ensures
            n == self.spec_code().len(),
    {
        self.code.len()
    }

    /// The code symbol at a position.
    pub fn key_at(&self, i: usize) -> (k: StrategemKey)
        requires
            i < self.spec_code().len(),
        ensures
            k == self.spec_code()[i as int],
    {
        self.code[i]
    }

    /// Current cursor position.
    pub fn cursor(&self) -> (i: usize)
        ensures
            i == self.spec_cursor(),
    {
        self.idx
    }

    /// Consumes one directional input: a no-op if the strategem is already
    /// completed or already invalid, otherwise the cursor advances by one and
    /// validity records whether the input matched.
    pub fn assert_key(&mut self, key: StrategemKey)
        requires
            old(self).wf(),
        ensures
            final(self).wf(),
            final(self).same_identity(*old(self)),
            (final(self).spec_cursor(), final(self).spec_valid()) == spec_step(
                old(self).spec_code(),
                old(self).spec_cursor(),
                old(self).spec_valid(),
                key,
            ),
    {
        if self.is_completed() || !self.is_valid() {
            return ;
        }
        if self.idx < self.code.len() {
            let matched = self.code[self.idx] == key;
            self.idx = self.idx + 1;
            self.valid = matched;
        }
    }

    /// Whether no mismatched input has been consumed since the last reset.
    pub fn is_valid(&self) -> (r: bool)
        ensures
            r == self.spec_valid(),
    {
        self.valid
    }

    /// Whether the whole code has been reproduced correctly.
    pub fn is_completed(&self) -> (r: bool)
        ensures
            r == self.spec_completed(),
    {
        self.valid && self.idx == self.code.len()
    }

    /// Restores the matcher to its fresh state: cursor at the start and valid
    /// again, with identity, code and difficulty unchanged.
    pub fn reset(&mut self)
        ensures
            old(self).wf() ==> final(self).wf(),
            final(self).same_identity(*old(self)),
            final(self).spec_cursor() == 0,
            final(self).spec_valid(),
    {
        self.idx = 0;
        self.valid = true;
    }
}

/// The difficulty brackets partition the possible code lengths: a code of 1
/// to 3 symbols is Easy, of 4 to 6 Medium, and of 7 or more Hard — each if
/// and only if.
pub proof fn lemma_difficulty_brackets(len: nat)
    requires
        1 <= len,
    ensures
        spec_difficulty_of(len) == StrategemDifficulty::Easy <==> 1 <= len <= 3,
        spec_difficulty_of(len) == StrategemDifficulty::Medium <==> 4 <= len <= 6,
        spec_difficulty_of(len) == StrategemDifficulty::Hard <==> len >= 7,
{
}

/// Running the matcher over the concatenation of two input sequences is the
/// same as running it over the first and then over the second.
pub proof fn lemma_run_concat(
    code: Seq<StrategemKey>,
    cursor: int,
    valid: bool,
    first: Seq<StrategemKey>,
    second: Seq<StrategemKey>,
)
    ensures
        spec_run(code, cursor, valid, first + second) == spec_run(
            code,
            spec_run(code, cursor, valid, first).0,
            spec_run(code, cursor, valid, first).1,
            second,
        ),
    decreases first.len(),
{
    if first.len() == 0 {
        assert(first + second =~= second);
    } else {
        let next = spec_step(code, cursor, valid, first[0]);
        assert((first + second).drop_first() =~= first.drop_first() + second);
        lemma_run_concat(code, next.0, next.1, first.drop_first(), second);
    }
}

/// Running the matcher over a single input is exactly one step.
pub proof fn lemma_run_one(code: Seq<StrategemKey>, cursor: int, valid: bool, key: StrategemKey)
    ensures
        spec_run(code, cursor, valid, seq![key]) == spec_step(code, cursor, valid, key),
{
    let next = spec_step(code, cursor, valid, key);
    assert(seq![key].drop_first() =~= Seq::<StrategemKey>::empty());
    assert(spec_run(code, next.0, next.1, Seq::<StrategemKey>::empty()) == next);
}

/// Feeding a fresh strategem the first `p` symbols of its own code leaves the
/// cursor at `p` with validity intact: reproducing the exact code yields a
/// valid, completed matcher, and no prefix of it ever reports invalid.
pub proof fn lemma_exact_prefix_stays_valid(code: Seq<StrategemKey>, p: int)
    requires
        0 <= p <= code.len(),
    ensures
        spec_run(code, 0, true, code.take(p)) == (p, true),
    decreases p,
{
    if p > 0 {
        lemma_exact_prefix_stays_valid(code, p - 1);
        assert(code.take(p) =~= code.take(p - 1) + seq![code[p - 1]]);
        lemma_run_concat(code, 0, true, code.take(p - 1), seq![code[p - 1]]);
        lemma_run_one(code, p - 1, true, code[p - 1]);
        assert(spec_step(code, p - 1, true, code[p - 1]) == (p, true));
    } else {
        assert(code.take(0) =~= Seq::<StrategemKey>::empty());
    }
}

/// Feeding a fresh strategem its exact code, symbol by symbol, ends with the
/// matcher valid and completed.
pub proof fn lemma_exact_code_completes(code: Seq<StrategemKey>)
    ensures
        spec_run(code, 0, true, code) == (code.len() as int, true),
{
    lemma_exact_prefix_stays_valid(code, code.len() as int);
    assert(code.take(code.len() as int) =~= code);
}

/// Once the matcher is invalid it stays invalid, and the cursor stays put,
/// whatever further inputs arrive.
pub proof fn lemma_invalid_persists(
    code: Seq<StrategemKey>,
    cursor: int,
    keys: Seq<StrategemKey>,
)
    ensures
        spec_run(code, cursor, false, keys) == (cursor, false),
    decreases keys.len(),
{
    if keys.len() > 0 {
        lemma_invalid_persists(code, cursor, keys.drop_first());
    }
}

/// Feeding one wrong symbol at any position makes the matcher invalid at that
/// very step, and it stays invalid under all further inputs until a reset.
pub proof fn lemma_wrong_symbol_invalidates(
    code: Seq<StrategemKey>,
    p: int,
    wrong: StrategemKey,
    rest: Seq<StrategemKey>,
)
    requires
        0 <= p < code.len(),
        wrong != code[p],
    ensures
        spec_run(code, 0, true, code.take(p) + seq![wrong] + rest) == (p + 1, false),
{
    lemma_exact_prefix_stays_valid(code, p);
    lemma_run_concat(code, 0, true, code.take(p), seq![wrong]);
    lemma_run_one(code, p, true, wrong);
    assert(spec_step(code, p, true, wrong) == (p + 1, false));
    assert(spec_run(code, 0, true, code.take(p) + seq![wrong]) == (p + 1, false));
    lemma_run_concat(code, 0, true, code.take(p) + seq![wrong], rest);
    lemma_invalid_persists(code, p + 1, rest);
}

} // verus!
