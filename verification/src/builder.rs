//! Builder for catalog entries: accumulates up to 16 directional symbols and
//! stamps the finished strategem with the difficulty implied by its length.

use vstd::prelude::*;

use crate::strategem::{
    spec_difficulty_of, Strategem, StrategemClass, StrategemDifficulty, StrategemKey,
};

verus! {

/// Accumulates a directional code, one symbol at a time, for a fixed class.
pub struct StrategemBuilder {
    pub code: Vec<StrategemKey>,
    pub class: StrategemClass,
}

impl StrategemBuilder {
    /// The code after appending one symbol: the symbol is added at the end
    /// unless the 16-symbol frame is already full, in which case it is
    /// dropped.
    pub open spec fn spec_insert_code(self, value: StrategemKey) -> Seq<StrategemKey> {
        if self.code@.len() < 16 {
            self.code@.push(value)
        } else {
            self.code@
        }
    }

    /// An empty builder for the given class.
    pub fn new(class: StrategemClass) -> (b: StrategemBuilder)
        ensures
            b.code@ =~= Seq::<StrategemKey>::empty(),
            b.class == class,
    {
        StrategemBuilder { code: Vec::new(), class }
    }

    /// Appends an Up symbol.
    pub fn up(self) -> (b: StrategemBuilder)
        ensures
            b.code@ == self.spec_insert_code(StrategemKey::Up),
            b.class == self.class,
    {
        self.insert(StrategemKey::Up)
    }

    /// Appends a Down symbol.
    pub fn down(self) -> (b: StrategemBuilder)
        ensures
            b.code@ == self.spec_insert_code(StrategemKey::Down),
            b.class == self.class,
    {
        self.insert(StrategemKey::Down)
    }

    /// Appends a Left symbol.
    pub fn left(self) -> (b: StrategemBuilder)
        ensures
            b.code@ == self.spec_insert_code(StrategemKey::Left),
            b.class == self.class,
    {
        self.insert(StrategemKey::Left)
    }

    /// Appends a Right symbol.
    pub fn right(self) -> (b: StrategemBuilder)
        ensures
            b.code@ == self.spec_insert_code(StrategemKey::Right),
            b.class == self.class,
    {
        self.insert(StrategemKey::Right)
    }

    /// Finishes the strategem: cursor at the start, valid, with the
    /// difficulty implied by the accumulated code length.
    pub fn build(self, name: &'static str) -> (s: Strategem)
        requires
            self.code@.len() <= 16,
        ensures
            s.wf(),
            s.spec_name() == name@,
            s.spec_class() == self.class,
            s.spec_code() == self.code@,
            s.spec_difficulty() == spec_difficulty_of(self.code@.len()),
            s.spec_cursor() == 0,
            s.spec_valid(),
    {
        let len = self.code.len();
        let difficulty = if len <= 3 {
            StrategemDifficulty::Easy
        } else if len <= 6 {
            StrategemDifficulty::Medium
        } else {
            StrategemDifficulty::Hard
        };
        Strategem::assemble(name, difficulty, self.class, self.code)
    }

    fn insert(self, value: StrategemKey) -> (b: StrategemBuilder)
        ensures
            b.code@ == self.spec_insert_code(value),
            b.class == self.class,
    {
        let StrategemBuilder { mut code, class } = self;
        if code.len() < 16 {
            code.push(value);
        }
        StrategemBuilder { code, class }
    }
}

} // verus!
