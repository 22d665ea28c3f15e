//! Parameters of the handlers: linear ranges and translation tables.

use vstd::prelude::*;

use crate::text::{fixed_point_text, MAX_SCALE};

verus! {

/// What a translation renders for a code that its table does not hold.
pub const NOT_MEANINGFUL: &'static str = "value is not meaningful";

/// An affine map from the codes `code_min, code_min + code_step, ...` up to
/// `code_max` onto decoded values.
///
/// Decoded values are fixed-point numbers: `decode_min` and `decode_step` count
/// units of `10^-scale`, so `decode_min: 7, scale: 1` stands for 0.7. The code
/// `code_min` decodes to `decode_min`, and each further `code_step` codes add
/// `decode_step`. No consistency is checked on construction.
pub struct Range {
    pub decode_min: i32,
    pub decode_step: i32,
    pub scale: u8,
    pub code_min: u8,
    pub code_step: u8,
    pub code_max: u8,
    pub unit: String,
}

/// `a / c` rounded toward zero.
pub open spec fn div_toward_zero(a: int, c: int) -> int {
    if a >= 0 {
        a / c
    } else {
        -((-a) / c)
    }
}

impl Range {
    /// The step is positive and the scale small enough to compute with.
    pub open spec fn well_formed(&self) -> bool {
        self.code_step > 0 && self.scale <= MAX_SCALE
    }

    /// `b` is one of the codes of the range.
    pub open spec fn covers(&self, b: u8) -> bool {
        &&& self.code_min <= b <= self.code_max
        &&& (b - self.code_min) % (self.code_step as int) == 0
    }

    /// The decoded value of `b`, in units of `10^-scale`:
    /// `decode_min + (b - code_min) * (decode_step / code_step)`, rounded
    /// toward `decode_min` for a code between two grid points.
    pub open spec fn decoded(&self, b: u8) -> int {
        self.decode_min + div_toward_zero(
            (b - self.code_min) * self.decode_step,
            self.code_step as int,
        )
    }

    /// The decoded value of `b` followed by the unit.
    pub open spec fn text(&self, b: u8) -> Seq<char> {
        fixed_point_text(self.decoded(b), self.scale as nat) + self.unit@
    }

    /// Computes `decoded(b)`.
    pub fn decode(&self, b: u8) -> (v: i64)
        requires
            self.well_formed(),
        ensures
            v == self.decoded(b),
    {
        let delta: i64 = b as i64 - self.code_min as i64;
        let step_size: i64 = self.decode_step as i64;
        assert(-0x80_0000_0000 <= delta * step_size <= 0x80_0000_0000) by (nonlinear_arith)
            requires
                -255 <= delta <= 255,
                -0x8000_0000 <= step_size <= 0x8000_0000,
        ;
        let offset: i64 = delta * step_size;
        let step: u64 = self.code_step as u64;
        let scaled: i64 = if offset >= 0 {
            (offset as u64 / step) as i64
        } else {
            0 - ((0 - offset) as u64 / step) as i64
        };
        self.decode_min as i64 + scaled
    }
}

/// A table from codes to display strings: `code[i]` renders as `decode[i]`.
pub struct Translation {
    pub code: Vec<u8>,
    pub decode: Vec<String>,
}

/// The entry of `decodes` beside the first occurrence of `b` in `codes`, or
/// `NOT_MEANINGFUL` where `b` does not occur.
pub open spec fn lookup(codes: Seq<u8>, decodes: Seq<Seq<char>>, b: u8) -> Seq<char>
    decreases codes.len(),
{
    if codes.len() == 0 || decodes.len() == 0 {
        NOT_MEANINGFUL@
    } else if codes[0] == b {
        decodes[0]
    } else {
        lookup(codes.drop_first(), decodes.drop_first(), b)
    }
}

impl Translation {
    /// The display strings as text.
    pub open spec fn decodes(&self) -> Seq<Seq<char>> {
        self.decode@.map_values(|s: String| s@)
    }

    /// Both sequences have the same length.
    pub open spec fn well_formed(&self) -> bool {
        self.code.len() == self.decode.len()
    }

    /// What `b` renders as.
    pub open spec fn text(&self, b: u8) -> Seq<char> {
        lookup(self.code@, self.decodes(), b)
    }

    /// Looks `b` up in the table.
    pub fn translate(&self, b: u8) -> (r: String)
        requires
            self.well_formed(),
        ensures
            r@ == self.text(b),
    {
        let n = self.code.len();
        let mut i: usize = 0;
        assert(self.code@.skip(0) =~= self.code@);
        assert(self.decodes().skip(0) =~= self.decodes());
        while i < n
            invariant
                n == self.code.len() == self.decode.len(),
                i <= n,
                lookup(self.code@, self.decodes(), b) == lookup(
                    self.code@.skip(i as int),
                    self.decodes().skip(i as int),
                    b,
                ),
            decreases n - i,
        {
            assert(self.code@.skip(i as int).drop_first() =~= self.code@.skip(i + 1));
            assert(self.decodes().skip(i as int).drop_first() =~= self.decodes().skip(i + 1));
            if self.code[i] == b {
                return self.decode[i].clone();
            }
            i = i + 1;
        }
        String::from_str(NOT_MEANINGFUL)
    }
}

/// Where `b` first occurs at `i` in `codes`, the lookup gives `decodes[i]`.
pub proof fn lemma_lookup_found(codes: Seq<u8>, decodes: Seq<Seq<char>>, b: u8, i: int)
    requires
        codes.len() == decodes.len(),
        0 <= i < codes.len(),
        codes[i] == b,
        forall|j: int| 0 <= j < i ==> codes[j] != b,
    ensures
        lookup(codes, decodes, b) == decodes[i],
    decreases i,
{
    if i > 0 {
        lemma_lookup_found(codes.drop_first(), decodes.drop_first(), b, i - 1);
    }
}

/// Where `b` does not occur in `codes`, the lookup gives `NOT_MEANINGFUL`.
pub proof fn lemma_lookup_absent(codes: Seq<u8>, decodes: Seq<Seq<char>>, b: u8)
    requires
        forall|j: int| 0 <= j < codes.len() ==> codes[j] != b,
    ensures
        lookup(codes, decodes, b) == NOT_MEANINGFUL@,
    decreases codes.len(),
{
    if codes.len() > 0 && decodes.len() > 0 {
        assert(codes[0] != b);
        lemma_lookup_absent(codes.drop_first(), decodes.drop_first(), b);
    }
}

} // verus!
