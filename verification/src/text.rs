//! Fixed-width text for one row of the display: ASCII labels and decimal
//! numbers with one decimal place, left-aligned and padded with spaces.

use vstd::arithmetic::div_mod::{lemma_basic_div, lemma_fundamental_div_mod, lemma_mod_bound};
use vstd::prelude::*;
use vstd::string::StrSliceExecFns;

verus! {

/// Number of character cells in one display row.
pub const COLUMNS: usize = 16;

/// The space character, which fills unused cells.
pub const BLANK: u8 = 0x20;

/// A byte that the display's character generator shows as the ASCII
/// character of the same code.
pub open spec fn is_glyph(b: u8) -> bool {
    0x20 <= b <= 0x7D
}

/// Every byte of `s` is a glyph.
pub open spec fn all_glyphs(s: Seq<u8>) -> bool {
    forall|i: int| 0 <= i < s.len() ==> is_glyph(#[trigger] s[i])
}

/// Every character of `s` is one the display can show.
pub open spec fn is_plain_text(s: Seq<char>) -> bool {
    forall|i: int| 0 <= i < s.len() ==> 0x20 <= (#[trigger] s[i]) as int <= 0x7D
}

/// The bytes of an ASCII text, character by character.
pub open spec fn ascii(s: Seq<char>) -> Seq<u8> {
    Seq::new(s.len(), |i: int| s[i] as u8)
}

/// The ASCII digit for `d`, where `0 <= d <= 9`.
pub open spec fn digit(d: int) -> u8 {
    (0x30 + d) as u8
}

/// The decimal digits of `n`, most significant first, without leading zeros.
pub open spec fn decimal(n: nat) -> Seq<u8>
    decreases n,
{
    if n < 10 {
        seq![digit(n as int)]
    } else {
        decimal(n / 10).push(digit((n % 10) as int))
    }
}

/// A count of tenths written with one decimal place: `-125` is `-12.5`,
/// `7` is `0.7`.
pub open spec fn tenths_text(t: int) -> Seq<u8> {
    let m = if t < 0 { -t } else { t };
    let sign = if t < 0 { seq![0x2Du8] } else { Seq::<u8>::empty() };
    sign + decimal((m / 10) as nat) + seq![0x2Eu8, digit(m % 10)]
}

/// `value / per_tenth` rounded to the nearest integer, halves away from zero.
pub open spec fn round_tenths(value: int, per_tenth: int) -> int {
    if value >= 0 {
        (value + per_tenth / 2) / per_tenth
    } else {
        -((-value + per_tenth / 2) / per_tenth)
    }
}

/// `s` cut or filled with blanks to exactly `COLUMNS` cells.
pub open spec fn pad(s: Seq<u8>) -> Seq<u8> {
    Seq::new(COLUMNS as nat, |i: int| if i < s.len() { s[i] } else { BLANK })
}

/// Ten to the power `k`.
pub open spec fn pow10(k: nat) -> nat
    decreases k,
{
    if k == 0 {
        1
    } else {
        10 * pow10((k - 1) as nat)
    }
}

/// A number below `10^k` has at most `k` decimal digits, and every number
/// has at least one.
pub proof fn lemma_decimal_len(n: nat, k: nat)
    requires
        k >= 1,
        n < pow10(k),
    ensures
        1 <= decimal(n).len() <= k,
    decreases k,
{
    if n >= 10 {
        assert(pow10(1) == 10) by {
            reveal_with_fuel(pow10, 2);
        }
        lemma_decimal_len(n / 10, (k - 1) as nat);
    }
}

/// Decimal digits are glyphs.
pub proof fn lemma_decimal_glyphs(n: nat)
    ensures
        all_glyphs(decimal(n)),
    decreases n,
{
    if n >= 10 {
        lemma_decimal_glyphs(n / 10);
    }
}

/// The number that a sequence of ASCII digits writes in base ten.
pub open spec fn digits_value(s: Seq<u8>) -> int
    decreases s.len(),
{
    if s.len() == 0 {
        0
    } else {
        10 * digits_value(s.drop_last()) + (s.last() - 0x30)
    }
}

/// `decimal(n)` is the way to write `n`: its digits read back as `n`, each
/// is a digit, and the first is zero only for zero itself.
pub proof fn lemma_decimal_reads_back(n: nat)
    ensures
        decimal(n).len() >= 1,
        digits_value(decimal(n)) == n,
        forall|i: int| 0 <= i < decimal(n).len() ==> 0x30 <= #[trigger] decimal(n)[i] <= 0x39,
        decimal(n)[0] == 0x30 <==> n == 0,
    decreases n,
{
    reveal_with_fuel(digits_value, 2);
    if n >= 10 {
        lemma_decimal_reads_back(n / 10);
        assert(decimal(n).drop_last() =~= decimal(n / 10));
    }
}

/// Rounding to tenths goes to a nearest tenth: the result is off by at most
/// half a tenth.
pub proof fn lemma_round_tenths_is_nearest(value: int, per_tenth: int)
    requires
        per_tenth >= 1,
    ensures
        2 * (value - round_tenths(value, per_tenth) * per_tenth) <= per_tenth,
        2 * (round_tenths(value, per_tenth) * per_tenth - value) <= per_tenth,
        value >= 0 ==> round_tenths(value, per_tenth) >= 0,
        value <= 0 ==> round_tenths(value, per_tenth) <= 0,
{
    let half = per_tenth / 2;
    let shifted = if value >= 0 { value + half } else { -value + half };
    let q = shifted / per_tenth;
    lemma_fundamental_div_mod(shifted, per_tenth);
    lemma_mod_bound(shifted, per_tenth);
    lemma_fundamental_div_mod(per_tenth, 2);
    lemma_mod_bound(per_tenth, 2);
    assert(q * per_tenth == per_tenth * q) by (nonlinear_arith);
    assert((-q) * per_tenth == -(per_tenth * q)) by (nonlinear_arith);
    if value == 0 {
        lemma_basic_div(half, per_tenth);
    }
}

/// The absolute value of `t`.
pub fn magnitude(t: i64) -> (m: u64)
    ensures
        m == if t < 0 { -(t as int) } else { t as int },
{
    if t >= 0 {
        t as u64
    } else {
        (-(t + 1)) as u64 + 1
    }
}

/// Converts a reading in units of which `per_tenth` make one tenth into
/// tenths, rounding to the nearest and halves away from zero.
pub fn tenths_of(value: i64, per_tenth: u32) -> (t: i64)
    requires
        per_tenth >= 1,
        value + per_tenth / 2 <= i64::MAX,
        per_tenth / 2 - value <= i64::MAX,
    ensures
        t == round_tenths(value as int, per_tenth as int),
{
    let p: i64 = per_tenth as i64;
    if value >= 0 {
        (value + p / 2) / p
    } else {
        -((p / 2 - value) / p)
    }
}

/// A row under construction: the text written so far, at most `COLUMNS`
/// bytes of it.
pub struct LineBuilder {
    cells: [u8; 16],
    used: usize,
}

impl View for LineBuilder {
    type V = Seq<u8>;

    closed spec fn view(&self) -> Seq<u8> {
        self.cells@.subrange(0, self.used as int)
    }
}

impl LineBuilder {
    #[verifier::type_invariant]
    spec fn inv(self) -> bool {
        &&& self.used <= 16
        &&& forall|i: int| self.used <= i < 16 ==> self.cells@[i] == BLANK
        &&& forall|i: int| 0 <= i < self.used ==> is_glyph(#[trigger] self.cells@[i])
    }

    /// An empty row.
    pub fn new() -> (b: LineBuilder)
        ensures
            b@ == Seq::<u8>::empty(),
    {
        LineBuilder { cells: [0x20u8; 16], used: 0 }
    }

    /// The number of cells still free.
    pub fn room(&self) -> (r: usize)
        ensures
            self@.len() + r == COLUMNS,
    {
        proof {
            use_type_invariant(self);
        }
        16 - self.used
    }

    /// Appends one glyph.
    pub fn push(&mut self, b: u8)
        requires
            old(self)@.len() < COLUMNS,
            is_glyph(b),
        ensures
            final(self)@ == old(self)@.push(b),
    {
        proof {
            use_type_invariant(&*self);
        }
        let at: usize = self.used;
        self.used = at + 1;
        self.cells[at] = b;
    }

    /// Appends an ASCII text.
    pub fn push_text(&mut self, s: &str)
        requires
            is_plain_text(s@),
            old(self)@.len() + s@.len() <= COLUMNS,
        ensures
            final(self)@ == old(self)@ + ascii(s@),
    {
        let n: usize = s.unicode_len();
        let mut i: usize = 0;
        while i < n
            invariant
                i <= n,
                n == s@.len(),
                is_plain_text(s@),
                old(self)@.len() + n <= COLUMNS,
                self@ == old(self)@ + ascii(s@).subrange(0, i as int),
            decreases n - i,
        {
            let c: char = s.get_char(i);
            self.push(c as u8);
            i = i + 1;
        }
    }

    /// Appends the decimal digits of `n`.
    pub fn push_decimal(&mut self, n: u64)
        requires
            old(self)@.len() + decimal(n as nat).len() <= COLUMNS,
        ensures
            final(self)@ == old(self)@ + decimal(n as nat),
    {
        // The digits come out least significant first: collect them from the
        // right end of a buffer, then append them in reading order.
        let mut digits: [u8; 20] = [0x30u8; 20];
        let mut first: usize = 19;
        let mut rest: u64 = n / 10;
        digits[19] = 0x30u8 + (n % 10) as u8;
        proof {
            assert(pow10(20) == 100_000_000_000_000_000_000nat) by {
                reveal_with_fuel(pow10, 21);
            }
            lemma_decimal_len(n as nat, 20);
            lemma_decimal_glyphs(n as nat);
        }
        while rest > 0
            invariant
                first < 20,
                decimal(n as nat).len() <= 20,
                rest > 0 ==> decimal(n as nat) == decimal(rest as nat) + digits@.subrange(
                    first as int,
                    20,
                ),
                rest == 0 ==> decimal(n as nat) == digits@.subrange(first as int, 20),
            decreases rest,
        {
            proof {
                lemma_decimal_reads_back(rest as nat);
            }
            first = first - 1;
            digits[first] = 0x30u8 + (rest % 10) as u8;
            rest = rest / 10;
        }
        let ghost before = self@;
        let mut at: usize = first;
        while at < 20
            invariant
                first <= at <= 20,
                decimal(n as nat) == digits@.subrange(first as int, 20),
                all_glyphs(decimal(n as nat)),
                before.len() + decimal(n as nat).len() <= COLUMNS,
                self@ == before + digits@.subrange(first as int, at as int),
            decreases 20 - at,
        {
            proof {
                assert(digits@[at as int] == decimal(n as nat)[at - first]);
            }
            self.push(digits[at]);
            at = at + 1;
        }
    }

    /// Appends a count of tenths with one decimal place.
    pub fn push_tenths(&mut self, t: i64)
        requires
            old(self)@.len() + tenths_text(t as int).len() <= COLUMNS,
        ensures
            final(self)@ == old(self)@ + tenths_text(t as int),
    {
        let m: u64 = magnitude(t);
        if t < 0 {
            self.push(0x2Du8);
        }
        self.push_decimal(m / 10);
        self.push(0x2Eu8);
        self.push(0x30u8 + (m % 10) as u8);
    }

    /// The finished row: the text, then blanks up to the last column.
    pub fn finish(self) -> (row: [u8; 16])
        ensures
            row@ == pad(self@),
            all_glyphs(row@),
    {
        proof {
            use_type_invariant(&self);
        }
        self.cells
    }
}

} // verus!
