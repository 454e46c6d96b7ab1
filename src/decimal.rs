use vstd::prelude::*;

verus! {

/// Relies on `String::push`: the character is appended at the end.
pub assume_specification[ String::push ](s: &mut String, ch: char)
    ensures
        final(s)@ == old(s)@.push(ch),
;

/// The largest number of fractional digits a `Decimal` may carry: `10^19`
/// is the largest power of ten that fits in a `u64`.
pub const MAX_SCALE: u8 = 19;

/// Ten to the power `n`.
pub open spec fn pow10(n: nat) -> nat
    decreases n,
{
    if n == 0 {
        1
    } else {
        10 * pow10((n - 1) as nat)
    }
}

/// The character of the decimal digit `d`.
pub open spec fn digit_char(d: nat) -> char {
    "0123456789"@[d as int]
}

proof fn lemma_pow10_mono(a: nat, b: nat)
    requires
        a <= b,
    ensures
        1 <= pow10(a) <= pow10(b),
    decreases b,
{
    if a < b {
        lemma_pow10_mono(a, (b - 1) as nat);
    } else if a > 0 {
        lemma_pow10_mono((a - 1) as nat, (a - 1) as nat);
    }
}

fn digit(d: u64) -> (c: char)
    requires
        d < 10,
    ensures
        c == digit_char(d as nat),
{
    proof {
        reveal_strlit("0123456789");
    }
    "0123456789".get_char(d as usize)
}

/// Appends the decimal digits of `n`.
pub fn write_nat(out: &mut String, n: u64)
    ensures
        final(out)@ == old(out)@ + nat_text(n as nat),
    decreases n,
{
    if n >= 10 {
        write_nat(out, n / 10);
    }
    out.push(digit(n % 10));
    assert(final(out)@ =~= old(out)@ + nat_text(n as nat));
}

/// Appends the last `width` decimal digits of `n`, zero-padded.
fn write_padded(out: &mut String, n: u64, width: u8)
    ensures
        final(out)@ == old(out)@ + padded_text(n as nat, width as nat),
    decreases width,
{
    if width > 0 {
        write_padded(out, n / 10, width - 1);
        out.push(digit(n % 10));
    }
    assert(final(out)@ =~= old(out)@ + padded_text(n as nat, width as nat));
}

/// The decimal digits of `n`, most significant first, without leading zeros
/// (zero is written `0`).
pub open spec fn nat_text(n: nat) -> Seq<char>
    decreases n,
{
    if n < 10 {
        seq![digit_char(n)]
    } else {
        nat_text(n / 10).push(digit_char(n % 10))
    }
}

/// The last `width` decimal digits of `n`, padded on the left with zeros.
pub open spec fn padded_text(n: nat, width: nat) -> Seq<char>
    decreases width,
{
    if width == 0 {
        Seq::empty()
    } else {
        padded_text(n / 10, (width - 1) as nat).push(digit_char(n % 10))
    }
}

/// A non-negative decimal number `units / 10^scale`, as it is written in a
/// JSON document: the integer part, a point, and exactly `scale` fractional
/// digits. `0.95` is `(95, 2)`, `20.0` is `(200, 1)`.
pub struct Decimal {
    units: u64,
    scale: u8,
}

impl View for Decimal {
    type V = (nat, nat);

    closed spec fn view(&self) -> (nat, nat) {
        (self.units as nat, self.scale as nat)
    }
}

impl Decimal {
    #[verifier::type_invariant]
    closed spec fn inv(self) -> bool {
        1 <= self.scale <= MAX_SCALE
    }

    /// The number `units / 10^scale`, to be written with `scale` fractional
    /// digits.
    pub fn new(units: u64, scale: u8) -> (r: Decimal)
        requires
            1 <= scale <= MAX_SCALE,
        ensures
            r@ == (units as nat, scale as nat),
    {
        Decimal { units, scale }
    }

    pub fn units(&self) -> (r: u64)
        ensures
            r as nat == self@.0,
    {
        self.units
    }

    pub fn scale(&self) -> (r: u8)
        ensures
            r as nat == self@.1,
            1 <= r <= MAX_SCALE,
    {
        proof {
            use_type_invariant(self);
        }
        self.scale
    }

    /// Appends the JSON text of this number.
    pub fn write_json(&self, out: &mut String)
        ensures
            final(out)@ == old(out)@ + self.text(),
    {
        proof {
            use_type_invariant(self);
        }
        let mut p: u64 = 1;
        let mut i: u8 = 0;
        while i < self.scale
            invariant
                i <= self.scale <= MAX_SCALE,
                p as nat == pow10(i as nat),
            decreases self.scale - i,
        {
            proof {
                lemma_pow10_mono((i + 1) as nat, 19);
                reveal_with_fuel(pow10, 20);
                assert(pow10(19) == 10000000000000000000nat);
            }
            p = p * 10;
            i = i + 1;
        }
        proof {
            lemma_pow10_mono(0, i as nat);
        }
        write_nat(out, self.units / p);
        out.push('.');
        write_padded(out, self.units % p, self.scale);
        assert(final(out)@ =~= old(out)@ + self.text());
    }

    /// The JSON text of this number.
    pub open spec fn text(&self) -> Seq<char> {
        nat_text(self@.0 / pow10(self@.1)) + seq!['.'] + padded_text(
            self@.0 % pow10(self@.1),
            self@.1,
        )
    }
}

/// The texts of the small decimals that the canned document holds.
pub proof fn lemma_small_texts(d: Decimal)
    ensures
        d@ == (0nat, 1nat) ==> d.text() == "0.0"@,
        d@ == (11nat, 1nat) ==> d.text() == "1.1"@,
        d@ == (20nat, 1nat) ==> d.text() == "2.0"@,
        d@ == (95nat, 2nat) ==> d.text() == "0.95"@,
        d@ == (200nat, 1nat) ==> d.text() == "20.0"@,
{
    reveal_with_fuel(pow10, 3);
    reveal_with_fuel(padded_text, 3);
    reveal_with_fuel(nat_text, 3);
    reveal_strlit("0123456789");
    reveal_strlit("0.0");
    reveal_strlit("1.1");
    reveal_strlit("2.0");
    reveal_strlit("0.95");
    reveal_strlit("20.0");
    if d@ == (0nat, 1nat) {
        assert(d.text() =~= "0.0"@);
    }
    if d@ == (11nat, 1nat) {
        assert(d.text() =~= "1.1"@);
    }
    if d@ == (20nat, 1nat) {
        assert(nat_text(2) =~= seq!['2']);
        assert(padded_text(0, 1) =~= seq!['0']);
        assert(d.text() =~= "2.0"@);
    }
    if d@ == (95nat, 2nat) {
        assert(pow10(2) == 100);
        assert(nat_text(0) =~= seq!['0']);
        assert(padded_text(9, 1) =~= seq!['9']);
        assert(padded_text(95, 2) =~= seq!['9', '5']);
        assert(d.text() =~= "0.95"@);
    }
    if d@ == (200nat, 1nat) {
        assert(d.text() =~= "20.0"@);
    }
}

} // verus!
