//! Writing a polynomial as text.
//!
//! The rules work on numerals: the sign of a coefficient and the text of
//! its absolute value. Any way of holding coefficients can therefore be
//! written by them, once it says how each coefficient reads.
use vstd::prelude::*;
use vstd::string::*;

verus! {

/// How a coefficient compares with zero.
#[derive(Debug, Clone, Copy, PartialEq, Eq, Structural)]
pub enum Sign {
    Negative,
    Zero,
    Positive,
    /// Neither below, at nor above zero: the coefficient is not a number.
    Undefined,
}

/// A coefficient as it is read: its sign and the text of its absolute
/// value.
#[derive(Debug)]
pub struct Numeral {
    pub sign: Sign,
    pub digits: String,
}

/// What a numeral says: its sign and the characters of its absolute value.
pub struct NumeralView {
    pub sign: Sign,
    pub digits: Seq<char>,
}

impl View for Numeral {
    type V = NumeralView;

    open spec fn view(&self) -> NumeralView {
        NumeralView { sign: self.sign, digits: self.digits@ }
    }
}

impl NumeralView {
    /// Whether the absolute value reads "1".
    pub open spec fn is_unit(self) -> bool {
        self.digits == seq!['1']
    }
}

/// The character of a decimal digit.
pub open spec fn digit(d: nat) -> char {
    if d == 0 {
        '0'
    } else if d == 1 {
        '1'
    } else if d == 2 {
        '2'
    } else if d == 3 {
        '3'
    } else if d == 4 {
        '4'
    } else if d == 5 {
        '5'
    } else if d == 6 {
        '6'
    } else if d == 7 {
        '7'
    } else if d == 8 {
        '8'
    } else {
        '9'
    }
}

/// The decimal text of `n`, without leading zeros.
pub open spec fn decimal(n: nat) -> Seq<char>
    decreases n,
{
    if n < 10 {
        seq![digit(n)]
    } else {
        decimal(n / 10).push(digit(n % 10))
    }
}

/// The sign of an integer.
pub open spec fn sign_of(v: int) -> Sign {
    if v < 0 {
        Sign::Negative
    } else if v == 0 {
        Sign::Zero
    } else {
        Sign::Positive
    }
}

/// `text` behind the separator that `sign` asks for: " + " for a positive
/// sign, " - " for a negative one, none otherwise.
pub open spec fn separated(sign: Sign, text: Seq<char>) -> Seq<char> {
    match sign {
        Sign::Positive => seq![' ', '+', ' '] + text,
        Sign::Negative => seq![' ', '-', ' '] + text,
        _ => text,
    }
}

/// The text of a term between the first and the last: nothing for zero,
/// else the separator, the absolute value unless it is one, and the suffix.
pub open spec fn middle_term(val: NumeralView, suffix: Seq<char>) -> Seq<char> {
    if val.sign == Sign::Zero {
        Seq::empty()
    } else if val.is_unit() {
        separated(val.sign, suffix)
    } else {
        separated(val.sign, val.digits + suffix)
    }
}

/// The text of the constant term: nothing for zero, else the separator and
/// the absolute value.
pub open spec fn constant_term(val: NumeralView) -> Seq<char> {
    if val.sign == Sign::Zero {
        Seq::empty()
    } else {
        separated(val.sign, val.digits)
    }
}

/// The text of the first term: nothing for zero, else a minus sign if the
/// coefficient is negative, the absolute value unless it is one, and the
/// suffix.
pub open spec fn leading_term(val: NumeralView, suffix: Seq<char>) -> Seq<char> {
    let bare = if val.is_unit() {
        suffix
    } else {
        val.digits + suffix
    };
    match val.sign {
        Sign::Zero => Seq::empty(),
        Sign::Negative => seq!['-'] + bare,
        _ => bare,
    }
}

/// What follows a coefficient of the given power: nothing, "x", or "x^"
/// and the power.
pub open spec fn suffix_of(power: nat) -> Seq<char> {
    if power == 0 {
        Seq::empty()
    } else if power == 1 {
        seq!['x']
    } else {
        seq!['x', '^'] + decimal(power)
    }
}

/// The text of the term at position `i` of `terms`, highest power first.
pub open spec fn term_text(terms: Seq<NumeralView>, i: int) -> Seq<char> {
    let power = (terms.len() - 1 - i) as nat;
    if i == 0 {
        leading_term(terms[i], suffix_of(power))
    } else if power == 0 {
        constant_term(terms[i])
    } else {
        middle_term(terms[i], suffix_of(power))
    }
}

/// The text of the first `n` terms of `terms`.
pub open spec fn rendered_prefix(terms: Seq<NumeralView>, n: nat) -> Seq<char>
    decreases n,
{
    if n == 0 {
        Seq::empty()
    } else {
        rendered_prefix(terms, (n - 1) as nat) + term_text(terms, n - 1)
    }
}

/// The text of a polynomial whose coefficients read as `terms`, highest
/// power first.
pub open spec fn rendered(terms: Seq<NumeralView>) -> Seq<char> {
    rendered_prefix(terms, terms.len())
}

/// What the numeral of an integer says.
pub open spec fn numeral_of(v: int) -> NumeralView {
    NumeralView {
        sign: sign_of(v),
        digits: decimal(
            (if v < 0 {
                -v
            } else {
                v
            }) as nat,
        ),
    }
}

/// What the numerals of a sequence of integers say.
pub open spec fn numerals_of(p: Seq<int>) -> Seq<NumeralView> {
    Seq::new(p.len(), |i: int| numeral_of(p[i]))
}

/// What a sequence of numerals says.
pub open spec fn views_of(terms: Seq<Numeral>) -> Seq<NumeralView> {
    Seq::new(terms.len(), |i: int| terms[i]@)
}

impl Numeral {
    /// The numeral with the given sign and text.
    pub fn new(sign: Sign, digits: String) -> (val: Numeral)
        ensures
            val.sign == sign,
            val.digits == digits,
    {
        Numeral { sign, digits }
    }

    /// The numeral of an integer.
    pub fn of(v: i64) -> (val: Numeral)
        ensures
            val@ == numeral_of(v as int),
    {
        if v < 0 {
            Numeral { sign: Sign::Negative, digits: decimal_text((-(v as i128)) as u64) }
        } else if v == 0 {
            Numeral { sign: Sign::Zero, digits: decimal_text(0) }
        } else {
            Numeral { sign: Sign::Positive, digits: decimal_text(v as u64) }
        }
    }

    /// Tells whether the absolute value reads "1".
    pub fn reads_one(&self) -> (unit: bool)
        ensures
            unit == self@.is_unit(),
    {
        proof {
            reveal_strlit("1");
            assert("1"@ =~= seq!['1']);
        }
        self.digits == "1".to_owned()
    }
}

/// The text of one decimal digit.
fn digit_text(d: u64) -> (text: &'static str)
    requires
        d < 10,
    ensures
        text@ == seq![digit(d as nat)],
{
    proof {
        reveal_strlit("0");
        reveal_strlit("1");
        reveal_strlit("2");
        reveal_strlit("3");
        reveal_strlit("4");
        reveal_strlit("5");
        reveal_strlit("6");
        reveal_strlit("7");
        reveal_strlit("8");
        reveal_strlit("9");
    }
    let text = if d == 0 {
        "0"
    } else if d == 1 {
        "1"
    } else if d == 2 {
        "2"
    } else if d == 3 {
        "3"
    } else if d == 4 {
        "4"
    } else if d == 5 {
        "5"
    } else if d == 6 {
        "6"
    } else if d == 7 {
        "7"
    } else if d == 8 {
        "8"
    } else {
        "9"
    };
    assert(text@ =~= seq![digit(d as nat)]);
    text
}

/// Writes `n` in decimal.
pub fn decimal_text(n: u64) -> (text: String)
    ensures
        text@ == decimal(n as nat),
    decreases n,
{
    if n < 10 {
        digit_text(n).to_owned()
    } else {
        let mut text = decimal_text(n / 10);
        text.append(digit_text(n % 10));
        text
    }
}

/// Puts the separator that `sign` asks for before `string`.
pub fn plus_minus(sign: Sign, string: String) -> (text: String)
    ensures
        text@ == separated(sign, string@),
{
    proof {
        reveal_strlit(" + ");
        reveal_strlit(" - ");
        assert(" + "@ =~= seq![' ', '+', ' ']);
        assert(" - "@ =~= seq![' ', '-', ' ']);
    }
    match sign {
        Sign::Positive => " + ".to_owned().concat(string.as_str()),
        Sign::Negative => " - ".to_owned().concat(string.as_str()),
        _ => string,
    }
}

/// Writes a term between the first and the last.
pub fn signed_val(val: &Numeral, suffix: String) -> (text: String)
    ensures
        text@ == middle_term(val@, suffix@),
{
    if val.reads_one() && val.sign != Sign::Zero {
        plus_minus(val.sign, suffix)
    } else if val.sign != Sign::Zero {
        let unsigned = val.digits.clone().concat(suffix.as_str());
        plus_minus(val.sign, unsigned)
    } else {
        String::new()
    }
}

/// Writes the constant term.
pub fn s_val_last(val: &Numeral) -> (text: String)
    ensures
        text@ == constant_term(val@),
{
    if val.sign == Sign::Zero {
        return String::new();
    }
    plus_minus(val.sign, val.digits.clone())
}

/// Writes the first term.
pub fn display_header(val: &Numeral, suffix: String) -> (text: String)
    ensures
        text@ == leading_term(val@, suffix@),
{
    proof {
        reveal_strlit("-");
        assert("-"@ =~= seq!['-']);
    }
    let bare = if val.reads_one() {
        suffix
    } else {
        val.digits.clone().concat(suffix.as_str())
    };
    match val.sign {
        Sign::Zero => String::new(),
        Sign::Negative => "-".to_owned().concat(bare.as_str()),
        _ => bare,
    }
}

/// Writes what follows a coefficient of the given power.
pub fn suffix_text(power: usize) -> (text: String)
    ensures
        text@ == suffix_of(power as nat),
{
    proof {
        reveal_strlit("x");
        reveal_strlit("x^");
        assert("x"@ =~= seq!['x']);
        assert("x^"@ =~= seq!['x', '^']);
    }
    if power == 0 {
        String::new()
    } else if power == 1 {
        "x".to_owned()
    } else {
        "x^".to_owned().concat(decimal_text(power as u64).as_str())
    }
}

/// Writes the polynomial whose coefficients read as `terms`, highest power
/// first.
pub fn render(terms: &Vec<Numeral>) -> (text: String)
    ensures
        text@ == rendered(views_of(terms@)),
{
    let mut text = String::new();
    let n = terms.len();
    let mut i: usize = 0;
    while i < n
        invariant
            n == terms.len(),
            i <= n,
            text@ == rendered_prefix(views_of(terms@), i as nat),
        decreases n - i,
    {
        let power = n - 1 - i;
        let term = if i == 0 {
            display_header(&terms[i], suffix_text(power))
        } else if power == 0 {
            s_val_last(&terms[i])
        } else {
            signed_val(&terms[i], suffix_text(power))
        };
        text.append(term.as_str());
        i = i + 1;
    }
    text
}

/// A polynomial whose coefficients are all zero is written as the empty
/// text.
pub proof fn lemma_zero_renders_empty(terms: Seq<NumeralView>)
    requires
        forall|i: int| 0 <= i < terms.len() ==> (#[trigger] terms[i]).sign == Sign::Zero,
    ensures
        rendered(terms) == Seq::<char>::empty(),
{
    lemma_zero_prefix_renders_empty(terms, terms.len());
}

/// The first `n` terms of a polynomial are written as the empty text when
/// their coefficients are all zero.
proof fn lemma_zero_prefix_renders_empty(terms: Seq<NumeralView>, n: nat)
    requires
        n <= terms.len(),
        forall|i: int| 0 <= i < terms.len() ==> (#[trigger] terms[i]).sign == Sign::Zero,
    ensures
        rendered_prefix(terms, n) == Seq::<char>::empty(),
    decreases n,
{
    if n > 0 {
        lemma_zero_prefix_renders_empty(terms, (n - 1) as nat);
        assert(terms[n - 1].sign == Sign::Zero);
    }
}

} // verus!
