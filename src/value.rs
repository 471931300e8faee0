//! Value types that a configuration entry can hold, and their string forms.
use vstd::prelude::*;

verus! {

/// The value type that an entry is declared with: one of the built-in types, or
/// `Other(n)` for a type of the library's user, told apart by the number `n`
/// that its `ConfValue` impl picks.
#[derive(Clone, Copy, Debug, PartialEq, Eq, Structural)]
pub enum ValKind {
    Text,
    U8,
    U16,
    U32,
    U64,
    I8,
    I16,
    I32,
    I64,
    Other(u64),
}

pub open spec fn is_digit(c: char) -> bool {
    48 <= (c as u32) && (c as u32) <= 57
}

pub open spec fn digit_val(c: char) -> int {
    (c as u32) as int - 48
}

pub open spec fn all_digits(s: Seq<char>) -> bool {
    forall|i: int| 0 <= i < s.len() ==> is_digit(#[trigger] s[i])
}

/// The number that a string of decimal digits denotes (leading zeros allowed).
pub open spec fn digits_value(s: Seq<char>) -> nat
    decreases s.len(),
{
    if s.len() == 0 {
        0
    } else {
        (digits_value(s.drop_last()) * 10 + digit_val(s.last())) as nat
    }
}

pub open spec fn digit_char(d: nat) -> char {
    if d == 0 { '0' }
    else if d == 1 { '1' }
    else if d == 2 { '2' }
    else if d == 3 { '3' }
    else if d == 4 { '4' }
    else if d == 5 { '5' }
    else if d == 6 { '6' }
    else if d == 7 { '7' }
    else if d == 8 { '8' }
    else { '9' }
}

/// The shortest decimal form of a natural number.
pub open spec fn decimal(n: nat) -> Seq<char>
    decreases n,
{
    if n < 10 {
        seq![digit_char(n)]
    } else {
        decimal(n / 10).push(digit_char(n % 10))
    }
}

/// The decimal form of an integer, with a leading `-` when it is negative.
pub open spec fn signed_decimal(i: int) -> Seq<char> {
    if i < 0 {
        seq!['-'] + decimal((-i) as nat)
    } else {
        decimal(i as nat)
    }
}

/// The digits of a string that may start with one `+`.
pub open spec fn unsigned_body(s: Seq<char>) -> Seq<char> {
    if s.len() > 0 && s[0] == '+' {
        s.drop_first()
    } else {
        s
    }
}

/// Reading an unsigned number: an optional `+`, then one or more decimal digits,
/// denoting at most `max`.
pub open spec fn parse_unsigned(s: Seq<char>, max: nat) -> Option<nat> {
    let b = unsigned_body(s);
    if b.len() > 0 && all_digits(b) && digits_value(b) <= max {
        Some(digits_value(b))
    } else {
        None
    }
}

/// Reading a signed number: an optional `+` or `-`, then one or more decimal
/// digits, denoting a value in `min..=max`.
pub open spec fn parse_signed(s: Seq<char>, min: int, max: int) -> Option<int> {
    if s.len() > 0 && s[0] == '-' {
        let b = s.drop_first();
        if b.len() > 0 && all_digits(b) && min <= -digits_value(b) {
            Some(-digits_value(b))
        } else {
            None
        }
    } else {
        let b = unsigned_body(s);
        if b.len() > 0 && all_digits(b) && digits_value(b) <= max {
            Some(digits_value(b) as int)
        } else {
            None
        }
    }
}

proof fn lemma_digit_char(d: nat)
    requires
        d < 10,
    ensures
        is_digit(digit_char(d)),
        digit_val(digit_char(d)) == d,
{
}

/// The decimal form of `n` is a non-empty run of digits that denotes `n`.
pub proof fn lemma_decimal(n: nat)
    ensures
        decimal(n).len() > 0,
        all_digits(decimal(n)),
        digits_value(decimal(n)) == n,
    decreases n,
{
    if n < 10 {
        lemma_digit_char(n);
        assert(decimal(n).drop_last() =~= Seq::<char>::empty());
        assert(digits_value(decimal(n)) == digits_value(decimal(n).drop_last()) * 10
            + digit_val(decimal(n).last()));
    } else {
        lemma_decimal(n / 10);
        lemma_digit_char(n % 10);
        let d = decimal(n);
        assert(d.drop_last() =~= decimal(n / 10));
        assert(d.last() == digit_char(n % 10));
        assert(digits_value(d) == digits_value(d.drop_last()) * 10 + digit_val(d.last()));
        assert((n / 10) * 10 + n % 10 == n);
        assert forall|i: int| 0 <= i < d.len() implies is_digit(#[trigger] d[i]) by {
            if i < d.len() - 1 {
                assert(d[i] == decimal(n / 10)[i]);
            }
        }
    }
}

proof fn lemma_unsigned_round_trip(n: nat, max: nat)
    requires
        n <= max,
    ensures
        parse_unsigned(decimal(n), max) == Some(n),
{
    lemma_decimal(n);
    assert(is_digit(decimal(n)[0]));
    assert(unsigned_body(decimal(n)) == decimal(n));
}

proof fn lemma_signed_round_trip(i: int, min: int, max: int)
    requires
        min <= i <= max,
    ensures
        parse_signed(signed_decimal(i), min, max) == Some(i),
{
    if i < 0 {
        let m = (-i) as nat;
        lemma_decimal(m);
        let s = signed_decimal(i);
        assert(s[0] == '-');
        assert(s.drop_first() =~= decimal(m));
    } else {
        lemma_decimal(i as nat);
        assert(is_digit(decimal(i as nat)[0]));
        assert(unsigned_body(decimal(i as nat)) == decimal(i as nat));
    }
}

/// Relies on `str::parse::<u64>`: an optional `+` and one or more ASCII digits,
/// whose value fits in `u64`; anything else is an error.
#[verifier::external_body]
fn parse_u64(s: &str) -> (r: Option<u64>)
    ensures
        r is Some <==> parse_unsigned(s@, u64::MAX as nat) is Some,
        r is Some ==> r->Some_0 as nat == parse_unsigned(s@, u64::MAX as nat)->Some_0,
{
    s.parse::<u64>().ok()
}

/// Relies on `str::parse::<i64>`: an optional `+` or `-` and one or more ASCII
/// digits, whose value fits in `i64`; anything else is an error.
#[verifier::external_body]
fn parse_i64(s: &str) -> (r: Option<i64>)
    ensures
        r is Some <==> parse_signed(s@, i64::MIN as int, i64::MAX as int) is Some,
        r is Some ==> r->Some_0 as int == parse_signed(s@, i64::MIN as int, i64::MAX as int)->Some_0,
{
    s.parse::<i64>().ok()
}

/// Relies on `u64`'s `Display` (through `to_string`): the shortest decimal form.
#[verifier::external_body]
fn render_u64(v: u64) -> (r: String)
    ensures
        r@ == decimal(v as nat),
{
    v.to_string()
}

/// Relies on `i64`'s `Display` (through `to_string`): the shortest decimal form,
/// with a leading `-` for a negative value.
#[verifier::external_body]
fn render_i64(v: i64) -> (r: String)
    ensures
        r@ == signed_decimal(v as int),
{
    v.to_string()
}

/// A type that a configuration value can have: it is rendered to a string and
/// read back from one, and reading back what was rendered gives the value again.
pub trait ConfValue: Sized + DeepView {
    spec fn kind_spec() -> ValKind;

    spec fn parse_spec(s: Seq<char>) -> Option<Self::V>;

    spec fn render_spec(v: Self::V) -> Seq<char>;

    /// The kind that an entry of this type is declared with.
    fn kind() -> (k: ValKind)
        ensures
            k == Self::kind_spec(),
    ;

    /// Reads a value from its string form; `None` where the string is not one.
    fn parse_str(s: &str) -> (r: Option<Self>)
        ensures
            r.deep_view() == Self::parse_spec(s@),
    ;

    /// The string form of the value.
    fn render(&self) -> (r: String)
        ensures
            r@ == Self::render_spec(self.deep_view()),
    ;

    /// Reading back the string form of a value gives that value.
    proof fn lemma_round_trip(v: Self::V)
        ensures
            Self::parse_spec(Self::render_spec(v)) == Some(v),
    ;
}

impl ConfValue for String {
    open spec fn kind_spec() -> ValKind {
        ValKind::Text
    }

    open spec fn parse_spec(s: Seq<char>) -> Option<Seq<char>> {
        Some(s)
    }

    open spec fn render_spec(v: Seq<char>) -> Seq<char> {
        v
    }

    fn kind() -> (k: ValKind) {
        ValKind::Text
    }

    fn parse_str(s: &str) -> (r: Option<String>) {
        Some(s.to_string())
    }

    fn render(&self) -> (r: String) {
        self.clone()
    }

    proof fn lemma_round_trip(v: Seq<char>) {
    }
}

impl ConfValue for u8 {
    open spec fn kind_spec() -> ValKind {
        ValKind::U8
    }

    open spec fn parse_spec(s: Seq<char>) -> Option<u8> {
        match parse_unsigned(s, u8::MAX as nat) {
            Some(n) => Some(n as u8),
            None => None,
        }
    }

    open spec fn render_spec(v: u8) -> Seq<char> {
        decimal(v as nat)
    }

    fn kind() -> (k: ValKind) {
        ValKind::U8
    }

    fn parse_str(s: &str) -> (r: Option<u8>) {
        match parse_u64(s) {
            Some(n) => if n <= u8::MAX as u64 {
                Some(n as u8)
            } else {
                None
            },
            None => None,
        }
    }

    fn render(&self) -> (r: String) {
        render_u64(*self as u64)
    }

    proof fn lemma_round_trip(v: u8) {
        lemma_unsigned_round_trip(v as nat, u8::MAX as nat);
    }
}

impl ConfValue for u16 {
    open spec fn kind_spec() -> ValKind {
        ValKind::U16
    }

    open spec fn parse_spec(s: Seq<char>) -> Option<u16> {
        match parse_unsigned(s, u16::MAX as nat) {
            Some(n) => Some(n as u16),
            None => None,
        }
    }

    open spec fn render_spec(v: u16) -> Seq<char> {
        decimal(v as nat)
    }

    fn kind() -> (k: ValKind) {
        ValKind::U16
    }

    fn parse_str(s: &str) -> (r: Option<u16>) {
        match parse_u64(s) {
            Some(n) => if n <= u16::MAX as u64 {
                Some(n as u16)
            } else {
                None
            },
            None => None,
        }
    }

    fn render(&self) -> (r: String) {
        render_u64(*self as u64)
    }

    proof fn lemma_round_trip(v: u16) {
        lemma_unsigned_round_trip(v as nat, u16::MAX as nat);
    }
}

impl ConfValue for u32 {
    open spec fn kind_spec() -> ValKind {
        ValKind::U32
    }

    open spec fn parse_spec(s: Seq<char>) -> Option<u32> {
        match parse_unsigned(s, u32::MAX as nat) {
            Some(n) => Some(n as u32),
            None => None,
        }
    }

    open spec fn render_spec(v: u32) -> Seq<char> {
        decimal(v as nat)
    }

    fn kind() -> (k: ValKind) {
        ValKind::U32
    }

    fn parse_str(s: &str) -> (r: Option<u32>) {
        match parse_u64(s) {
            Some(n) => if n <= u32::MAX as u64 {
                Some(n as u32)
            } else {
                None
            },
            None => None,
        }
    }

    fn render(&self) -> (r: String) {
        render_u64(*self as u64)
    }

    proof fn lemma_round_trip(v: u32) {
        lemma_unsigned_round_trip(v as nat, u32::MAX as nat);
    }
}

impl ConfValue for u64 {
    open spec fn kind_spec() -> ValKind {
        ValKind::U64
    }

    open spec fn parse_spec(s: Seq<char>) -> Option<u64> {
        match parse_unsigned(s, u64::MAX as nat) {
            Some(n) => Some(n as u64),
            None => None,
        }
    }

    open spec fn render_spec(v: u64) -> Seq<char> {
        decimal(v as nat)
    }

    fn kind() -> (k: ValKind) {
        ValKind::U64
    }

    fn parse_str(s: &str) -> (r: Option<u64>) {
        match parse_u64(s) {
            Some(n) => Some(n),
            None => None,
        }
    }

    fn render(&self) -> (r: String) {
        render_u64(*self as u64)
    }

    proof fn lemma_round_trip(v: u64) {
        lemma_unsigned_round_trip(v as nat, u64::MAX as nat);
    }
}

impl ConfValue for i8 {
    open spec fn kind_spec() -> ValKind {
        ValKind::I8
    }

    open spec fn parse_spec(s: Seq<char>) -> Option<i8> {
        match parse_signed(s, i8::MIN as int, i8::MAX as int) {
            Some(n) => Some(n as i8),
            None => None,
        }
    }

    open spec fn render_spec(v: i8) -> Seq<char> {
        signed_decimal(v as int)
    }

    fn kind() -> (k: ValKind) {
        ValKind::I8
    }

    fn parse_str(s: &str) -> (r: Option<i8>) {
        match parse_i64(s) {
            Some(n) => if i8::MIN as i64 <= n && n <= i8::MAX as i64 {
                Some(n as i8)
            } else {
                None
            },
            None => None,
        }
    }

    fn render(&self) -> (r: String) {
        render_i64(*self as i64)
    }

    proof fn lemma_round_trip(v: i8) {
        lemma_signed_round_trip(v as int, i8::MIN as int, i8::MAX as int);
    }
}

impl ConfValue for i16 {
    open spec fn kind_spec() -> ValKind {
        ValKind::I16
    }

    open spec fn parse_spec(s: Seq<char>) -> Option<i16> {
        match parse_signed(s, i16::MIN as int, i16::MAX as int) {
            Some(n) => Some(n as i16),
            None => None,
        }
    }

    open spec fn render_spec(v: i16) -> Seq<char> {
        signed_decimal(v as int)
    }

    fn kind() -> (k: ValKind) {
        ValKind::I16
    }

    fn parse_str(s: &str) -> (r: Option<i16>) {
        match parse_i64(s) {
            Some(n) => if i16::MIN as i64 <= n && n <= i16::MAX as i64 {
                Some(n as i16)
            } else {
                None
            },
            None => None,
        }
    }

    fn render(&self) -> (r: String) {
        render_i64(*self as i64)
    }

    proof fn lemma_round_trip(v: i16) {
        lemma_signed_round_trip(v as int, i16::MIN as int, i16::MAX as int);
    }
}

impl ConfValue for i32 {
    open spec fn kind_spec() -> ValKind {
        ValKind::I32
    }

    open spec fn parse_spec(s: Seq<char>) -> Option<i32> {
        match parse_signed(s, i32::MIN as int, i32::MAX as int) {
            Some(n) => Some(n as i32),
            None => None,
        }
    }

    open spec fn render_spec(v: i32) -> Seq<char> {
        signed_decimal(v as int)
    }

    fn kind() -> (k: ValKind) {
        ValKind::I32
    }

    fn parse_str(s: &str) -> (r: Option<i32>) {
        match parse_i64(s) {
            Some(n) => if i32::MIN as i64 <= n && n <= i32::MAX as i64 {
                Some(n as i32)
            } else {
                None
            },
            None => None,
        }
    }

    fn render(&self) -> (r: String) {
        render_i64(*self as i64)
    }

    proof fn lemma_round_trip(v: i32) {
        lemma_signed_round_trip(v as int, i32::MIN as int, i32::MAX as int);
    }
}

impl ConfValue for i64 {
    open spec fn kind_spec() -> ValKind {
        ValKind::I64
    }

    open spec fn parse_spec(s: Seq<char>) -> Option<i64> {
        match parse_signed(s, i64::MIN as int, i64::MAX as int) {
            Some(n) => Some(n as i64),
            None => None,
        }
    }

    open spec fn render_spec(v: i64) -> Seq<char> {
        signed_decimal(v as int)
    }

    fn kind() -> (k: ValKind) {
        ValKind::I64
    }

    fn parse_str(s: &str) -> (r: Option<i64>) {
        match parse_i64(s) {
            Some(n) => Some(n),
            None => None,
        }
    }

    fn render(&self) -> (r: String) {
        render_i64(*self as i64)
    }

    proof fn lemma_round_trip(v: i64) {
        lemma_signed_round_trip(v as int, i64::MIN as int, i64::MAX as int);
    }
}

} // verus!
