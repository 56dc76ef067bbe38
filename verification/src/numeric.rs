//! The numeric value itself, the tokens it is decoded from, and the rule
//! that turns one into the other.

use vstd::prelude::*;
use crate::digits::{all_digits, decimal_text, decimal_value, is_digit, lemma_decimal_text_value, parse_u64, parse_u64_spec};
use crate::error::DecodeError;

verus! {

/// One value as a decoder presents it: a native unsigned integer, or text.
#[derive(Debug)]
pub enum Token {
    /// An unsigned integer literal, up to 64 bits wide.
    Integer(u64),
    /// A string, expected to hold decimal digits.
    Text(String),
}

/// What a token holds: the integer, or the characters of the text.
pub enum TokenView {
    Integer(u64),
    Text(Seq<char>),
}

impl View for Token {
    type V = TokenView;

    open spec fn view(&self) -> TokenView {
        match *self {
            Token::Integer(n) => TokenView::Integer(n),
            Token::Text(s) => TokenView::Text(s@),
        }
    }
}

impl Clone for Token {
    fn clone(&self) -> (copy: Self)
        ensures
            copy@ == self@,
    {
        match self {
            Token::Integer(n) => Token::Integer(*n),
            Token::Text(s) => Token::Text(s.clone()),
        }
    }
}

/// A strictly positive integer that fits in 32 bits.
#[derive(Clone, Copy, Debug, PartialEq, Eq, Structural)]
pub struct DerpNumeric {
    value: u32,
}

/// What decoding the native integer `n` gives, as the number held on
/// success: `n` itself where it lies in 1 ..= 2^32 - 1, a range error
/// elsewhere.
pub open spec fn decode_integer(n: u64) -> Result<nat, DecodeError> {
    if 1 <= n && n <= u32::MAX {
        Ok(n as nat)
    } else {
        Err(DecodeError::Range)
    }
}

/// What decoding the text `s` gives: a parse error where `s` does not read
/// as an unsigned 64-bit integer, and otherwise what decoding that integer
/// gives.
pub open spec fn decode_text(s: Seq<char>) -> Result<nat, DecodeError> {
    match parse_u64_spec(s) {
        Some(n) => decode_integer(n),
        None => Err(DecodeError::Parse),
    }
}

/// What decoding `token` gives, by its form.
pub open spec fn decode_token(token: TokenView) -> Result<nat, DecodeError> {
    match token {
        TokenView::Integer(n) => decode_integer(n),
        TokenView::Text(s) => decode_text(s),
    }
}

/// The outcome of a decode with the value replaced by the number it holds.
pub open spec fn outcome_view(r: Result<DerpNumeric, DecodeError>) -> Result<nat, DecodeError> {
    match r {
        Ok(v) => Ok(v@),
        Err(e) => Err(e),
    }
}

impl View for DerpNumeric {
    type V = nat;

    /// The number held.
    closed spec fn view(&self) -> nat {
        self.value as nat
    }
}

impl DerpNumeric {
    /// The invariant of every value: it is not zero. That it fits in 32 bits
    /// is given by its representation.
    #[verifier::type_invariant]
    pub closed spec fn wf(self) -> bool {
        self.value != 0
    }

    /// How a decoder should describe the input this type accepts.
    pub open spec fn expecting_spec() -> Seq<char> {
        "integer or string"@
    }

    /// How a decoder should describe the input this type accepts, for its
    /// own report when it meets a token of another shape.
    pub fn expecting() -> (text: &'static str)
        ensures
            text@ == Self::expecting_spec(),
    {
        "integer or string"
    }

    /// Narrows a native integer to a value. Zero and anything at or above
    /// 2^32 are out of range; nothing wraps.
    pub fn from_u64(n: u64) -> (r: Result<DerpNumeric, DecodeError>)
        ensures
            outcome_view(r) == decode_integer(n),
            r is Ok ==> r->Ok_0.wf(),
    {
        if n == 0 || n > 0xFFFF_FFFF {
            Err(DecodeError::Range)
        } else {
            Ok(DerpNumeric { value: n as u32 })
        }
    }

    /// Reads a value from text that holds decimal digits and nothing else.
    pub fn from_text(s: &str) -> (r: Result<DerpNumeric, DecodeError>)
        ensures
            outcome_view(r) == decode_text(s@),
            r is Ok ==> r->Ok_0.wf(),
    {
        match parse_u64(s) {
            Some(n) => Self::from_u64(n),
            None => Err(DecodeError::Parse),
        }
    }

    /// Decodes one token, of either form.
    pub fn decode(token: &Token) -> (r: Result<DerpNumeric, DecodeError>)
        ensures
            outcome_view(r) == decode_token(token@),
            r is Ok ==> r->Ok_0.wf(),
    {
        match token {
            Token::Integer(n) => Self::from_u64(*n),
            Token::Text(s) => Self::from_text(s.as_str()),
        }
    }

    /// The number held, which is never zero.
    pub fn get(&self) -> (n: u32)
        ensures
            n == self@,
            n >= 1,
    {
        proof {
            use_type_invariant(self);
        }
        self.value
    }

    /// The token a value is written as: its number and nothing round it.
    pub open spec fn encode_spec(self) -> TokenView {
        TokenView::Integer(self@ as u64)
    }

    /// Encodes the value as a native integer token. This cannot fail.
    pub fn encode(&self) -> (token: Token)
        ensures
            token@ == self.encode_spec(),
    {
        Token::Integer(self.value as u64)
    }

    /// A valid value holds a number from 1 to 2^32 - 1.
    pub proof fn lemma_view_range(self)
        requires
            self.wf(),
        ensures
            1 <= self@ <= u32::MAX,
    {
    }

    /// Two values are equal exactly when they hold the same number.
    pub proof fn lemma_equal_iff_same_number(self, other: DerpNumeric)
        ensures
            self == other <==> self@ == other@,
    {
    }
}

/// Decoding a native integer from 1 to 2^32 - 1 succeeds, and encoding the
/// value obtained gives that integer back: for every valid value `v` that is
/// an outcome of decoding `n`, `v` encodes to the integer token `n`.
pub proof fn lemma_decode_then_encode(n: u64, v: DerpNumeric)
    requires
        1 <= n <= u32::MAX,
        outcome_view(Ok(v)) == decode_integer(n),
    ensures
        decode_integer(n) == Ok::<nat, DecodeError>(n as nat),
        v.encode_spec() == TokenView::Integer(n),
{
}

/// Encoding a valid value and decoding the token obtained gives the value
/// back.
pub proof fn lemma_encode_then_decode(v: DerpNumeric)
    requires
        v.wf(),
    ensures
        decode_token(v.encode_spec()) == Ok::<nat, DecodeError>(v@),
{
    v.lemma_view_range();
}

/// A number decodes to the same outcome whether it comes as a native
/// integer or as its decimal text. This holds of every 64-bit `n`: inside
/// 1 ..= 2^32 - 1 both succeed with `n`, outside both are out of range.
pub proof fn lemma_text_integer_agree(n: u64)
    ensures
        decode_token(TokenView::Text(decimal_text(n as nat))) == decode_token(
            TokenView::Integer(n),
        ),
{
    lemma_decimal_text_value(n as nat);
}

/// Text that is empty, or that holds a character other than a decimal
/// digit, fails to parse.
pub proof fn lemma_malformed_text_rejected(s: Seq<char>)
    requires
        s.len() == 0 || exists|i: int| 0 <= i < s.len() && !is_digit(#[trigger] s[i]),
    ensures
        decode_text(s) == Err::<nat, DecodeError>(DecodeError::Parse),
{
}

/// Digits that denote a number above the 64-bit range fail to parse, rather
/// than being reported as out of range.
pub proof fn lemma_oversized_text_rejected(s: Seq<char>)
    requires
        decimal_value(s) > u64::MAX,
    ensures
        decode_text(s) == Err::<nat, DecodeError>(DecodeError::Parse),
{
}

/// Text is accepted exactly when it is a non-empty run of digits that
/// denotes a number from 1 to 2^32 - 1, and the value then holds that number.
pub proof fn lemma_text_accepted_iff(s: Seq<char>)
    ensures
        decode_text(s) is Ok <==> s.len() > 0 && all_digits(s) && 1 <= decimal_value(s) <= u32::MAX,
        decode_text(s) is Ok ==> decode_text(s) == Ok::<nat, DecodeError>(decimal_value(s)),
{
}

} // verus!
