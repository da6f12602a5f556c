//! JSON number tokens: how two of them order, and the token of a decimal
//! literal read as a double.

use vstd::prelude::*;

verus! {

/// How one value stands to another.
#[derive(Clone, Copy, Debug, PartialEq, Eq, Structural)]
pub enum Comparison {
    Less,
    Equal,
    Greater,
}

/// A relation that an order can be asked for.
#[derive(Clone, Copy, Debug, PartialEq, Eq, Structural)]
pub enum Relation {
    Greater,
    Less,
    AtLeast,
    AtMost,
}

impl Relation {
    /// Whether two values that order as `order` says stand in the relation;
    /// values that do not order stand in none.
    pub open spec fn holds_for(self, order: Option<Comparison>) -> bool {
        match order {
            None => false,
            Some(c) => match self {
                Relation::Greater => c == Comparison::Greater,
                Relation::Less => c == Comparison::Less,
                Relation::AtLeast => c != Comparison::Less,
                Relation::AtMost => c != Comparison::Greater,
            },
        }
    }

    /// Whether two values that order as `order` says stand in the relation.
    pub fn holds(&self, order: Option<Comparison>) -> (r: bool)
        ensures
            r == self.holds_for(order),
    {
        match order {
            None => false,
            Some(c) => match self {
                Relation::Greater => c == Comparison::Greater,
                Relation::Less => c == Comparison::Less,
                Relation::AtLeast => c != Comparison::Less,
                Relation::AtMost => c != Comparison::Greater,
            },
        }
    }
}

/// How two JSON number tokens order when each is read as a double; `None`
/// where one of them is no JSON number.
pub uninterp spec fn number_token_order(a: Seq<char>, b: Seq<char>) -> Option<Comparison>;

/// The JSON number token of the double that a decimal literal denotes; `None`
/// where the text is no such literal or the double is not finite.
pub uninterp spec fn float_literal_token(text: Seq<char>) -> Option<Seq<char>>;

/// Reads both tokens with `serde_json::Number`'s `FromStr`, takes each as a
/// double with `serde_json::Number::as_f64`, and orders the two doubles with
/// `partial_cmp`. The result is a function of the two texts alone.
#[verifier::external_body]
pub(crate) fn compare_number_tokens(a: &str, b: &str) -> (r: Option<Comparison>)
    ensures
        r == number_token_order(a@, b@),
{
    let x = a.parse::<serde_json::Number>().ok().and_then(|n| n.as_f64())?;
    let y = b.parse::<serde_json::Number>().ok().and_then(|n| n.as_f64())?;
    match x.partial_cmp(&y) {
        Some(std::cmp::Ordering::Less) => Some(Comparison::Less),
        Some(std::cmp::Ordering::Equal) => Some(Comparison::Equal),
        Some(std::cmp::Ordering::Greater) => Some(Comparison::Greater),
        None => None,
    }
}

/// Reads the text as a double with `str::parse`, makes a number of it with
/// `serde_json::Number::from_f64` (which refuses what is not finite) and
/// renders that number with its `Display`. The result is a function of the
/// text alone.
#[verifier::external_body]
pub(crate) fn float_literal(text: &str) -> (r: Option<String>)
    ensures
        match r {
            Some(token) => float_literal_token(text@) == Some(token@),
            None => float_literal_token(text@) is None,
        },
{
    let value = text.parse().ok()?;
    serde_json::Number::from_f64(value).map(|n| n.to_string())
}

} // verus!
