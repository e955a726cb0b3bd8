//! The trust level of a caller.

use crate::text::str_eq;
use std::cmp::Ordering;
use vstd::prelude::*;
use vstd::std_specs::cmp::PartialOrdIs;
use vstd::std_specs::cmp::PartialOrdSpec;

verus! {

/// How far a caller is trusted, from the lowest level to the highest.
#[derive(Clone, Copy, Debug, PartialEq, Eq, Structural)]
pub enum Trust {
    Public,
    Authenticated,
    Vouched,
    Ndaed,
    Staff,
}

/// Why a trust level was refused.
#[derive(Clone, Copy, Debug, PartialEq, Eq, Structural)]
pub enum TrustError {
    /// The token spells no trust level.
    InvalidTrustLevel,
    /// The level is valid but below a required minimum. No conversion here
    /// returns it: it is for callers that enforce such a minimum.
    TrustLevelToLow,
}

impl Trust {
    /// The place of a level in the order, counted from the lowest:
    /// `Public` is the lowest level and `Staff` the highest.
    pub open spec fn rank(self) -> nat {
        match self {
            Trust::Public => 0,
            Trust::Authenticated => 1,
            Trust::Vouched => 2,
            Trust::Ndaed => 3,
            Trust::Staff => 4,
        }
    }

    /// The canonical spelling of a level.
    pub open spec fn token(self) -> Seq<char> {
        match self {
            Trust::Public => "public"@,
            Trust::Authenticated => "authenticated"@,
            Trust::Vouched => "vouched"@,
            Trust::Ndaed => "ndaed"@,
            Trust::Staff => "staff"@,
        }
    }

    /// How a level stands to another: by their ranks.
    pub open spec fn compare(self, other: Trust) -> Ordering {
        if self.rank() < other.rank() {
            Ordering::Less
        } else if self.rank() == other.rank() {
            Ordering::Equal
        } else {
            Ordering::Greater
        }
    }

    /// What reading the token `s` gives: the level that `s` spells, or the
    /// error for a token that spells none.
    pub open spec fn parse(s: Seq<char>) -> Result<Trust, TrustError> {
        if exists|t: Trust| t.token() == s {
            Ok(choose|t: Trust| t.token() == s)
        } else {
            Err(TrustError::InvalidTrustLevel)
        }
    }

    /// No two levels share a spelling.
    pub proof fn lemma_tokens_distinct(a: Trust, b: Trust)
        ensures
            a.token() == b.token() <==> a == b,
    {
        reveal_strlit("public");
        reveal_strlit("authenticated");
        reveal_strlit("vouched");
        reveal_strlit("ndaed");
        reveal_strlit("staff");
        if a != b {
            assert(a.token().len() != b.token().len() || a.token()[0] != b.token()[0]);
        }
    }

    /// Reading and spelling are inverse to each other: a token reads as the
    /// level `t` exactly when it is the canonical spelling of `t`, so the
    /// spelling of a level reads as that level again.
    pub proof fn lemma_parse_inverts_token(s: Seq<char>, t: Trust)
        ensures
            Trust::parse(s) == Ok::<Trust, TrustError>(t) <==> s == t.token(),
            Trust::parse(t.token()) == Ok::<Trust, TrustError>(t),
    {
        if exists|u: Trust| u.token() == s {
            let read = choose|u: Trust| u.token() == s;
            Self::lemma_tokens_distinct(read, t);
        }
        let back = choose|u: Trust| u.token() == t.token();
        Self::lemma_tokens_distinct(back, t);
    }

    /// A token that is the canonical spelling of no level is refused as an
    /// invalid trust level, and reading fails in no other way.
    pub proof fn lemma_parse_refuses_others(s: Seq<char>)
        ensures
            Trust::parse(s) is Err <==> forall|t: Trust| t.token() != s,
            Trust::parse(s) matches Err(e) ==> e == TrustError::InvalidTrustLevel,
    {
    }

    /// Reading is exact in case: a token that holds anything but lower-case
    /// letters is refused, and so is the empty token.
    pub proof fn lemma_parse_needs_lower_case(s: Seq<char>)
        requires
            s.len() == 0 || exists|i: int| 0 <= i < s.len() && !('a' <= #[trigger] s[i] <= 'z'),
        ensures
            Trust::parse(s) matches Err(e) && e == TrustError::InvalidTrustLevel,
    {
        reveal_strlit("public");
        reveal_strlit("authenticated");
        reveal_strlit("vouched");
        reveal_strlit("ndaed");
        reveal_strlit("staff");
        assert forall|t: Trust| t.token() != s by {
            if s.len() != 0 {
                let i = choose|i: int| 0 <= i < s.len() && !('a' <= #[trigger] s[i] <= 'z');
                if t.token().len() == s.len() {
                    assert(t.token()[i] != s[i]);
                }
            }
        }
    }

    /// Levels are ordered by their rank: one that stands before another is
    /// less than it, and two levels compare as equal only when they are the
    /// same level.
    pub proof fn lemma_order_by_rank(a: Trust, b: Trust)
        ensures
            a.rank() < b.rank() <==> a.compare(b) == Ordering::Less,
            a == b <==> a.compare(b) == Ordering::Equal,
            a.rank() > b.rank() <==> a.compare(b) == Ordering::Greater,
            a.partial_cmp_spec(&b) == Some(a.compare(b)),
            a.rank() < b.rank() <==> a.is_lt(&b),
            a.rank() <= b.rank() <==> a.is_le(&b),
            a.rank() > b.rank() <==> a.is_gt(&b),
            a.rank() >= b.rank() <==> a.is_ge(&b),
    {
    }

    /// The order is a strict total order: of two levels exactly one of
    /// `a < b`, `a == b` and `a > b` holds, `<` is transitive, `a < b` is
    /// `b > a`, and every level is `<=` itself.
    pub proof fn lemma_total_order(a: Trust, b: Trust, c: Trust)
        ensures
            a.is_lt(&b) || a == b || a.is_gt(&b),
            !(a.is_lt(&b) && a == b),
            !(a.is_gt(&b) && a == b),
            !(a.is_lt(&b) && a.is_gt(&b)),
            a.is_lt(&b) && b.is_lt(&c) ==> a.is_lt(&c),
            a.is_lt(&b) <==> b.is_gt(&a),
            a.is_le(&a),
    {
    }

    /// Equality is identity of the level: every value equals itself, and
    /// two values are equal exactly when they hold the same place in the
    /// order, and exactly when they are spelled alike.
    pub proof fn lemma_equal_is_same_level(a: Trust, b: Trust)
        ensures
            a == a,
            a == b <==> a.rank() == b.rank(),
            a == b <==> a.token() == b.token(),
    {
        Self::lemma_tokens_distinct(a, b);
    }

    fn position(&self) -> (r: u8)
        ensures
            r == self.rank(),
    {
        match self {
            Trust::Public => 0,
            Trust::Authenticated => 1,
            Trust::Vouched => 2,
            Trust::Ndaed => 3,
            Trust::Staff => 4,
        }
    }

    /// The canonical spelling of the level. Reading it gives the level back.
    pub fn as_str(&self) -> (s: &'static str)
        ensures
            s@ == self.token(),
            Trust::parse(s@) == Ok::<Trust, TrustError>(*self),
    {
        proof {
            Trust::lemma_parse_inverts_token(self.token(), *self);
        }
        match self {
            Self::Staff => "staff",
            Self::Ndaed => "ndaed",
            Self::Vouched => "vouched",
            Self::Authenticated => "authenticated",
            Self::Public => "public",
        }
    }
}

impl vstd::std_specs::convert::TryFromSpecImpl<&str> for Trust {
    open spec fn obeys_try_from_spec() -> bool {
        true
    }

    open spec fn try_from_spec(s: &str) -> Result<Self, Self::Error> {
        Trust::parse(s@)
    }
}

impl TryFrom<&str> for Trust {
    type Error = TrustError;

    /// Reads a level from its canonical spelling. Every other token, a
    /// spelling in another case included, is refused.
    fn try_from(s: &str) -> (r: Result<Self, Self::Error>)
        ensures
            r == Trust::parse(s@),
            forall|t: Trust| r == Ok::<Trust, TrustError>(t) <==> s@ == t.token(),
            r matches Err(e) ==> e == TrustError::InvalidTrustLevel,
    {
        proof {
            assert forall|t: Trust| Trust::parse(s@) == Ok::<Trust, TrustError>(t) <==> s@
                == t.token() by {
                Trust::lemma_parse_inverts_token(s@, t);
            }
        }
        if str_eq(s, "staff") {
            assert(s@ == Trust::Staff.token());
            Ok(Trust::Staff)
        } else if str_eq(s, "ndaed") {
            assert(s@ == Trust::Ndaed.token());
            Ok(Trust::Ndaed)
        } else if str_eq(s, "vouched") {
            assert(s@ == Trust::Vouched.token());
            Ok(Trust::Vouched)
        } else if str_eq(s, "authenticated") {
            assert(s@ == Trust::Authenticated.token());
            Ok(Trust::Authenticated)
        } else if str_eq(s, "public") {
            assert(s@ == Trust::Public.token());
            Ok(Trust::Public)
        } else {
            Err(TrustError::InvalidTrustLevel)
        }
    }
}

impl vstd::std_specs::convert::TryFromSpecImpl<String> for Trust {
    open spec fn obeys_try_from_spec() -> bool {
        true
    }

    open spec fn try_from_spec(s: String) -> Result<Self, Self::Error> {
        Trust::parse(s@)
    }
}

impl TryFrom<String> for Trust {
    type Error = TrustError;

    /// Reads a level from an owned token, by the same rule.
    fn try_from(s: String) -> (r: Result<Self, Self::Error>)
        ensures
            r == Trust::parse(s@),
            forall|t: Trust| r == Ok::<Trust, TrustError>(t) <==> s@ == t.token(),
            r matches Err(e) ==> e == TrustError::InvalidTrustLevel,
    {
        Trust::try_from(s.as_str())
    }
}

impl vstd::std_specs::cmp::PartialOrdSpecImpl for Trust {
    open spec fn obeys_partial_cmp_spec() -> bool {
        true
    }

    open spec fn partial_cmp_spec(&self, other: &Trust) -> Option<Ordering> {
        Some(self.compare(*other))
    }
}

impl PartialOrd for Trust {
    /// Compares two levels by their place in the order.
    fn partial_cmp(&self, other: &Trust) -> (r: Option<Ordering>)
        ensures
            r == Some(self.compare(*other)),
    {
        let x: u8 = self.position();
        let y: u8 = other.position();
        if x < y {
            Some(Ordering::Less)
        } else if x == y {
            Some(Ordering::Equal)
        } else {
            Some(Ordering::Greater)
        }
    }
}

} // verus!
