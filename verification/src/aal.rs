//! The authenticator assurance level of a session.

use crate::text::str_eq;
use std::cmp::Ordering;
use vstd::prelude::*;
use vstd::std_specs::cmp::PartialOrdIs;
use vstd::std_specs::cmp::PartialOrdSpec;

verus! {

/// Authenticator assurance level: how strong the mechanism was that
/// authenticated the caller, from the lowest level to the highest.
#[derive(Clone, Copy, Debug, PartialEq, Eq, Structural)]
pub enum AALevel {
    /// What every token that spells no other level reads as.
    Unknown,
    Low,
    Medium,
    High,
    Maximum,
}

/// Why an assurance level was refused.
#[derive(Clone, Copy, Debug, PartialEq, Eq, Structural)]
pub enum AALevelError {
    /// The level is below a required minimum. No conversion here returns
    /// it: it is for callers that enforce such a minimum.
    AALevelToLow,
}

impl AALevel {
    /// The place of a level in the order, counted from the lowest:
    /// `Unknown` is the lowest level and `Maximum` the highest.
    pub open spec fn rank(self) -> nat {
        match self {
            AALevel::Unknown => 0,
            AALevel::Low => 1,
            AALevel::Medium => 2,
            AALevel::High => 3,
            AALevel::Maximum => 4,
        }
    }

    /// The canonical spelling of a level, in upper case.
    pub open spec fn token(self) -> Seq<char> {
        match self {
            AALevel::Unknown => "UNKNOWN"@,
            AALevel::Low => "LOW"@,
            AALevel::Medium => "MEDIUM"@,
            AALevel::High => "HIGH"@,
            AALevel::Maximum => "MAXIMUM"@,
        }
    }

    /// How a level stands to another: by their ranks.
    pub open spec fn compare(self, other: AALevel) -> Ordering {
        if self.rank() < other.rank() {
            Ordering::Less
        } else if self.rank() == other.rank() {
            Ordering::Equal
        } else {
            Ordering::Greater
        }
    }

    /// What reading the token `s` gives: the level that `s` spells, and
    /// `Unknown` for a token that spells none.
    pub open spec fn parse(s: Seq<char>) -> AALevel {
        if exists|l: AALevel| l.token() == s {
            choose|l: AALevel| l.token() == s
        } else {
            AALevel::Unknown
        }
    }

    /// No two levels share a spelling.
    pub proof fn lemma_tokens_distinct(a: AALevel, b: AALevel)
        ensures
            a.token() == b.token() <==> a == b,
    {
        reveal_strlit("UNKNOWN");
        reveal_strlit("LOW");
        reveal_strlit("MEDIUM");
        reveal_strlit("HIGH");
        reveal_strlit("MAXIMUM");
        if a != b {
            assert(a.token().len() != b.token().len() || a.token()[1] != b.token()[1]);
        }
    }

    /// A token reads as a level other than `Unknown` exactly when it is the
    /// canonical spelling of that level, and as `Unknown` exactly when it is
    /// the canonical spelling of no other level. So the spelling of a level
    /// reads as that level again.
    pub proof fn lemma_parse_inverts_token(s: Seq<char>, l: AALevel)
        ensures
            l != AALevel::Unknown ==> (AALevel::parse(s) == l <==> s == l.token()),
            AALevel::parse(s) == AALevel::Unknown <==> forall|m: AALevel|
                m != AALevel::Unknown ==> m.token() != s,
            AALevel::parse(l.token()) == l,
    {
        if exists|m: AALevel| m.token() == s {
            let read = choose|m: AALevel| m.token() == s;
            assert forall|m: AALevel| m.token() == s implies m == read by {
                Self::lemma_tokens_distinct(read, m);
            }
        }
        let back = choose|m: AALevel| m.token() == l.token();
        Self::lemma_tokens_distinct(back, l);
    }

    /// Reading is exact in case: a token that holds anything but upper-case
    /// letters, a spelling in lower case for one, reads as `Unknown`, and so
    /// does the empty token.
    pub proof fn lemma_parse_needs_upper_case(s: Seq<char>)
        requires
            s.len() == 0 || exists|i: int| 0 <= i < s.len() && !('A' <= #[trigger] s[i] <= 'Z'),
        ensures
            AALevel::parse(s) == AALevel::Unknown,
    {
        reveal_strlit("UNKNOWN");
        reveal_strlit("LOW");
        reveal_strlit("MEDIUM");
        reveal_strlit("HIGH");
        reveal_strlit("MAXIMUM");
        assert forall|m: AALevel| m.token() != s by {
            if s.len() != 0 {
                let i = choose|i: int| 0 <= i < s.len() && !('A' <= #[trigger] s[i] <= 'Z');
                if m.token().len() == s.len() {
                    assert(m.token()[i] != s[i]);
                }
            }
        }
    }

    /// Levels are ordered by their rank: one that stands before another is
    /// less than it, and two levels compare as equal only when they are the
    /// same level.
    pub proof fn lemma_order_by_rank(a: AALevel, b: AALevel)
        ensures
            a.rank() < b.rank() <==> a.compare(b) == Ordering::Less,
            a == b <==> a.compare(b) == Ordering::Equal,
            a.rank() > b.rank() <==> a.compare(b) == Ordering::Greater,
            a.partial_cmp_spec(&b) == Some(a.compare(b)),
            a.rank() < b.rank() <==> a.is_lt(&b),
            a.rank() <= b.rank() <==> a.is_le(&b),
            a.rank() > b.rank() <==> a.is_gt(&b),
            a.rank() >= b.rank() <==> a.is_ge(&b),
    {
    }

    /// The order is a strict total order: of two levels exactly one of
    /// `a < b`, `a == b` and `a > b` holds, `<` is transitive, `a < b` is
    /// `b > a`, and every level is `<=` itself.
    pub proof fn lemma_total_order(a: AALevel, b: AALevel, c: AALevel)
        ensures
            a.is_lt(&b) || a == b || a.is_gt(&b),
            !(a.is_lt(&b) && a == b),
            !(a.is_gt(&b) && a == b),
            !(a.is_lt(&b) && a.is_gt(&b)),
            a.is_lt(&b) && b.is_lt(&c) ==> a.is_lt(&c),
            a.is_lt(&b) <==> b.is_gt(&a),
            a.is_le(&a),
    {
    }

    /// Equality is identity of the level: every value equals itself, and
    /// two values are equal exactly when they hold the same place in the
    /// order, and exactly when they are spelled alike.
    pub proof fn lemma_equal_is_same_level(a: AALevel, b: AALevel)
        ensures
            a == a,
            a == b <==> a.rank() == b.rank(),
            a == b <==> a.token() == b.token(),
    {
        Self::lemma_tokens_distinct(a, b);
    }

    fn position(&self) -> (r: u8)
        ensures
            r == self.rank(),
    {
        match self {
            AALevel::Unknown => 0,
            AALevel::Low => 1,
            AALevel::Medium => 2,
            AALevel::High => 3,
            AALevel::Maximum => 4,
        }
    }
}

impl vstd::std_specs::convert::FromSpecImpl<&str> for AALevel {
    open spec fn obeys_from_spec() -> bool {
        true
    }

    open spec fn from_spec(s: &str) -> Self {
        AALevel::parse(s@)
    }
}

impl From<&str> for AALevel {
    /// Reads a level from its canonical spelling in upper case. This never
    /// fails: every other token, the empty one and a spelling in lower case
    /// included, reads as `Unknown`.
    fn from(s: &str) -> (l: Self)
        ensures
            l == AALevel::parse(s@),
            forall|m: AALevel| m != AALevel::Unknown ==> (l == m <==> s@ == m.token()),
    {
        proof {
            assert forall|m: AALevel| m != AALevel::Unknown implies (AALevel::parse(s@) == m
                <==> s@ == m.token()) by {
                AALevel::lemma_parse_inverts_token(s@, m);
            }
        }
        if str_eq(s, "LOW") {
            assert(s@ == AALevel::Low.token());
            AALevel::Low
        } else if str_eq(s, "MEDIUM") {
            assert(s@ == AALevel::Medium.token());
            AALevel::Medium
        } else if str_eq(s, "HIGH") {
            assert(s@ == AALevel::High.token());
            AALevel::High
        } else if str_eq(s, "MAXIMUM") {
            assert(s@ == AALevel::Maximum.token());
            AALevel::Maximum
        } else {
            proof {
                AALevel::lemma_parse_inverts_token(s@, AALevel::Unknown);
            }
            AALevel::Unknown
        }
    }
}

impl vstd::std_specs::convert::FromSpecImpl<String> for AALevel {
    open spec fn obeys_from_spec() -> bool {
        true
    }

    open spec fn from_spec(s: String) -> Self {
        AALevel::parse(s@)
    }
}

impl From<String> for AALevel {
    /// Reads a level from an owned token, by the same rule.
    fn from(s: String) -> (l: Self)
        ensures
            l == AALevel::parse(s@),
            forall|m: AALevel| m != AALevel::Unknown ==> (l == m <==> s@ == m.token()),
    {
        AALevel::from(s.as_str())
    }
}

impl vstd::std_specs::cmp::PartialOrdSpecImpl for AALevel {
    open spec fn obeys_partial_cmp_spec() -> bool {
        true
    }

    open spec fn partial_cmp_spec(&self, other: &AALevel) -> Option<Ordering> {
        Some(self.compare(*other))
    }
}

impl PartialOrd for AALevel {
    /// Compares two levels by their place in the order.
    fn partial_cmp(&self, other: &AALevel) -> (r: Option<Ordering>)
        ensures
            r == Some(self.compare(*other)),
    {
        let x: u8 = self.position();
        let y: u8 = other.position();
        if x < y {
            Some(Ordering::Less)
        } else if x == y {
            Some(Ordering::Equal)
        } else {
            Some(Ordering::Greater)
        }
    }
}

} // verus!
