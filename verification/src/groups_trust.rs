//! The trust level of a caller in group management.

use crate::text::str_eq;
use std::cmp::Ordering;
use vstd::prelude::*;
use vstd::std_specs::cmp::PartialOrdIs;
use vstd::std_specs::cmp::PartialOrdSpec;

verus! {

/// What a caller may do in group management, from the lowest level to the
/// highest.
#[derive(Clone, Copy, Debug, PartialEq, Eq, Structural)]
pub enum GroupsTrust {
    /// No special trust in group management. Spelled `none`.
    NoTrust,
    Creator,
    Admin,
}

/// Why a group-management trust level was refused.
#[derive(Clone, Copy, Debug, PartialEq, Eq, Structural)]
pub enum GroupsTrustError {
    /// The token spells no group-management trust level.
    InvalidGroupsTrustLevel,
    /// The level is valid but below a required minimum. No conversion here
    /// returns it: it is for callers that enforce such a minimum.
    GroupsTrustLevelToLow,
}

impl GroupsTrust {
    /// The place of a level in the order, counted from the lowest:
    /// `NoTrust` is the lowest level and `Admin` the highest.
    pub open spec fn rank(self) -> nat {
        match self {
            GroupsTrust::NoTrust => 0,
            GroupsTrust::Creator => 1,
            GroupsTrust::Admin => 2,
        }
    }

    /// The canonical spelling of a level.
    pub open spec fn token(self) -> Seq<char> {
        match self {
            GroupsTrust::NoTrust => "none"@,
            GroupsTrust::Creator => "creator"@,
            GroupsTrust::Admin => "admin"@,
        }
    }

    /// Whether `s` is read as this level: it is the canonical spelling of
    /// the level or, for the lowest level only, the empty token, which
    /// stands for a value that was not supplied.
    pub open spec fn spelled_by(self, s: Seq<char>) -> bool {
        s == self.token() || (self == GroupsTrust::NoTrust && s.len() == 0)
    }

    /// How a level stands to another: by their ranks.
    pub open spec fn compare(self, other: GroupsTrust) -> Ordering {
        if self.rank() < other.rank() {
            Ordering::Less
        } else if self.rank() == other.rank() {
            Ordering::Equal
        } else {
            Ordering::Greater
        }
    }

    /// What reading the token `s` gives: the level that `s` spells, or the
    /// error for a token that spells none.
    pub open spec fn parse(s: Seq<char>) -> Result<GroupsTrust, GroupsTrustError> {
        if exists|t: GroupsTrust| t.spelled_by(s) {
            Ok(choose|t: GroupsTrust| t.spelled_by(s))
        } else {
            Err(GroupsTrustError::InvalidGroupsTrustLevel)
        }
    }

    /// No two levels share a spelling, and no token is read as two levels.
    pub proof fn lemma_tokens_distinct(a: GroupsTrust, b: GroupsTrust, s: Seq<char>)
        ensures
            a.token() == b.token() <==> a == b,
            a.spelled_by(s) && b.spelled_by(s) ==> a == b,
    {
        reveal_strlit("none");
        reveal_strlit("creator");
        reveal_strlit("admin");
        if a != b {
            assert(a.token().len() != b.token().len());
        }
    }

    /// A token reads as the level `t` exactly when it spells `t`, so the
    /// canonical spelling of a level reads as that level again.
    pub proof fn lemma_parse_inverts_token(s: Seq<char>, t: GroupsTrust)
        ensures
            GroupsTrust::parse(s) == Ok::<GroupsTrust, GroupsTrustError>(t) <==> t.spelled_by(s),
            GroupsTrust::parse(t.token()) == Ok::<GroupsTrust, GroupsTrustError>(t),
    {
        if exists|u: GroupsTrust| u.spelled_by(s) {
            let read = choose|u: GroupsTrust| u.spelled_by(s);
            Self::lemma_tokens_distinct(read, t, s);
        }
        assert(t.spelled_by(t.token()));
        let back = choose|u: GroupsTrust| u.spelled_by(t.token());
        Self::lemma_tokens_distinct(back, t, t.token());
    }

    /// The empty token and the token `none` both read as the lowest level.
    pub proof fn lemma_parse_lowest(s: Seq<char>)
        requires
            s.len() == 0 || s == "none"@,
        ensures
            GroupsTrust::parse(s) == Ok::<GroupsTrust, GroupsTrustError>(GroupsTrust::NoTrust),
    {
        Self::lemma_parse_inverts_token(s, GroupsTrust::NoTrust);
    }

    /// A token that spells no level is refused as an invalid level, and
    /// reading fails in no other way.
    pub proof fn lemma_parse_refuses_others(s: Seq<char>)
        ensures
            GroupsTrust::parse(s) is Err <==> forall|t: GroupsTrust| !t.spelled_by(s),
            GroupsTrust::parse(s) matches Err(e) ==> e == GroupsTrustError::InvalidGroupsTrustLevel,
    {
    }

    /// Reading is exact in case: a token that holds anything but lower-case
    /// letters is refused.
    pub proof fn lemma_parse_needs_lower_case(s: Seq<char>)
        requires
            exists|i: int| 0 <= i < s.len() && !('a' <= #[trigger] s[i] <= 'z'),
        ensures
            GroupsTrust::parse(s) matches Err(e) && e == GroupsTrustError::InvalidGroupsTrustLevel,
    {
        reveal_strlit("none");
        reveal_strlit("creator");
        reveal_strlit("admin");
        let i = choose|i: int| 0 <= i < s.len() && !('a' <= #[trigger] s[i] <= 'z');
        assert forall|t: GroupsTrust| !t.spelled_by(s) by {
            if t.token().len() == s.len() {
                assert(t.token()[i] != s[i]);
            }
        }
    }

    /// Levels are ordered by their rank: one that stands before another is
    /// less than it, and two levels compare as equal only when they are the
    /// same level.
    pub proof fn lemma_order_by_rank(a: GroupsTrust, b: GroupsTrust)
        ensures
            a.rank() < b.rank() <==> a.compare(b) == Ordering::Less,
            a == b <==> a.compare(b) == Ordering::Equal,
            a.rank() > b.rank() <==> a.compare(b) == Ordering::Greater,
            a.partial_cmp_spec(&b) == Some(a.compare(b)),
            a.rank() < b.rank() <==> a.is_lt(&b),
            a.rank() <= b.rank() <==> a.is_le(&b),
            a.rank() > b.rank() <==> a.is_gt(&b),
            a.rank() >= b.rank() <==> a.is_ge(&b),
    {
    }

    /// The order is a strict total order: of two levels exactly one of
    /// `a < b`, `a == b` and `a > b` holds, `<` is transitive, `a < b` is
    /// `b > a`, and every level is `<=` itself.
    pub proof fn lemma_total_order(a: GroupsTrust, b: GroupsTrust, c: GroupsTrust)
        ensures
            a.is_lt(&b) || a == b || a.is_gt(&b),
            !(a.is_lt(&b) && a == b),
            !(a.is_gt(&b) && a == b),
            !(a.is_lt(&b) && a.is_gt(&b)),
            a.is_lt(&b) && b.is_lt(&c) ==> a.is_lt(&c),
            a.is_lt(&b) <==> b.is_gt(&a),
            a.is_le(&a),
    {
    }

    /// Equality is identity of the level: every value equals itself, and
    /// two values are equal exactly when they hold the same place in the
    /// order, and exactly when they are spelled alike.
    pub proof fn lemma_equal_is_same_level(a: GroupsTrust, b: GroupsTrust)
        ensures
            a == a,
            a == b <==> a.rank() == b.rank(),
            a == b <==> a.token() == b.token(),
    {
        Self::lemma_tokens_distinct(a, b, a.token());
    }

    fn position(&self) -> (r: u8)
        ensures
            r == self.rank(),
    {
        match self {
            GroupsTrust::NoTrust => 0,
            GroupsTrust::Creator => 1,
            GroupsTrust::Admin => 2,
        }
    }
}

impl vstd::std_specs::convert::TryFromSpecImpl<&str> for GroupsTrust {
    open spec fn obeys_try_from_spec() -> bool {
        true
    }

    open spec fn try_from_spec(s: &str) -> Result<Self, Self::Error> {
        GroupsTrust::parse(s@)
    }
}

impl TryFrom<&str> for GroupsTrust {
    type Error = GroupsTrustError;

    /// Reads a level from its canonical spelling; the empty token reads as
    /// the lowest level. Every other token is refused.
    fn try_from(s: &str) -> (r: Result<Self, Self::Error>)
        ensures
            r == GroupsTrust::parse(s@),
            forall|t: GroupsTrust|
                r == Ok::<GroupsTrust, GroupsTrustError>(t) <==> #[trigger] t.spelled_by(s@),
            r matches Err(e) ==> e == GroupsTrustError::InvalidGroupsTrustLevel,
    {
        proof {
            reveal_strlit("");
            assert(s@.len() == 0 <==> s@ =~= ""@);
            assert forall|t: GroupsTrust|
                GroupsTrust::parse(s@) == Ok::<GroupsTrust, GroupsTrustError>(t)
                    <==> #[trigger] t.spelled_by(s@) by {
                GroupsTrust::lemma_parse_inverts_token(s@, t);
            }
        }
        if str_eq(s, "creator") {
            assert(GroupsTrust::Creator.spelled_by(s@));
            Ok(GroupsTrust::Creator)
        } else if str_eq(s, "admin") {
            assert(GroupsTrust::Admin.spelled_by(s@));
            Ok(GroupsTrust::Admin)
        } else if str_eq(s, "none") || str_eq(s, "") {
            assert(GroupsTrust::NoTrust.spelled_by(s@));
            Ok(GroupsTrust::NoTrust)
        } else {
            Err(GroupsTrustError::InvalidGroupsTrustLevel)
        }
    }
}

impl vstd::std_specs::convert::TryFromSpecImpl<String> for GroupsTrust {
    open spec fn obeys_try_from_spec() -> bool {
        true
    }

    open spec fn try_from_spec(s: String) -> Result<Self, Self::Error> {
        GroupsTrust::parse(s@)
    }
}

impl TryFrom<String> for GroupsTrust {
    type Error = GroupsTrustError;

    /// Reads a level from an owned token, by the same rule.
    fn try_from(s: String) -> (r: Result<Self, Self::Error>)
        ensures
            r == GroupsTrust::parse(s@),
            forall|t: GroupsTrust|
                r == Ok::<GroupsTrust, GroupsTrustError>(t) <==> #[trigger] t.spelled_by(s@),
            r matches Err(e) ==> e == GroupsTrustError::InvalidGroupsTrustLevel,
    {
        GroupsTrust::try_from(s.as_str())
    }
}

impl vstd::std_specs::cmp::PartialOrdSpecImpl for GroupsTrust {
    open spec fn obeys_partial_cmp_spec() -> bool {
        true
    }

    open spec fn partial_cmp_spec(&self, other: &GroupsTrust) -> Option<Ordering> {
        Some(self.compare(*other))
    }
}

impl PartialOrd for GroupsTrust {
    /// Compares two levels by their place in the order.
    fn partial_cmp(&self, other: &GroupsTrust) -> (r: Option<Ordering>)
        ensures
            r == Some(self.compare(*other)),
    {
        let x: u8 = self.position();
        let y: u8 = other.position();
        if x < y {
            Some(Ordering::Less)
        } else if x == y {
            Some(Ordering::Equal)
        } else {
            Some(Ordering::Greater)
        }
    }
}

} // verus!
