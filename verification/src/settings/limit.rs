//! Settings whose value is either unlimited or a positive limit.
use vstd::prelude::*;

verus! {

/// A limit, where `0` in a settings file stands for no limit.
#[derive(Clone, Copy, Debug, PartialEq, Eq, Structural)]
pub enum Limit {
    /// No limit.
    Unlimited,
    /// A limit of the given value.
    Limited(u64),
}

/// A range with a minimum and a maximum.
#[derive(Clone, Copy, Debug, PartialEq, Eq, Structural)]
pub struct Range {
    /// The minimum.
    pub min: u64,
    /// The maximum.
    pub max: u64,
}

/// The limit that a settings value stands for.
pub open spec fn limit_of(val: u64) -> Limit {
    if val == 0 {
        Limit::Unlimited
    } else {
        Limit::Limited(val)
    }
}

/// The settings value of a limit.
pub open spec fn limit_value(l: Limit) -> u64 {
    match l {
        Limit::Unlimited => 0,
        Limit::Limited(v) => v,
    }
}

impl From<u64> for Limit {
    fn from(val: u64) -> (r: Limit) {
        if val == 0 {
            Limit::Unlimited
        } else {
            Limit::Limited(val)
        }
    }
}

impl vstd::std_specs::convert::FromSpecImpl<u64> for Limit {
    open spec fn obeys_from_spec() -> bool {
        true
    }

    open spec fn from_spec(val: u64) -> Limit {
        limit_of(val)
    }
}

impl From<Limit> for u64 {
    fn from(val: Limit) -> (r: u64) {
        match val {
            Limit::Unlimited => 0,
            Limit::Limited(v) => v,
        }
    }
}

impl vstd::std_specs::convert::FromSpecImpl<Limit> for u64 {
    open spec fn obeys_from_spec() -> bool {
        true
    }

    open spec fn from_spec(val: Limit) -> u64 {
        limit_value(val)
    }
}

impl Limit {
    /// The limit that a settings value stands for: `0` is no limit.
    pub fn from_value(val: u64) -> (r: Limit)
        ensures
            r == limit_of(val),
    {
        Limit::from(val)
    }

    /// The settings value of this limit: `0` for no limit.
    pub fn value(self) -> (r: u64)
        ensures
            r == limit_value(self),
    {
        u64::from(self)
    }
}

/// Reading a settings value as a limit and writing it back gives the same value.
pub proof fn law_limit_value_roundtrip(val: u64)
    ensures
        limit_value(limit_of(val)) == val,
{
}

/// Writing a limit as a settings value and reading it back gives the same limit, for every limit
/// but a limit of zero, which reads back as no limit.
pub proof fn law_limit_roundtrip(l: Limit)
    requires
        l != Limit::Limited(0),
    ensures
        limit_of(limit_value(l)) == l,
{
}

/// In a settings file, `0` stands for no limit and any other value for a limit of that value;
/// no limit is written as `0` and a limit as its value.
pub proof fn law_limit_values(val: u64)
    ensures
        limit_of(0) == Limit::Unlimited,
        val != 0 ==> limit_of(val) == Limit::Limited(val),
        limit_value(Limit::Unlimited) == 0,
        limit_value(Limit::Limited(val)) == val,
{
}

} // verus!
