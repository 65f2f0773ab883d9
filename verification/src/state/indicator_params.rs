//! Settings of the technical indicators that hold no fractional values.
use vstd::prelude::*;
use crate::text::str_equal;

verus! {

/// How the RSI averages gains and losses.
#[derive(Debug, Clone, Copy, PartialEq, Eq, Structural)]
pub enum RSIMethod {
    /// Welles Wilder's smoothed moving average.
    Wilder,
    /// Simple moving average.
    Simple,
}

/// Name of a method, as saved.
pub open spec fn method_name(m: RSIMethod) -> Seq<char> {
    match m {
        RSIMethod::Wilder => "Wilder"@,
        RSIMethod::Simple => "Simple"@,
    }
}

/// The method with that exact name, if any.
pub open spec fn method_from_name(s: Seq<char>) -> Option<RSIMethod> {
    if s == "Wilder"@ {
        Some(RSIMethod::Wilder)
    } else if s == "Simple"@ {
        Some(RSIMethod::Simple)
    } else {
        None
    }
}

impl RSIMethod {
    /// The method's name.
    pub fn as_str(&self) -> (s: &'static str)
        ensures
            s@ == method_name(*self),
    {
        match self {
            RSIMethod::Wilder => "Wilder",
            RSIMethod::Simple => "Simple",
        }
    }

    /// The method with that exact name, if any.
    pub fn from_str(s: &str) -> (m: Option<Self>)
        ensures
            m == method_from_name(s@),
    {
        if str_equal(s, "Wilder") {
            Some(RSIMethod::Wilder)
        } else if str_equal(s, "Simple") {
            Some(RSIMethod::Simple)
        } else {
            None
        }
    }
}

/// Reading back the name of a method gives that method.
pub proof fn law_rsi_method_name_roundtrip(m: RSIMethod)
    ensures
        method_from_name(method_name(m)) == Some(m),
{
    reveal_strlit("Wilder");
    reveal_strlit("Simple");
    assert("Simple"@[0] != "Wilder"@[0]);
}

impl Default for RSIMethod {
    /// Wilder's method.
    fn default() -> (m: Self)
        ensures
            m == RSIMethod::Wilder,
    {
        RSIMethod::Wilder
    }
}

} // verus!
