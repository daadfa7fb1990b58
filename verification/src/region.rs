//! Region fallback: an explicit region wins, then whatever the environment's
//! default provider yielded, then the fixed fallback region.

use vstd::prelude::*;

verus! {

/// The fixed fallback region used when neither an explicit region nor a
/// provider-resolved region is available.
pub open spec fn spec_default_region() -> Seq<char> {
    "us-west-2"@
}

/// The region the tool will actually use, given the explicit `--region`
/// argument (if any) and the region the default provider chain resolved
/// (if any). Resolution never fails.
pub open spec fn spec_resolve_region(
    explicit: Option<Seq<char>>,
    provider: Option<Seq<char>>,
) -> Seq<char> {
    match explicit {
        Option::Some(r) => r,
        Option::None => match provider {
            Option::Some(r) => r,
            Option::None => spec_default_region(),
        },
    }
}

/// What the argument layer hands on as the explicit region: the `--region`
/// value when given, else the fixed fallback (the argument's default).
pub open spec fn spec_cli_region(cli: Option<Seq<char>>) -> Seq<char> {
    match cli {
        Option::Some(r) => r,
        Option::None => spec_default_region(),
    }
}

/// Apply the `--region` argument's default: the given value when present,
/// else the fixed fallback region.
pub fn cli_region(cli: Option<String>) -> (r: String)
    ensures
        r@ == spec_cli_region(
            match cli {
                Option::Some(c) => Option::Some(c@),
                Option::None => Option::None,
            },
        ),
{
    match cli {
        Option::Some(r) => r,
        Option::None => String::from_str("us-west-2"),
    }
}

/// Resolve the effective region: explicit argument first, then the value the
/// default provider chain produced, then the fixed fallback.
pub fn resolve_region(explicit: Option<String>, provider: Option<String>) -> (r: String)
    ensures
        r@ == spec_resolve_region(
            match explicit {
                Option::Some(e) => Option::Some(e@),
                Option::None => Option::None,
            },
            match provider {
                Option::Some(p) => Option::Some(p@),
                Option::None => Option::None,
            },
        ),
{
    match explicit {
        Option::Some(r) => r,
        Option::None => match provider {
            Option::Some(r) => r,
            Option::None => String::from_str("us-west-2"),
        },
    }
}

} // verus!
