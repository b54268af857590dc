//! Choosing a device's utilisation value among the keys that different vendors
//! use for it in the device's performance statistics.
use vstd::prelude::*;

verus! {

/// What a lookup of one utilisation key in a device's statistics found.
#[derive(Clone, Copy, PartialEq, Eq, Debug, Structural)]
pub enum UtilizationProbe {
    /// The key is absent or its value is not a number.
    Missing,
    /// A number, with what its two conversions gave: to a 32-bit float (its
    /// bit pattern) and to a 64-bit integer, each when the conversion succeeded.
    Number { as_f32: Option<u32>, as_i64: Option<i64> },
}

/// A device's utilisation, as the first usable key gave it.
#[derive(Clone, Copy, PartialEq, Eq, Debug, Structural)]
pub enum Utilization {
    /// A float, by its bit pattern.
    Float(u32),
    /// An integer.
    Integer(i64),
}

/// What one probe yields, if anything: the float conversion is preferred,
/// the integer one is taken when only it succeeds.
pub open spec fn probe_value(p: UtilizationProbe) -> Option<Utilization> {
    match p {
        UtilizationProbe::Number { as_f32: Some(bits), as_i64: _ } => Some(Utilization::Float(bits)),
        UtilizationProbe::Number { as_f32: None, as_i64: Some(v) } => Some(Utilization::Integer(v)),
        _ => None,
    }
}

/// The value of the first probe, in priority order, that yields one.
pub open spec fn first_value(probes: Seq<UtilizationProbe>) -> Option<Utilization>
    decreases probes.len(),
{
    if probes.len() == 0 {
        None
    } else if probe_value(probes[0]).is_some() {
        probe_value(probes[0])
    } else {
        first_value(probes.drop_first())
    }
}

/// Picks a device's utilisation from the probes of the candidate keys, taken
/// in priority order: the first that yields a value wins, and values of
/// several keys are never combined.
pub fn select_utilization(probes: &Vec<UtilizationProbe>) -> (r: Option<Utilization>)
    ensures
        r == first_value(probes@),
{
    let mut i: usize = 0;
    assert(probes@.skip(0) =~= probes@);
    while i < probes.len()
        invariant
            i <= probes.len(),
            first_value(probes@) == first_value(probes@.skip(i as int)),
        decreases probes.len() - i,
    {
        let v = match probes[i] {
            UtilizationProbe::Number { as_f32: Some(bits), as_i64: _ } => Some(
                Utilization::Float(bits),
            ),
            UtilizationProbe::Number { as_f32: None, as_i64: Some(n) } => Some(
                Utilization::Integer(n),
            ),
            _ => None,
        };
        assert(probes@.skip(i as int)[0] == probes@[i as int]);
        assert(probes@.skip(i as int).drop_first() =~= probes@.skip(i + 1));
        if v.is_some() {
            return v;
        }
        i = i + 1;
    }
    None
}

} // verus!
