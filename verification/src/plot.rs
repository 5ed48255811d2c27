//! What a plot is made from: which read a dataset's rank calls for, which
//! element kind it is read as, and which samples are taken.

use vstd::prelude::*;
use crate::htype::NativePrimitiveType;

verus! {

/// How a dataset is brought to one dimension before it is plotted.
#[derive(Clone, Copy, Debug, PartialEq, Eq, Structural)]
pub enum ReadPlan {
    /// A one-dimensional dataset is read as it is.
    Flat,
    /// A two-dimensional dataset is read and summed along `axis`.
    Folded { axis: usize },
}

/// A dataset that cannot be plotted: its rank is neither one nor two.
#[derive(Clone, Copy, Debug, PartialEq, Eq, Structural)]
pub struct UnsupportedRank {
    pub ndims: usize,
}

/// The read for a dataset of rank `ndims`.
pub open spec fn plan_for(ndims: usize, axis: usize) -> Result<ReadPlan, UnsupportedRank> {
    if ndims == 1 {
        Ok(ReadPlan::Flat)
    } else if ndims == 2 {
        Ok(ReadPlan::Folded { axis })
    } else {
        Err(UnsupportedRank { ndims })
    }
}

/// Chooses the read for a dataset of rank `ndims`: rank one is read as it
/// is, rank two is folded along `axis`, any other rank is refused.
pub fn plan_read(ndims: usize, axis: usize) -> (plan: Result<ReadPlan, UnsupportedRank>)
    ensures
        plan == plan_for(ndims, axis),
{
    if ndims == 1 {
        Ok(ReadPlan::Flat)
    } else if ndims == 2 {
        Ok(ReadPlan::Folded { axis })
    } else {
        Err(UnsupportedRank { ndims })
    }
}

/// The element types that a dataset is read as for plotting.
#[derive(Clone, Copy, Debug, PartialEq, Eq, Structural)]
pub enum PlotElement {
    I32,
    I64,
    U32,
    U64,
    Usize,
    F32,
}

/// The element type that a dataset of the given kind is read as for
/// plotting. Integers are read with the other signedness of their width,
/// and both floats in single precision.
pub open spec fn read_as(kind: NativePrimitiveType) -> PlotElement {
    match kind {
        NativePrimitiveType::Integer32b => PlotElement::U32,
        NativePrimitiveType::Integer64b => PlotElement::U64,
        NativePrimitiveType::UnsignedInteger32b => PlotElement::I32,
        NativePrimitiveType::UnsignedInteger64b => PlotElement::I64,
        NativePrimitiveType::Pointer(_) => PlotElement::Usize,
        NativePrimitiveType::Float32b | NativePrimitiveType::Float64b => PlotElement::F32,
    }
}

/// The element type that a dataset of the given kind is read as for plotting.
pub fn plot_element(kind: NativePrimitiveType) -> (element: PlotElement)
    ensures
        element == read_as(kind),
{
    match kind {
        NativePrimitiveType::Integer32b => PlotElement::U32,
        NativePrimitiveType::Integer64b => PlotElement::U64,
        NativePrimitiveType::UnsignedInteger32b => PlotElement::I32,
        NativePrimitiveType::UnsignedInteger64b => PlotElement::I64,
        NativePrimitiveType::Pointer(_) => PlotElement::Usize,
        NativePrimitiveType::Float32b | NativePrimitiveType::Float64b => PlotElement::F32,
    }
}

/// How many samples are taken of `len` when every `nth` is: the first, and
/// then one for each full step that fits.
pub open spec fn sampled_len(len: int, nth: int) -> int {
    if len <= 0 {
        0
    } else {
        (len - 1) / nth + 1
    }
}

/// Every `nth` sample of `data`, from the first on.
pub open spec fn every_nth<T>(data: Seq<T>, nth: int) -> Seq<T> {
    Seq::new(sampled_len(data.len() as int, nth) as nat, |i: int| data[i * nth])
}

/// Takes every `nth_sample`-th sample of `data`, from the first on. A step
/// of 0 takes nothing and is not accepted.
pub fn subsample<T: Copy>(data: &Vec<T>, nth_sample: usize) -> (sampled: Vec<T>)
    requires
        nth_sample > 0,
    ensures
        sampled@ == every_nth(data@, nth_sample as int),
{
    let mut sampled: Vec<T> = Vec::new();
    let mut at: usize = 0;
    let len: usize = data.len();
    assert(at == sampled@.len() * nth_sample) by (nonlinear_arith)
        requires
            at == 0,
            sampled@.len() == 0,
    ;
    while at < len
        invariant_except_break
            at == sampled@.len() * nth_sample,
            at < len || (at == 0 && sampled@.len() == 0),
        invariant
            nth_sample > 0,
            len == data@.len(),
            forall|i: int| 0 <= i < sampled@.len() ==> sampled@[i] == data@[i * nth_sample],
        ensures
            sampled@.len() == sampled_len(len as int, nth_sample as int),
        decreases len - at,
    {
        let ghost taken = sampled@.len() as int;
        sampled.push(data[at]);
        if len - at > nth_sample {
            at = at + nth_sample;
            assert(at == sampled@.len() * nth_sample) by (nonlinear_arith)
                requires
                    at == taken * nth_sample + nth_sample,
                    sampled@.len() == taken + 1,
            ;
        } else {
            proof {
                last_step(len as int, nth_sample as int, taken);
            }
            break ;
        }
    }
    assert(sampled@ =~= every_nth(data@, nth_sample as int));
    sampled
}

/// The sample position after which no full step fits is the last taken.
proof fn last_step(len: int, nth: int, k: int)
    requires
        nth > 0,
        0 <= k,
        k * nth < len,
        len - k * nth <= nth,
    ensures
        k + 1 == sampled_len(len, nth),
{
    assert((len - 1) / nth == k) by (nonlinear_arith)
        requires
            nth > 0,
            0 <= k,
            k * nth <= len - 1,
            len - 1 < k * nth + nth,
    ;
}

} // verus!
