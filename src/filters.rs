//! The filters: one, two or three first-order stages in cascade, all sharing one gain.
use vstd::prelude::*;
use crate::gain::{FilterError, GAIN_ONE, filter_gain, stage_gain, valid_params};
use crate::pole::{pole_next, pole_step};

verus! {

/// A single-pole exponential smoother.
#[derive(Clone, Copy, Debug, PartialEq, Eq, Structural)]
pub struct Pt1 {
    /// The last output.
    pub state: i32,
    /// The per-step gain, a fraction of [`GAIN_ONE`].
    pub k: u32,
}

/// Two single-pole stages in cascade.
#[derive(Clone, Copy, Debug, PartialEq, Eq, Structural)]
pub struct Pt2 {
    /// The last output, that of the second stage.
    pub state: i32,
    /// The last output of the first stage.
    pub state1: i32,
    /// The per-step gain of each stage, a fraction of [`GAIN_ONE`].
    pub k: u32,
}

/// Three single-pole stages in cascade.
#[derive(Clone, Copy, Debug, PartialEq, Eq, Structural)]
pub struct Pt3 {
    /// The last output, that of the third stage.
    pub state: i32,
    /// The last output of the first stage.
    pub state1: i32,
    /// The last output of the second stage.
    pub state2: i32,
    /// The per-step gain of each stage, a fraction of [`GAIN_ONE`].
    pub k: u32,
}

impl Pt1 {
    /// The gain is at most the whole error.
    pub open spec fn wf(&self) -> bool {
        self.k <= GAIN_ONE
    }
}

impl Pt2 {
    /// The gain is at most the whole error.
    pub open spec fn wf(&self) -> bool {
        self.k <= GAIN_ONE
    }
}

impl Pt3 {
    /// The gain is at most the whole error.
    pub open spec fn wf(&self) -> bool {
        self.k <= GAIN_ONE
    }
}

/// A single-pole filter at rest, tuned to `cutoff_mhz` and `dt_us`.
pub open spec fn pt1_made(cutoff_mhz: int, dt_us: int) -> Pt1 {
    Pt1 { state: 0, k: stage_gain(1, cutoff_mhz, dt_us) as u32 }
}

/// A two-pole filter at rest, tuned to `cutoff_mhz` and `dt_us`.
pub open spec fn pt2_made(cutoff_mhz: int, dt_us: int) -> Pt2 {
    Pt2 { state: 0, state1: 0, k: stage_gain(2, cutoff_mhz, dt_us) as u32 }
}

/// A three-pole filter at rest, tuned to `cutoff_mhz` and `dt_us`.
pub open spec fn pt3_made(cutoff_mhz: int, dt_us: int) -> Pt3 {
    Pt3 { state: 0, state1: 0, state2: 0, k: stage_gain(3, cutoff_mhz, dt_us) as u32 }
}

/// `f` retuned to `cutoff_mhz` and `dt_us`, its states kept.
pub open spec fn pt1_retuned(f: Pt1, cutoff_mhz: int, dt_us: int) -> Pt1 {
    Pt1 { state: f.state, k: stage_gain(1, cutoff_mhz, dt_us) as u32 }
}

/// `f` retuned to `cutoff_mhz` and `dt_us`, its states kept.
pub open spec fn pt2_retuned(f: Pt2, cutoff_mhz: int, dt_us: int) -> Pt2 {
    Pt2 { state: f.state, state1: f.state1, k: stage_gain(2, cutoff_mhz, dt_us) as u32 }
}

/// `f` retuned to `cutoff_mhz` and `dt_us`, its states kept.
pub open spec fn pt3_retuned(f: Pt3, cutoff_mhz: int, dt_us: int) -> Pt3 {
    Pt3 {
        state: f.state,
        state1: f.state1,
        state2: f.state2,
        k: stage_gain(3, cutoff_mhz, dt_us) as u32,
    }
}

/// `g` is `f` after one step with the sample `input`.
pub open spec fn pt1_stepped(f: Pt1, input: int, g: Pt1) -> bool {
    &&& g.k == f.k
    &&& g.state == pole_next(f.state as int, input, f.k as int)
}

/// `g` is `f` after one step with the sample `input`: the first stage follows the
/// input, the second the first stage's new output.
pub open spec fn pt2_stepped(f: Pt2, input: int, g: Pt2) -> bool {
    &&& g.k == f.k
    &&& g.state1 == pole_next(f.state1 as int, input, f.k as int)
    &&& g.state == pole_next(f.state as int, g.state1 as int, f.k as int)
}

/// `g` is `f` after one step with the sample `input`: each stage follows the new
/// output of the one before it, the first the input.
pub open spec fn pt3_stepped(f: Pt3, input: int, g: Pt3) -> bool {
    &&& g.k == f.k
    &&& g.state1 == pole_next(f.state1 as int, input, f.k as int)
    &&& g.state2 == pole_next(f.state2 as int, g.state1 as int, f.k as int)
    &&& g.state == pole_next(f.state as int, g.state2 as int, f.k as int)
}

/// A single-pole filter with cutoff `cutoff_mhz` millihertz, sampled every `dt_us`
/// microseconds, its state at zero. A zero cutoff or period is refused.
pub fn make_pt1(cutoff_mhz: u32, dt_us: u32) -> (r: Result<Pt1, FilterError>)
    ensures
        r == (if valid_params(cutoff_mhz as int, dt_us as int) {
            Ok::<Pt1, FilterError>(pt1_made(cutoff_mhz as int, dt_us as int))
        } else {
            Err::<Pt1, FilterError>(FilterError::InvalidParameter)
        }),
        r matches Ok(f) ==> f.wf(),
{
    match filter_gain(1, cutoff_mhz, dt_us) {
        Ok(k) => Ok(Pt1 { state: 0, k }),
        Err(e) => Err(e),
    }
}

/// Feeds one sample to the filter and returns its new output.
pub fn apply_pt1(filter: &mut Pt1, input: i32) -> (r: i32)
    requires
        old(filter).wf(),
    ensures
        pt1_stepped(*old(filter), input as int, *final(filter)),
        r == final(filter).state,
{
    filter.state = pole_step(filter.state, input, filter.k);
    filter.state
}

/// Retunes the filter to a new cutoff and period, keeping its state. A zero cutoff or
/// period is refused and leaves the filter as it was.
pub fn adjust_pt1_gain(filter: &mut Pt1, cutoff_mhz: u32, dt_us: u32) -> (r: Result<(), FilterError>)
    ensures
        valid_params(cutoff_mhz as int, dt_us as int) ==> r is Ok && *final(filter) == pt1_retuned(
            *old(filter),
            cutoff_mhz as int,
            dt_us as int,
        ),
        !valid_params(cutoff_mhz as int, dt_us as int) ==> r == Err::<(), FilterError>(
            FilterError::InvalidParameter,
        ) && *final(filter) == *old(filter),
        r is Ok ==> final(filter).wf(),
{
    let k = filter_gain(1, cutoff_mhz, dt_us)?;
    filter.k = k;
    Ok(())
}

/// A two-pole filter with cutoff `cutoff_mhz` millihertz, sampled every `dt_us`
/// microseconds, its states at zero. A zero cutoff or period is refused.
pub fn make_pt2(cutoff_mhz: u32, dt_us: u32) -> (r: Result<Pt2, FilterError>)
    ensures
        r == (if valid_params(cutoff_mhz as int, dt_us as int) {
            Ok::<Pt2, FilterError>(pt2_made(cutoff_mhz as int, dt_us as int))
        } else {
            Err::<Pt2, FilterError>(FilterError::InvalidParameter)
        }),
        r matches Ok(f) ==> f.wf(),
{
    match filter_gain(2, cutoff_mhz, dt_us) {
        Ok(k) => Ok(Pt2 { state: 0, state1: 0, k }),
        Err(e) => Err(e),
    }
}

/// Feeds one sample through both stages and returns the new output.
pub fn apply_pt2(filter: &mut Pt2, input: i32) -> (r: i32)
    requires
        old(filter).wf(),
    ensures
        pt2_stepped(*old(filter), input as int, *final(filter)),
        r == final(filter).state,
{
    filter.state1 = pole_step(filter.state1, input, filter.k);
    filter.state = pole_step(filter.state, filter.state1, filter.k);
    filter.state
}

/// Retunes the filter to a new cutoff and period, keeping its states. A zero cutoff
/// or period is refused and leaves the filter as it was.
pub fn adjust_pt2_gain(filter: &mut Pt2, cutoff_mhz: u32, dt_us: u32) -> (r: Result<(), FilterError>)
    ensures
        valid_params(cutoff_mhz as int, dt_us as int) ==> r is Ok && *final(filter) == pt2_retuned(
            *old(filter),
            cutoff_mhz as int,
            dt_us as int,
        ),
        !valid_params(cutoff_mhz as int, dt_us as int) ==> r == Err::<(), FilterError>(
            FilterError::InvalidParameter,
        ) && *final(filter) == *old(filter),
        r is Ok ==> final(filter).wf(),
{
    let k = filter_gain(2, cutoff_mhz, dt_us)?;
    filter.k = k;
    Ok(())
}

/// A three-pole filter with cutoff `cutoff_mhz` millihertz, sampled every `dt_us`
/// microseconds, its states at zero. A zero cutoff or period is refused.
pub fn make_pt3(cutoff_mhz: u32, dt_us: u32) -> (r: Result<Pt3, FilterError>)
    ensures
        r == (if valid_params(cutoff_mhz as int, dt_us as int) {
            Ok::<Pt3, FilterError>(pt3_made(cutoff_mhz as int, dt_us as int))
        } else {
            Err::<Pt3, FilterError>(FilterError::InvalidParameter)
        }),
        r matches Ok(f) ==> f.wf(),
{
    match filter_gain(3, cutoff_mhz, dt_us) {
        Ok(k) => Ok(Pt3 { state: 0, state1: 0, state2: 0, k }),
        Err(e) => Err(e),
    }
}

/// Feeds one sample through the three stages and returns the new output.
pub fn apply_pt3(filter: &mut Pt3, input: i32) -> (r: i32)
    requires
        old(filter).wf(),
    ensures
        pt3_stepped(*old(filter), input as int, *final(filter)),
        r == final(filter).state,
{
    filter.state1 = pole_step(filter.state1, input, filter.k);
    filter.state2 = pole_step(filter.state2, filter.state1, filter.k);
    filter.state = pole_step(filter.state, filter.state2, filter.k);
    filter.state
}

/// Retunes the filter to a new cutoff and period, keeping its states. A zero cutoff
/// or period is refused and leaves the filter as it was.
pub fn adjust_pt3_gain(filter: &mut Pt3, cutoff_mhz: u32, dt_us: u32) -> (r: Result<(), FilterError>)
    ensures
        valid_params(cutoff_mhz as int, dt_us as int) ==> r is Ok && *final(filter) == pt3_retuned(
            *old(filter),
            cutoff_mhz as int,
            dt_us as int,
        ),
        !valid_params(cutoff_mhz as int, dt_us as int) ==> r == Err::<(), FilterError>(
            FilterError::InvalidParameter,
        ) && *final(filter) == *old(filter),
        r is Ok ==> final(filter).wf(),
{
    let k = filter_gain(3, cutoff_mhz, dt_us)?;
    filter.k = k;
    Ok(())
}

/// A filter of one, two or three poles, its order chosen when it is made.
#[derive(Clone, Copy, Debug, PartialEq, Eq, Structural)]
pub enum Filter {
    /// A single-pole filter.
    One(Pt1),
    /// A two-pole filter.
    Two(Pt2),
    /// A three-pole filter.
    Three(Pt3),
}

impl Filter {
    /// The gain is at most the whole error.
    pub open spec fn wf(&self) -> bool {
        match *self {
            Filter::One(f) => f.wf(),
            Filter::Two(f) => f.wf(),
            Filter::Three(f) => f.wf(),
        }
    }

    /// The filter at rest of the given order, tuned to `cutoff_mhz` and `dt_us`.
    pub open spec fn made(order: int, cutoff_mhz: int, dt_us: int) -> Filter {
        if order == 1 {
            Filter::One(pt1_made(cutoff_mhz, dt_us))
        } else if order == 2 {
            Filter::Two(pt2_made(cutoff_mhz, dt_us))
        } else {
            Filter::Three(pt3_made(cutoff_mhz, dt_us))
        }
    }

    /// The filter's last output.
    pub open spec fn output(&self) -> int {
        match *self {
            Filter::One(f) => f.state as int,
            Filter::Two(f) => f.state as int,
            Filter::Three(f) => f.state as int,
        }
    }

    /// `g` is `self` after one step with the sample `input`.
    pub open spec fn stepped(&self, input: int, g: Filter) -> bool {
        match (*self, g) {
            (Filter::One(a), Filter::One(b)) => pt1_stepped(a, input, b),
            (Filter::Two(a), Filter::Two(b)) => pt2_stepped(a, input, b),
            (Filter::Three(a), Filter::Three(b)) => pt3_stepped(a, input, b),
            _ => false,
        }
    }

    /// `self` retuned to `cutoff_mhz` and `dt_us`, its states kept.
    pub open spec fn retuned(&self, cutoff_mhz: int, dt_us: int) -> Filter {
        match *self {
            Filter::One(f) => Filter::One(pt1_retuned(f, cutoff_mhz, dt_us)),
            Filter::Two(f) => Filter::Two(pt2_retuned(f, cutoff_mhz, dt_us)),
            Filter::Three(f) => Filter::Three(pt3_retuned(f, cutoff_mhz, dt_us)),
        }
    }

    /// A filter of `order` poles (one, two or three) with cutoff `cutoff_mhz`
    /// millihertz, sampled every `dt_us` microseconds, its states at zero. Another
    /// order, or a zero cutoff or period, is refused.
    pub fn new(order: u8, cutoff_mhz: u32, dt_us: u32) -> (r: Result<Filter, FilterError>)
        ensures
            r == (if 1 <= order <= 3 && valid_params(cutoff_mhz as int, dt_us as int) {
                Ok::<Filter, FilterError>(Filter::made(order as int, cutoff_mhz as int, dt_us as int))
            } else {
                Err::<Filter, FilterError>(FilterError::InvalidParameter)
            }),
            r matches Ok(f) ==> f.wf(),
    {
        if order == 1 {
            Ok(Filter::One(make_pt1(cutoff_mhz, dt_us)?))
        } else if order == 2 {
            Ok(Filter::Two(make_pt2(cutoff_mhz, dt_us)?))
        } else if order == 3 {
            Ok(Filter::Three(make_pt3(cutoff_mhz, dt_us)?))
        } else {
            Err(FilterError::InvalidParameter)
        }
    }

    /// Feeds one sample to the filter and returns its new output.
    pub fn apply(&mut self, input: i32) -> (r: i32)
        requires
            old(self).wf(),
        ensures
            old(self).stepped(input as int, *final(self)),
            final(self).wf(),
            r == final(self).output(),
    {
        match self {
            Filter::One(f) => apply_pt1(f, input),
            Filter::Two(f) => apply_pt2(f, input),
            Filter::Three(f) => apply_pt3(f, input),
        }
    }

    /// Retunes the filter to a new cutoff and period, keeping its order and states. A
    /// zero cutoff or period is refused and leaves the filter as it was.
    pub fn reconfigure(&mut self, cutoff_mhz: u32, dt_us: u32) -> (r: Result<(), FilterError>)
        ensures
            valid_params(cutoff_mhz as int, dt_us as int) ==> r is Ok && *final(self)
                == old(self).retuned(cutoff_mhz as int, dt_us as int),
            !valid_params(cutoff_mhz as int, dt_us as int) ==> r == Err::<(), FilterError>(
                FilterError::InvalidParameter,
            ) && *final(self) == *old(self),
            r is Ok ==> final(self).wf(),
    {
        match self {
            Filter::One(f) => adjust_pt1_gain(f, cutoff_mhz, dt_us),
            Filter::Two(f) => adjust_pt2_gain(f, cutoff_mhz, dt_us),
            Filter::Three(f) => adjust_pt3_gain(f, cutoff_mhz, dt_us),
        }
    }
}

/// Retuning a single-pole filter to the cutoff and period it was tuned with changes
/// nothing: the gain stays as it was, and so does the state.
pub proof fn lemma_pt1_retune_same_params(f: Pt1, cutoff_mhz: int, dt_us: int)
    requires
        f.k == stage_gain(1, cutoff_mhz, dt_us) as u32,
    ensures
        pt1_retuned(f, cutoff_mhz, dt_us) == f,
{
}

/// Retuning a two-pole filter to the cutoff and period it was tuned with changes
/// nothing: the gain stays as it was, and so do the states.
pub proof fn lemma_pt2_retune_same_params(f: Pt2, cutoff_mhz: int, dt_us: int)
    requires
        f.k == stage_gain(2, cutoff_mhz, dt_us) as u32,
    ensures
        pt2_retuned(f, cutoff_mhz, dt_us) == f,
{
}

/// Retuning a three-pole filter to the cutoff and period it was tuned with changes
/// nothing: the gain stays as it was, and so do the states.
pub proof fn lemma_pt3_retune_same_params(f: Pt3, cutoff_mhz: int, dt_us: int)
    requires
        f.k == stage_gain(3, cutoff_mhz, dt_us) as u32,
    ensures
        pt3_retuned(f, cutoff_mhz, dt_us) == f,
{
}

} // verus!
