//! The animated loading page: the letters D, O, X, L, E one after the
//! other, then the blinking "loading" text, over and over.
use vstd::prelude::*;

verus! {

/// Index of the phase that shows the loading text instead of a letter.
pub const LOADING_PHASE: usize = 5;

/// Number of steps in one round of the animation.
pub const CYCLE_STEPS: usize = 12;

/// One step of the animation: what to show, then how long to wait.
#[derive(Clone, Copy, PartialEq, Eq, Debug, Structural)]
pub struct CycleStep {
    /// Letter (0 to 4) or loading phase (5) to show, if it changes.
    pub letter_index: Option<usize>,
    /// CSS class of the loading text, if it changes.
    pub loading_class: Option<LoadingClass>,
    pub wait_ms: u32,
}

/// Look of the loading text.
#[derive(Clone, Copy, PartialEq, Eq, Debug, Structural)]
pub enum LoadingClass {
    Hidden,
    Visible,
    FadeOut,
}

impl LoadingClass {
    /// CSS class for the look.
    pub fn class_name(&self) -> (name: &'static str)
        ensures
            *self == LoadingClass::Hidden ==> name@ == ""@,
            *self == LoadingClass::Visible ==> name@ == "visible"@,
            *self == LoadingClass::FadeOut ==> name@ == "fade-out"@,
    {
        match self {
            LoadingClass::Hidden => "",
            LoadingClass::Visible => "visible",
            LoadingClass::FadeOut => "fade-out",
        }
    }
}

/// Step `k` of a round: each letter for 800 ms, then the loading text
/// blinks twice fast (150 ms), stays for 800 ms, fades out over 600 ms,
/// and after a 200 ms pause the round starts again.
pub open spec fn spec_cycle_step(k: int) -> CycleStep {
    if 0 <= k < 5 {
        CycleStep { letter_index: Some(k as usize), loading_class: None, wait_ms: 800 }
    } else if k == 5 {
        CycleStep {
            letter_index: Some(LOADING_PHASE),
            loading_class: Some(LoadingClass::Visible),
            wait_ms: 150,
        }
    } else if k == 6 || k == 8 {
        CycleStep { letter_index: None, loading_class: Some(LoadingClass::Hidden), wait_ms: 150 }
    } else if k == 7 {
        CycleStep { letter_index: None, loading_class: Some(LoadingClass::Visible), wait_ms: 150 }
    } else if k == 9 {
        CycleStep { letter_index: None, loading_class: Some(LoadingClass::Visible), wait_ms: 800 }
    } else if k == 10 {
        CycleStep { letter_index: None, loading_class: Some(LoadingClass::FadeOut), wait_ms: 600 }
    } else {
        CycleStep { letter_index: None, loading_class: Some(LoadingClass::Hidden), wait_ms: 200 }
    }
}

/// Step `k` of a round of the animation.
pub fn letter_cycle_step(k: usize) -> (step: CycleStep)
    requires
        k < CYCLE_STEPS,
    ensures
        step == spec_cycle_step(k as int),
{
    if k < 5 {
        CycleStep { letter_index: Some(k), loading_class: None, wait_ms: 800 }
    } else if k == 5 {
        CycleStep {
            letter_index: Some(LOADING_PHASE),
            loading_class: Some(LoadingClass::Visible),
            wait_ms: 150,
        }
    } else if k == 6 || k == 8 {
        CycleStep { letter_index: None, loading_class: Some(LoadingClass::Hidden), wait_ms: 150 }
    } else if k == 7 {
        CycleStep { letter_index: None, loading_class: Some(LoadingClass::Visible), wait_ms: 150 }
    } else if k == 9 {
        CycleStep { letter_index: None, loading_class: Some(LoadingClass::Visible), wait_ms: 800 }
    } else if k == 10 {
        CycleStep { letter_index: None, loading_class: Some(LoadingClass::FadeOut), wait_ms: 600 }
    } else {
        CycleStep { letter_index: None, loading_class: Some(LoadingClass::Hidden), wait_ms: 200 }
    }
}

/// The step after `k`; after the last step the round starts again.
pub fn next_cycle_step(k: usize) -> (next: usize)
    requires
        k < CYCLE_STEPS,
    ensures
        next < CYCLE_STEPS,
        next == (k + 1) % (CYCLE_STEPS as int),
{
    if k + 1 == CYCLE_STEPS {
        0
    } else {
        k + 1
    }
}

/// Time spent in the first `n` steps of a round.
pub open spec fn elapsed_ms(n: int) -> int
    decreases n,
{
    if n <= 0 {
        0
    } else {
        elapsed_ms(n - 1) + spec_cycle_step(n - 1).wait_ms
    }
}

/// A round lasts 6.2 seconds: 4 s of letters, then 2.2 s of loading text;
/// the letters come in order D, O, X, L, E, followed by the loading phase.
pub proof fn lemma_round_duration()
    ensures
        elapsed_ms(CYCLE_STEPS as int) == 6200,
        elapsed_ms(5) == 4000,
        forall|k: int| 0 <= k <= LOADING_PHASE ==> spec_cycle_step(k).letter_index == Some(
            k as usize,
        ),
        forall|k: int| LOADING_PHASE < k < CYCLE_STEPS ==> spec_cycle_step(k).letter_index is None,
{
    reveal_with_fuel(elapsed_ms, 13);
}

} // verus!
