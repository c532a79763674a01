//! The replay engine of a backtest: a cursor that steps through historical
//! time and tells its driver what to do at each step.
//!
//! The engine decides; its driver acts. The driver fetches a month of
//! primary data when told to, and processes the data of a step when told to
//! advance. The cursor starts at the beginning of the warm-up and moves by a
//! fixed buffer step. Nothing the strategy can observe happens before the
//! warm-up is complete.

use crate::base_data::BaseDataEnum;
use crate::strategy_events::StrategyMode;
use crate::subscriptions::DataSubscription;
use chrono::Datelike;
use vstd::prelude::*;

verus! {

/// The month of the year, from 1 to 12, in which an instant falls in UTC.
pub uninterp spec fn utc_month(nanos: i64) -> u32;

/// `chrono::DateTime::from_timestamp_nanos` followed by `Datelike::month`:
/// the number of the month in which the instant falls in UTC, from 1 to 12.
#[verifier::external_body]
pub(crate) fn month_of(nanos: i64) -> (month: u32)
    ensures
        month == utc_month(nanos),
        1 <= month <= 12,
{
    chrono::DateTime::from_timestamp_nanos(nanos).month()
}

/// Where the engine stands between fetches.
#[derive(Clone, Copy, Debug, PartialEq, Eq, Structural)]
pub enum ReplayPhase {
    /// The data for the next step has yet to be fetched.
    NeedFetch,
    /// The data of this month of the year is loaded.
    InMonth(u32),
    /// The replay has ended.
    Done,
}

/// What the driver is to do next.
#[derive(Clone, Copy, Debug, PartialEq, Eq, Structural)]
pub enum ReplayAction {
    /// Fetch the primary data of the month that holds `month_of`, from the
    /// instant `from` on, `from` itself excluded, for the primary
    /// subscriptions the engine now holds.
    Fetch { from: i64, month_of: i64 },
    /// Process the primary data later than `from` and not later than
    /// `time`. `observable` says whether the strategy is to see the slice:
    /// it is not during warm-up.
    Advance { from: i64, time: i64, observable: bool },
    /// The replay is over. `shutdown` says whether the strategy is to be
    /// told so: it is at the end of a backtest, and is not when a live
    /// strategy has warmed up and goes on with live data.
    Finished { shutdown: bool },
}

/// One decision of the engine.
#[derive(Clone, Copy, Debug, PartialEq, Eq, Structural)]
pub struct ReplayStep {
    /// Whether this step completes the warm-up. The driver then announces
    /// it before anything else.
    pub warm_up_completed: bool,
    pub action: ReplayAction,
}

/// The state of the replay.
pub struct ReplayState {
    pub mode: StrategyMode,
    /// The instant the strategy starts at; warm-up ends here.
    pub start_time: i64,
    /// The instant the replay ends at.
    pub end_time: i64,
    /// The length of a step of the cursor.
    pub buffer_step: i64,
    /// The cursor: everything up to and including this instant has been
    /// processed.
    pub last_time: i64,
    pub warm_up_complete: bool,
    pub phase: ReplayPhase,
    /// The primary subscriptions the data is fetched for.
    pub primaries: Seq<DataSubscription>,
}

/// Whether two lists name the same subscriptions in the same order.
pub open spec fn same_subscriptions(a: Seq<DataSubscription>, b: Seq<DataSubscription>) -> bool {
    a.len() == b.len() && forall|i: int| 0 <= i < a.len() ==> (#[trigger] a[i])@ == b[i]@
}

impl ReplayState {
    pub open spec fn wf(self) -> bool {
        self.buffer_step > 0
    }

    /// The primary subscriptions after an update has been looked at: the
    /// update, if there is one and it differs.
    pub open spec fn primaries_after(self, update: Option<Seq<DataSubscription>>) -> Seq<
        DataSubscription,
    > {
        match update {
            Some(new) => if same_subscriptions(new, self.primaries) {
                self.primaries
            } else {
                new
            },
            None => self.primaries,
        }
    }

    pub open spec fn changes(self, update: Option<Seq<DataSubscription>>) -> bool {
        update is Some && !same_subscriptions(update->Some_0, self.primaries)
    }

    /// State and decision of one step.
    ///
    /// The next instant is one buffer step after the cursor. Past the end
    /// the replay is over. Otherwise, data is fetched first if none is
    /// loaded. The step that first reaches the start completes the
    /// warm-up, and ends the replay of a live strategy. A step into another
    /// month, or one at which the primary subscriptions have changed,
    /// fetches again from the cursor and leaves the cursor where it is.
    /// Any other step advances the cursor.
    pub open spec fn step(self, update: Option<Seq<DataSubscription>>) -> (ReplayState, ReplayStep) {
        let time = self.last_time + self.buffer_step;
        if self.phase is Done {
            (
                self,
                ReplayStep {
                    warm_up_completed: false,
                    action: ReplayAction::Finished { shutdown: false },
                },
            )
        } else if time > self.end_time {
            (
                ReplayState { phase: ReplayPhase::Done, ..self },
                ReplayStep {
                    warm_up_completed: false,
                    action: ReplayAction::Finished {
                        shutdown: self.mode == StrategyMode::Backtest,
                    },
                },
            )
        } else {
            let time = time as i64;
            let primaries = self.primaries_after(update);
            let fetch = ReplayAction::Fetch { from: self.last_time, month_of: time };
            if self.phase is NeedFetch {
                (
                    ReplayState {
                        phase: ReplayPhase::InMonth(utc_month(time)),
                        primaries,
                        ..self
                    },
                    ReplayStep { warm_up_completed: false, action: fetch },
                )
            } else {
                let completes = !self.warm_up_complete && time >= self.start_time;
                let warm = self.warm_up_complete || completes;
                if completes && self.mode != StrategyMode::Backtest {
                    (
                        ReplayState {
                            phase: ReplayPhase::Done,
                            warm_up_complete: true,
                            primaries,
                            ..self
                        },
                        ReplayStep {
                            warm_up_completed: true,
                            action: ReplayAction::Finished { shutdown: false },
                        },
                    )
                } else if self.phase != ReplayPhase::InMonth(utc_month(time)) || self.changes(
                    update,
                ) {
                    (
                        ReplayState {
                            phase: ReplayPhase::InMonth(utc_month(time)),
                            warm_up_complete: warm,
                            primaries,
                            ..self
                        },
                        ReplayStep { warm_up_completed: completes, action: fetch },
                    )
                } else {
                    (
                        ReplayState { last_time: time, warm_up_complete: warm, ..self },
                        ReplayStep {
                            warm_up_completed: completes,
                            action: ReplayAction::Advance {
                                from: self.last_time,
                                time,
                                observable: warm,
                            },
                        },
                    )
                }
            }
        }
    }

    /// State and decisions after a sequence of steps, one per update slot.
    pub open spec fn run(self, updates: Seq<Option<Seq<DataSubscription>>>) -> (
        ReplayState,
        Seq<ReplayStep>,
    )
        decreases updates.len(),
    {
        if updates.len() == 0 {
            (self, Seq::empty())
        } else {
            let (before, steps) = self.run(updates.drop_last());
            let (after, step) = before.step(updates.last());
            (after, steps.push(step))
        }
    }
}

/// How many of the steps complete the warm-up.
pub open spec fn completions(steps: Seq<ReplayStep>) -> nat
    decreases steps.len(),
{
    if steps.len() == 0 {
        0
    } else {
        completions(steps.drop_last()) + (if steps.last().warm_up_completed {
            1nat
        } else {
            0nat
        })
    }
}

/// The historical replay engine.
pub struct HistoricalEngine {
    mode: StrategyMode,
    start_time: i64,
    end_time: i64,
    warmup_duration: i64,
    buffer_resolution: i64,
    gui_enabled: bool,
    last_time: i64,
    warm_up_complete: bool,
    phase: ReplayPhase,
    primary_subscriptions: Vec<DataSubscription>,
}

impl View for HistoricalEngine {
    type V = ReplayState;

    closed spec fn view(&self) -> ReplayState {
        ReplayState {
            mode: self.mode,
            start_time: self.start_time,
            end_time: self.end_time,
            buffer_step: self.buffer_resolution,
            last_time: self.last_time,
            warm_up_complete: self.warm_up_complete,
            phase: self.phase,
            primaries: self.primary_subscriptions@,
        }
    }
}

fn same_list(a: &Vec<DataSubscription>, b: &Vec<DataSubscription>) -> (same: bool)
    ensures
        same == same_subscriptions(a@, b@),
{
    if a.len() != b.len() {
        return false;
    }
    let mut i: usize = 0;
    while i < a.len()
        invariant
            i <= a.len(),
            a.len() == b.len(),
            forall|k: int| 0 <= k < i ==> (#[trigger] a@[k])@ == b@[k]@,
        decreases a.len() - i,
    {
        if !(a[i] == b[i]) {
            return false;
        }
        i = i + 1;
    }
    true
}

impl HistoricalEngine {
    /// The invariant of the engine.
    pub closed spec fn wf(&self) -> bool {
        self@.wf()
    }

    /// An engine that replays from `warmup_duration` before `start_date`
    /// up to `end_date`, or, for a live strategy, up to `start_date`.
    /// `None` where the buffer step is not positive, the warm-up duration
    /// is negative, or the warm-up would begin before the earliest
    /// representable instant.
    pub fn new(
        mode: StrategyMode,
        start_date: i64,
        end_date: i64,
        warmup_duration: i64,
        buffer_resolution: i64,
        gui_enabled: bool,
        primary_subscriptions: Vec<DataSubscription>,
    ) -> (made: Option<Self>)
        ensures
            made is Some <==> (buffer_resolution > 0 && warmup_duration >= 0 && start_date
                - warmup_duration >= i64::MIN),
            made is Some ==> made->Some_0.wf() && made->Some_0@ == (ReplayState {
                mode,
                start_time: start_date,
                end_time: if mode == StrategyMode::Backtest {
                    end_date
                } else {
                    start_date
                },
                buffer_step: buffer_resolution,
                last_time: (start_date - warmup_duration) as i64,
                warm_up_complete: false,
                phase: ReplayPhase::NeedFetch,
                primaries: primary_subscriptions@,
            }),
    {
        if buffer_resolution <= 0 || warmup_duration < 0 {
            return None;
        }
        let last_time = match start_date.checked_sub(warmup_duration) {
            Some(t) => t,
            None => {
                return None;
            },
        };
        let end_time = match mode {
            StrategyMode::Backtest => end_date,
            _ => start_date,
        };
        Some(
            HistoricalEngine {
                mode,
                start_time: start_date,
                end_time,
                warmup_duration,
                buffer_resolution,
                gui_enabled,
                last_time,
                warm_up_complete: false,
                phase: ReplayPhase::NeedFetch,
                primary_subscriptions,
            },
        )
    }

    /// Decides the next step. `update` is the latest primary subscription
    /// set that was announced since the last step, if one was.
    pub fn launch(&mut self, update: Option<Vec<DataSubscription>>) -> (step: ReplayStep)
        requires
            old(self).wf(),
        ensures
            final(self).wf(),
            final(self)@ == old(self)@.step(
                match update {
                    Some(u) => Some(u@),
                    None => None,
                },
            ).0,
            step == old(self)@.step(
                match update {
                    Some(u) => Some(u@),
                    None => None,
                },
            ).1,
    {
        if let ReplayPhase::Done = self.phase {
            return ReplayStep {
                warm_up_completed: false,
                action: ReplayAction::Finished { shutdown: false },
            };
        }
        let time = match self.last_time.checked_add(self.buffer_resolution) {
            Some(time) => time,
            None => {
                self.phase = ReplayPhase::Done;
                return ReplayStep {
                    warm_up_completed: false,
                    action: ReplayAction::Finished {
                        shutdown: self.mode == StrategyMode::Backtest,
                    },
                };
            },
        };
        if time > self.end_time {
            self.phase = ReplayPhase::Done;
            return ReplayStep {
                warm_up_completed: false,
                action: ReplayAction::Finished { shutdown: self.mode == StrategyMode::Backtest },
            };
        }
        let changed = match update {
            Some(new) => {
                if same_list(&new, &self.primary_subscriptions) {
                    false
                } else {
                    self.primary_subscriptions = new;
                    true
                }
            },
            None => false,
        };
        let month = month_of(time);
        let fetch = ReplayAction::Fetch { from: self.last_time, month_of: time };
        if let ReplayPhase::NeedFetch = self.phase {
            self.phase = ReplayPhase::InMonth(month);
            return ReplayStep { warm_up_completed: false, action: fetch };
        }
        let completes = !self.warm_up_complete && time >= self.start_time;
        if completes {
            self.warm_up_complete = true;
            if self.mode != StrategyMode::Backtest {
                self.phase = ReplayPhase::Done;
                return ReplayStep {
                    warm_up_completed: true,
                    action: ReplayAction::Finished { shutdown: false },
                };
            }
        }
        if self.phase != ReplayPhase::InMonth(month) || changed {
            self.phase = ReplayPhase::InMonth(month);
            return ReplayStep { warm_up_completed: completes, action: fetch };
        }
        let from = self.last_time;
        self.last_time = time;
        ReplayStep {
            warm_up_completed: completes,
            action: ReplayAction::Advance { from, time, observable: self.warm_up_complete },
        }
    }

    /// The cursor.
    pub fn last_time(&self) -> (time: i64)
        ensures
            time == self@.last_time,
    {
        self.last_time
    }

    pub fn is_warm_up_complete(&self) -> (complete: bool)
        ensures
            complete == self@.warm_up_complete,
    {
        self.warm_up_complete
    }

    /// The primary subscriptions data is fetched for.
    pub fn primary_subscriptions(&self) -> (primaries: &Vec<DataSubscription>)
        ensures
            primaries@ == self@.primaries,
    {
        &self.primary_subscriptions
    }
}

/// The data of a month that falls into a step: later than `after` and not
/// later than `up_to`, in the order the vendor gave it.
pub open spec fn spec_slice_between(data: Seq<BaseDataEnum>, after: i64, up_to: i64) -> Seq<
    BaseDataEnum,
> {
    data.filter(|d: BaseDataEnum| after < d.spec_time() <= up_to)
}

/// Picks the data of a step out of the data of a month.
pub fn slice_between(data: &Vec<BaseDataEnum>, after: i64, up_to: i64) -> (slice: Vec<BaseDataEnum>)
    ensures
        slice@ == spec_slice_between(data@, after, up_to),
{
    let mut slice: Vec<BaseDataEnum> = Vec::new();
    let ghost keep = |d: BaseDataEnum| after < d.spec_time() <= up_to;
    let mut i: usize = 0;
    assert(data@.take(0) =~= Seq::<BaseDataEnum>::empty());
    while i < data.len()
        invariant
            i <= data.len(),
            keep == |d: BaseDataEnum| after < d.spec_time() <= up_to,
            slice@ == data@.take(i as int).filter(keep),
        decreases data.len() - i,
    {
        proof {
            assert(data@.take(i + 1) =~= data@.take(i as int).push(data@[i as int]));
            data@.take(i as int).lemma_filter_push(data@[i as int], keep);
        }
        let time = data[i].time_utc();
        if after < time && time <= up_to {
            slice.push(data[i].clone());
        }
        i = i + 1;
    }
    assert(data@.take(data.len() as int) =~= data@);
    slice
}

/// A step that advances moves the cursor forward by one buffer step, from
/// where it was, and never past the end; a step that fetches or finishes
/// leaves the cursor alone, and a fetch starts at the cursor. A change of
/// the primary subscriptions is taken over by the step that sees it, and
/// that step processes no data.
pub proof fn lemma_step_moves_forward(state: ReplayState, update: Option<Seq<DataSubscription>>)
    requires
        state.wf(),
    ensures
        state.step(update).0.wf(),
        state.step(update).0.last_time >= state.last_time,
        match state.step(update).1.action {
            ReplayAction::Advance { from, time, observable } => from == state.last_time && time
                == state.last_time + state.buffer_step && state.step(update).0.last_time == time
                && time <= state.end_time && observable == state.step(update).0.warm_up_complete
                && !state.changes(update) && state.step(update).0.primaries == state.primaries,
            ReplayAction::Fetch { from, month_of } => from == state.last_time && state.step(
                update,
            ).0.last_time == state.last_time && month_of == state.last_time + state.buffer_step
                && state.step(update).0.primaries == state.primaries_after(update),
            ReplayAction::Finished { shutdown } => state.step(update).0.last_time
                == state.last_time && state.step(update).0.phase is Done,
        },
        state.changes(update) ==> !(state.step(update).1.action is Advance),
        state.step(update).1.warm_up_completed == (!state.warm_up_complete && state.step(
            update,
        ).0.warm_up_complete),
        state.warm_up_complete ==> state.step(update).0.warm_up_complete,
        state.step(update).0.warm_up_complete ==> state.step(update).0.last_time
            + state.buffer_step >= state.start_time || state.warm_up_complete,
{
}

/// Over any run of the engine: the cursor never moves back; every advance
/// ends later than the cursor stood when the run began; the warm-up
/// completes at most once, and exactly once if the run begins in warm-up
/// and ends out of it; and no step lets the strategy observe data unless
/// the warm-up was complete before the run or has been completed by a step
/// of the run not after it.
pub proof fn lemma_run_is_ordered(
    state: ReplayState,
    updates: Seq<Option<Seq<DataSubscription>>>,
    i: int,
)
    requires
        state.wf(),
        0 <= i < updates.len(),
    ensures
        state.run(updates).1.len() == updates.len(),
        state.run(updates).0.wf(),
        state.run(updates).0.last_time >= state.last_time,
        completions(state.run(updates).1) <= 1,
        completions(state.run(updates).1) == (if !state.warm_up_complete && state.run(
            updates,
        ).0.warm_up_complete {
            1nat
        } else {
            0nat
        }),
        match state.run(updates).1[i].action {
            ReplayAction::Advance { from, time, observable } => state.last_time <= from < time
                && time <= state.run(updates).0.last_time && (observable ==> state.warm_up_complete
                || completions(state.run(updates).1.take(i + 1)) == 1),
            _ => true,
        },
    decreases updates.len(),
{
    lemma_run_basics(state, updates);
    let (before, steps) = state.run(updates.drop_last());
    lemma_run_basics(state, updates.drop_last());
    lemma_step_moves_forward(before, updates.last());
    let all = state.run(updates).1;
    if i < updates.len() - 1 {
        lemma_run_is_ordered(state, updates.drop_last(), i);
        assert(all[i] == steps[i]);
        assert(all.take(i + 1) =~= steps.take(i + 1));
    } else {
        assert(all.take(i + 1) =~= all);
    }
}

/// The basic facts about a run: one decision per slot, the invariant
/// holds, the cursor has not moved back, and the warm-up has completed as
/// many times as it went from incomplete to complete.
pub proof fn lemma_run_basics(state: ReplayState, updates: Seq<Option<Seq<DataSubscription>>>)
    requires
        state.wf(),
    ensures
        state.run(updates).1.len() == updates.len(),
        state.run(updates).0.wf(),
        state.run(updates).0.last_time >= state.last_time,
        state.run(updates).0.buffer_step == state.buffer_step,
        state.warm_up_complete ==> state.run(updates).0.warm_up_complete,
        completions(state.run(updates).1) == (if !state.warm_up_complete && state.run(
            updates,
        ).0.warm_up_complete {
            1nat
        } else {
            0nat
        }),
    decreases updates.len(),
{
    if updates.len() > 0 {
        lemma_run_basics(state, updates.drop_last());
        let (before, steps) = state.run(updates.drop_last());
        lemma_step_moves_forward(before, updates.last());
        assert(state.run(updates).1.drop_last() =~= steps);
    }
}

} // verus!
