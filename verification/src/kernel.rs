//! The kernel: registers capabilities and runs their lifecycle.
//!
//! Starting is fail-fast: the first capability that fails to start ends the
//! sequence. Stopping is best-effort: every capability is asked to stop, in
//! reverse order, whatever the others answer. Health checks visit every
//! capability and report each answer under the capability's name.
//!
//! Each lifecycle comes twice: as a loop over the registered capabilities,
//! and as a pair of decision functions (`begin_..`, `after_..`) for a caller
//! that performs the capability calls itself.

use vstd::prelude::*;
use crate::capability::{start_failure, start_failure_of, Capability};
use crate::error::{ErrorView, FeishuError};

verus! {

/// Where a lifecycle run stands: which capability is next, or that the run
/// is over.
#[derive(Debug, Clone, Copy, PartialEq, Eq, Structural)]
pub enum Progress {
    /// The capability at this position is next.
    Next(usize),
    /// Every capability that the run visits has been visited.
    Finished,
}

/// What one capability's `start` or `stop` returned, as plain values.
pub open spec fn outcome_view(outcome: Result<(), FeishuError>) -> Result<(), ErrorView> {
    match outcome {
        Ok(_) => Ok(()),
        Err(e) => Err(e@),
    }
}

/// Where a run in registration order over `count` capabilities begins.
pub open spec fn first_in_order(count: nat) -> Progress {
    if count > 0 {
        Progress::Next(0)
    } else {
        Progress::Finished
    }
}

/// Where a run in registration order over `count` capabilities goes after
/// position `index`.
pub open spec fn next_in_order(count: nat, index: int) -> Progress {
    if index + 1 < count {
        Progress::Next((index + 1) as usize)
    } else {
        Progress::Finished
    }
}

/// A start sequence as it unfolds: the positions of the capabilities that
/// were started, in order, and the result.
pub struct StartRun {
    pub started: Seq<int>,
    pub result: Result<(), ErrorView>,
}

/// The start sequence from position `from` on, where `outcomes[i]` is what
/// the capability at position `i` answers when it is started.
pub open spec fn start_run(
    names: Seq<Seq<char>>,
    outcomes: Seq<Result<(), ErrorView>>,
    from: int,
) -> StartRun
    decreases names.len() - from,
{
    if from < 0 || from >= names.len() {
        StartRun { started: Seq::empty(), result: Ok(()) }
    } else {
        match outcomes[from] {
            Ok(_) => {
                let rest = start_run(names, outcomes, from + 1);
                StartRun { started: seq![from] + rest.started, result: rest.result }
            },
            Err(cause) => StartRun {
                started: seq![from],
                result: Err(start_failure(names[from], cause)),
            },
        }
    }
}

/// The positions visited by a stop sequence that begins at position `from`:
/// `from`, then every earlier position down to the first.
pub open spec fn stop_run(from: int) -> Seq<int>
    decreases from + 1,
{
    if from < 0 {
        Seq::empty()
    } else {
        seq![from] + stop_run(from - 1)
    }
}

/// Where a run stands that still has `remaining` to visit: at the first of
/// them, or at its end.
pub open spec fn progress_through(remaining: Seq<int>) -> Progress {
    if remaining.len() > 0 {
        Progress::Next(remaining[0] as usize)
    } else {
        Progress::Finished
    }
}

/// The report of a health check over capabilities with these names, where
/// `answers[i]` is what the capability at position `i` answers.
pub open spec fn health_report(names: Seq<Seq<char>>, answers: Seq<bool>) -> Seq<(Seq<char>, bool)> {
    Seq::new(names.len(), |i: int| (names[i], answers[i]))
}

/// Whether `answers` are what these capabilities answer to a health check,
/// one answer each, in order.
pub open spec fn answered_by<C: Capability>(capabilities: Seq<C>, answers: Seq<bool>) -> bool {
    &&& answers.len() == capabilities.len()
    &&& forall|i: int|
        0 <= i < answers.len() ==> call_ensures(
            C::health_check,
            (&capabilities[i],),
            #[trigger] answers[i],
        )
}

/// What each of `outcomes` returned, as plain values.
pub open spec fn outcome_views(outcomes: Seq<Result<(), FeishuError>>) -> Seq<Result<(), ErrorView>> {
    outcomes.map_values(|outcome: Result<(), FeishuError>| outcome_view(outcome))
}

/// Whether `outcomes` are what these capabilities answer to `start` in the
/// start sequence that these answers lead to: for every capability that the
/// sequence starts, `outcomes` holds its answer at its position. The
/// capabilities behind a failure are not started and have no answer.
pub open spec fn started_by<C: Capability>(
    capabilities: Seq<C>,
    names: Seq<Seq<char>>,
    outcomes: Seq<Result<(), FeishuError>>,
) -> bool {
    &&& outcomes.len() == capabilities.len()
    &&& forall|i: int|
        0 <= i < start_run(names, outcome_views(outcomes), 0).started.len() ==> call_ensures(
            C::start,
            (&capabilities[i],),
            #[trigger] outcomes[i],
        )
}

/// Whether none of these capabilities can fail to start: whatever one of
/// them answers to `start` is success.
pub open spec fn always_starts<C: Capability>(capabilities: Seq<C>) -> bool {
    forall|i: int, outcome: Result<(), FeishuError>|
        0 <= i < capabilities.len() && #[trigger] call_ensures(
            C::start,
            (&capabilities[i],),
            outcome,
        ) ==> outcome is Ok
}

/// Whether `outcomes` are what these capabilities answer to a request to
/// stop, one answer each, in order of registration.
pub open spec fn stopped_by<C: Capability>(
    capabilities: Seq<C>,
    outcomes: Seq<Result<(), FeishuError>>,
) -> bool {
    &&& outcomes.len() == capabilities.len()
    &&& forall|i: int|
        0 <= i < outcomes.len() ==> call_ensures(
            C::stop,
            (&capabilities[i],),
            #[trigger] outcomes[i],
        )
}

/// A health report as plain values.
pub open spec fn report_view(report: Seq<(String, bool)>) -> Seq<(Seq<char>, bool)> {
    report.map_values(|entry: (String, bool)| (entry.0@, entry.1))
}

/// Whether every entry of a health report is healthy.
pub open spec fn all_healthy(report: Seq<(Seq<char>, bool)>) -> bool {
    forall|i: int| 0 <= i < report.len() ==> (#[trigger] report[i]).1
}

/// The kernel: an ordered list of capabilities of type `C`, each under the
/// name it had when it was registered, and the event bus of type `B` that
/// they share.
pub struct FeishuKernel<C, B> {
    entries: Vec<(String, C)>,
    event_bus: B,
}

impl<C, B> FeishuKernel<C, B> {
    /// The names of the registered capabilities, in registration order.
    pub closed spec fn names(self) -> Seq<Seq<char>> {
        self.entries@.map_values(|entry: (String, C)| entry.0@)
    }

    /// The registered capabilities, in registration order.
    pub closed spec fn capabilities(self) -> Seq<C> {
        self.entries@.map_values(|entry: (String, C)| entry.1)
    }

    /// The kernel's event bus.
    pub closed spec fn bus(self) -> B {
        self.event_bus
    }

    /// A kernel without capabilities, around the given bus.
    pub fn new(event_bus: B) -> (kernel: FeishuKernel<C, B>)
        ensures
            kernel.names() == Seq::<Seq<char>>::empty(),
            kernel.capabilities() == Seq::<C>::empty(),
            kernel.bus() == event_bus,
    {
        let kernel = FeishuKernel { entries: Vec::new(), event_bus };
        assert(kernel.names() =~= Seq::<Seq<char>>::empty());
        assert(kernel.capabilities() =~= Seq::<C>::empty());
        kernel
    }

    /// The shared event bus.
    pub fn event_bus(&self) -> (bus: &B)
        ensures
            *bus == self.bus(),
    {
        &self.event_bus
    }

    /// Registers a capability under `name`, behind those registered before.
    pub fn register_named(&mut self, name: String, capability: C)
        ensures
            final(self).names() == old(self).names().push(name@),
            final(self).capabilities() == old(self).capabilities().push(capability),
            final(self).bus() == old(self).bus(),
    {
        self.entries.push((name, capability));
        assert(self.names() =~= old(self).names().push(name@));
        assert(self.capabilities() =~= old(self).capabilities().push(capability));
    }

    /// Number of registered capabilities.
    pub fn capability_count(&self) -> (count: usize)
        ensures
            count == self.names().len(),
            count == self.capabilities().len(),
    {
        self.entries.len()
    }

    /// The name under which the capability at `index` was registered.
    pub fn capability_name(&self, index: usize) -> (name: &str)
        requires
            index < self.names().len(),
        ensures
            name@ == self.names()[index as int],
    {
        self.entries[index].0.as_str()
    }

    /// The capability at `index`.
    pub fn capability(&self, index: usize) -> (capability: &C)
        requires
            index < self.capabilities().len(),
        ensures
            *capability == self.capabilities()[index as int],
    {
        &self.entries[index].1
    }

    /// Where a start sequence begins: at the first capability, if there is
    /// one.
    pub fn begin_start(&self) -> (progress: Progress)
        ensures
            progress == first_in_order(self.names().len()),
    {
        if self.entries.len() > 0 {
            Progress::Next(0)
        } else {
            Progress::Finished
        }
    }

    /// How a start sequence goes on after the capability at `index` answered
    /// `outcome`: to the next capability on success, and no further on
    /// failure.
    pub fn after_start(&self, index: usize, outcome: Result<(), FeishuError>) -> (next: Result<
        Progress,
        FeishuError,
    >)
        requires
            index < self.names().len(),
        ensures
            outcome is Ok ==> next == Ok::<Progress, FeishuError>(
                next_in_order(self.names().len(), index as int),
            ),
            outcome matches Err(cause) ==> next matches Err(e) && e@ == start_failure(
                self.names()[index as int],
                cause@,
            ),
    {
        let count = self.entries.len();
        assert(self.names().len() == count);
        match outcome {
            Ok(_) => {
                if index + 1 < count {
                    Ok(Progress::Next(index + 1))
                } else {
                    Ok(Progress::Finished)
                }
            },
            Err(cause) => Err(start_failure_of(self.entries[index].0.as_str(), &cause)),
        }
    }

    /// Where a stop sequence begins: at the capability registered last, if
    /// there is one.
    pub fn begin_stop(&self) -> (progress: Progress)
        ensures
            progress == progress_through(stop_run(self.names().len() - 1)),
    {
        assert(self.names().len() == self.entries@.len());
        if self.entries.len() > 0 {
            Progress::Next(self.entries.len() - 1)
        } else {
            Progress::Finished
        }
    }

    /// How a stop sequence goes on after the capability at `index` answered
    /// `outcome`: to the capability registered just before it, whatever the
    /// answer was.
    pub fn after_stop(&self, index: usize, outcome: &Result<(), FeishuError>) -> (progress: Progress)
        ensures
            progress == progress_through(stop_run(index - 1)),
    {
        if index > 0 {
            Progress::Next(index - 1)
        } else {
            Progress::Finished
        }
    }

    /// Where a health check begins: at the first capability, if there is
    /// one.
    pub fn begin_health_check(&self) -> (progress: Progress)
        ensures
            progress == first_in_order(self.names().len()),
    {
        if self.entries.len() > 0 {
            Progress::Next(0)
        } else {
            Progress::Finished
        }
    }

    /// Records what the capability at `index` answered to a health check,
    /// under its name, and says how the check goes on: to the next
    /// capability, healthy or not.
    pub fn after_health_check(
        &self,
        index: usize,
        healthy: bool,
        report: &mut Vec<(String, bool)>,
    ) -> (progress: Progress)
        requires
            index < self.names().len(),
        ensures
            report_view(final(report)@) == report_view(old(report)@).push(
                (self.names()[index as int], healthy),
            ),
            progress == next_in_order(self.names().len(), index as int),
    {
        let count = self.entries.len();
        assert(self.names().len() == count);
        report.push((self.entries[index].0.clone(), healthy));
        assert(report_view(report@) =~= report_view(old(report)@).push(
            (self.names()[index as int], healthy),
        ));
        if index + 1 < count {
            Progress::Next(index + 1)
        } else {
            Progress::Finished
        }
    }
}

impl<C: Capability, B> FeishuKernel<C, B> {
    /// Registers a capability under the name it gives, behind those
    /// registered before.
    pub fn register(&mut self, capability: C)
        ensures
            final(self).names().len() == old(self).names().len() + 1,
            final(self).names().drop_last() == old(self).names(),
            exists|name: &str| #[trigger]
                call_ensures(C::name, (&capability,), name) && final(self).names().last() == name@,
            final(self).capabilities() == old(self).capabilities().push(capability),
            final(self).bus() == old(self).bus(),
    {
        let given = capability.name();
        let ghost given_text = given@;
        assert(exists|name: &str| #[trigger]
            call_ensures(C::name, (&capability,), name) && given_text == name@);
        let name = given.to_string();
        self.register_named(name, capability);
        assert(self.names().drop_last() =~= old(self).names());
        assert(self.names().last() == given_text);
    }

    /// Starts the registered capabilities in registration order. The first
    /// failure ends the sequence: the capabilities behind the one that failed
    /// are not started, and the error names the one that failed.
    ///
    /// What the capabilities answer is theirs to decide; the result is the
    /// one that `start_run` gives for the answers of the capabilities that
    /// were started.
    pub fn start_all(&self) -> (result: Result<(), FeishuError>)
        ensures
            exists|outcomes: Seq<Result<(), FeishuError>>| #[trigger]
                started_by(self.capabilities(), self.names(), outcomes) && outcome_view(result)
                    == start_run(self.names(), outcome_views(outcomes), 0).result,
            always_starts(self.capabilities()) ==> result is Ok,
    {
        let count = self.entries.len();
        assert(self.names().len() == count);
        assert(self.capabilities().len() == count);
        let ghost mut outcomes: Seq<Result<(), FeishuError>> = Seq::new(
            count as nat,
            |i: int| Ok(()),
        );
        let mut progress = self.begin_start();
        loop
            invariant
                count == self.names().len(),
                count == self.capabilities().len(),
                outcomes.len() == count,
                progress matches Progress::Next(i) ==> i < count,
                forall|i: int| 0 <= i < count ==> (#[trigger] outcomes[i]) is Ok,
                forall|i: int|
                    0 <= i && (match progress {
                        Progress::Next(p) => i < p,
                        Progress::Finished => i < count,
                    }) ==> call_ensures(
                        C::start,
                        (&self.capabilities()[i],),
                        #[trigger] outcomes[i],
                    ),
            decreases
                    match progress {
                        Progress::Next(i) => count - i,
                        Progress::Finished => 0,
                    },
        {
            match progress {
                Progress::Finished => {
                    proof {
                        let views = outcome_views(outcomes);
                        assert forall|i: int| 0 <= i < count implies (#[trigger] views[i]) is Ok by {
                            assert(outcomes[i] is Ok);
                        }
                        lemma_start_all_succeed(self.names(), views, 0);
                        assert(started_by(self.capabilities(), self.names(), outcomes));
                        assert(outcome_view(Ok(())) == start_run(self.names(), views, 0).result);
                    }
                    return Ok(());
                },
                Progress::Next(index) => {
                    let outcome = self.entries[index].1.start();
                    let ghost answered = outcome;
                    proof {
                        assert(self.capabilities()[index as int] == self.entries@[index as int].1);
                        assert(call_ensures(
                            C::start,
                            (&self.capabilities()[index as int],),
                            answered,
                        ));
                    }
                    match self.after_start(index, outcome) {
                        Ok(next) => {
                            proof {
                                outcomes = outcomes.update(index as int, answered);
                            }
                            progress = next;
                        },
                        Err(e) => {
                            proof {
                                let before = outcomes;
                                outcomes = outcomes.update(index as int, answered);
                                let views = outcome_views(outcomes);
                                assert(views[index as int] == outcome_view(answered));
                                assert forall|i: int| 0 <= i < index implies (#[trigger] views[i])
                                    is Ok by {
                                    assert(outcomes[i] == before[i]);
                                    assert(before[i] is Ok);
                                }
                                lemma_start_stops_at_first_failure(
                                    self.names(),
                                    views,
                                    index as int,
                                );
                                assert(start_run(self.names(), views, 0).started.len() == index + 1);
                                assert forall|i: int|
                                    0 <= i < start_run(
                                        self.names(),
                                        views,
                                        0,
                                    ).started.len() implies call_ensures(
                                    C::start,
                                    (&self.capabilities()[i],),
                                    #[trigger] outcomes[i],
                                ) by {
                                    if i < index {
                                        assert(outcomes[i] == before[i]);
                                    }
                                }
                                assert(started_by(self.capabilities(), self.names(), outcomes));
                                assert(outcome_view(Err(e)) == start_run(
                                    self.names(),
                                    views,
                                    0,
                                ).result);
                            }
                            return Err(e);
                        },
                    }
                },
            }
        }
    }

    /// Stops the registered capabilities in reverse registration order.
    /// Every capability is asked to stop and gives its answer, whatever the
    /// others answered, and the caller is told of no failure.
    pub fn stop_all(&self) -> (result: Result<(), FeishuError>)
        ensures
            result is Ok,
            exists|outcomes: Seq<Result<(), FeishuError>>| #[trigger]
                stopped_by(self.capabilities(), outcomes),
    {
        let count = self.entries.len();
        assert(self.names().len() == count);
        assert(self.capabilities().len() == count);
        let ghost mut outcomes: Seq<Result<(), FeishuError>> = Seq::new(
            count as nat,
            |i: int| Ok(()),
        );
        let mut progress = self.begin_stop();
        loop
            invariant
                count == self.names().len(),
                count == self.capabilities().len(),
                outcomes.len() == count,
                progress matches Progress::Next(i) ==> i < count,
                forall|i: int|
                    (match progress {
                        Progress::Next(p) => p < i,
                        Progress::Finished => 0 <= i,
                    }) && i < count ==> call_ensures(
                        C::stop,
                        (&self.capabilities()[i],),
                        #[trigger] outcomes[i],
                    ),
            decreases
                    match progress {
                        Progress::Next(i) => i + 1,
                        Progress::Finished => 0,
                    },
        {
            match progress {
                Progress::Finished => {
                    assert(stopped_by(self.capabilities(), outcomes));
                    return Ok(());
                },
                Progress::Next(index) => {
                    let outcome = self.entries[index].1.stop();
                    proof {
                        assert(self.capabilities()[index as int] == self.entries@[index as int].1);
                        outcomes = outcomes.update(index as int, outcome);
                    }
                    progress = self.after_stop(index, &outcome);
                },
            }
        }
    }

    /// Asks every registered capability for its health, in registration
    /// order, and reports each answer under the capability's name. An
    /// unhealthy capability does not end the check.
    pub fn health_check_all(&self) -> (report: Vec<(String, bool)>)
        ensures
            report@.len() == self.names().len(),
            forall|i: int|
                0 <= i < report@.len() ==> (#[trigger] report_view(report@)[i]).0 == self.names()[i],
            exists|answers: Seq<bool>|
                answers.len() == self.names().len() && answered_by(self.capabilities(), answers)
                    && report_view(report@) == #[trigger] health_report(self.names(), answers),
    {
        let count = self.entries.len();
        assert(self.names().len() == count);
        assert(self.capabilities().len() == count);
        let mut report: Vec<(String, bool)> = Vec::new();
        let mut progress = self.begin_health_check();
        loop
            invariant
                count == self.names().len(),
                report_view(report@).len() == report@.len(),
                match progress {
                    Progress::Next(i) => i < count && report@.len() == i,
                    Progress::Finished => report@.len() == count,
                },
                forall|i: int|
                    0 <= i < report@.len() ==> (#[trigger] report_view(report@)[i]).0
                        == self.names()[i],
                forall|i: int|
                    0 <= i < report@.len() ==> call_ensures(
                        C::health_check,
                        (&self.capabilities()[i],),
                        (#[trigger] report_view(report@)[i]).1,
                    ),
            decreases
                    match progress {
                        Progress::Next(i) => count - i,
                        Progress::Finished => 0,
                    },
        {
            match progress {
                Progress::Finished => {
                    proof {
                        let answers = Seq::new(
                            count as nat,
                            |i: int| report_view(report@)[i].1,
                        );
                        assert(report_view(report@) =~= health_report(self.names(), answers));
                        assert forall|i: int| 0 <= i < answers.len() implies call_ensures(
                            C::health_check,
                            (&self.capabilities()[i],),
                            #[trigger] answers[i],
                        ) by {
                            assert(answers[i] == report_view(report@)[i].1);
                        }
                        assert(answered_by(self.capabilities(), answers));
                    }
                    return report;
                },
                Progress::Next(index) => {
                    let healthy = self.entries[index].1.health_check();
                    let ghost before = report_view(report@);
                    progress = self.after_health_check(index, healthy, &mut report);
                    assert(report_view(report@).len() == report@.len());
                    assert forall|i: int| 0 <= i < report@.len() implies (#[trigger] report_view(
                        report@,
                    )[i]).0 == self.names()[i] by {
                        if i < index {
                            assert(report_view(report@)[i] == before[i]);
                        }
                    }
                    assert(self.capabilities()[index as int] == self.entries@[index as int].1);
                    assert forall|i: int| 0 <= i < report@.len() implies call_ensures(
                        C::health_check,
                        (&self.capabilities()[i],),
                        (#[trigger] report_view(report@)[i]).1,
                    ) by {
                        if i < index {
                            assert(report_view(report@)[i] == before[i]);
                        }
                    }
                },
            }
        }
    }
}

/// A start sequence in which the capability at position `k` fails and all
/// before it succeed starts the capabilities up to and including position
/// `k`, none behind it, and ends with an error that names the capability at
/// `k` and carries its cause.
pub proof fn lemma_start_stops_at_first_failure(
    names: Seq<Seq<char>>,
    outcomes: Seq<Result<(), ErrorView>>,
    k: int,
)
    requires
        0 <= k < names.len(),
        outcomes.len() == names.len(),
        outcomes[k] is Err,
        forall|i: int| 0 <= i < k ==> (#[trigger] outcomes[i]) is Ok,
    ensures
        start_run(names, outcomes, 0).started == Seq::new((k + 1) as nat, |i: int| i),
        start_run(names, outcomes, 0).result == Err::<(), ErrorView>(
            start_failure(names[k], outcomes[k]->Err_0),
        ),
{
    lemma_start_run_from(names, outcomes, k, 0);
    assert(Seq::new((k + 1 - 0) as nat, |i: int| 0 + i) =~= Seq::new((k + 1) as nat, |i: int| i));
}

/// The same, for a sequence that is already under way at position `from`.
pub proof fn lemma_start_run_from(
    names: Seq<Seq<char>>,
    outcomes: Seq<Result<(), ErrorView>>,
    k: int,
    from: int,
)
    requires
        0 <= from <= k < names.len(),
        outcomes.len() == names.len(),
        outcomes[k] is Err,
        forall|i: int| from <= i < k ==> (#[trigger] outcomes[i]) is Ok,
    ensures
        start_run(names, outcomes, from).started == Seq::new(
            (k + 1 - from) as nat,
            |i: int| from + i,
        ),
        start_run(names, outcomes, from).result == Err::<(), ErrorView>(
            start_failure(names[k], outcomes[k]->Err_0),
        ),
    decreases k - from,
{
    if from < k {
        lemma_start_run_from(names, outcomes, k, from + 1);
        assert(outcomes[from] is Ok);
        assert(start_run(names, outcomes, from).started =~= Seq::new(
            (k + 1 - from) as nat,
            |i: int| from + i,
        ));
    } else {
        assert(start_run(names, outcomes, from).started =~= Seq::new(
            (k + 1 - from) as nat,
            |i: int| from + i,
        ));
    }
}

/// A start sequence follows the kernel's decisions: after a capability that
/// started, it goes on where `next_in_order` points, and after one that
/// failed, nowhere.
pub proof fn lemma_start_run_follows_decisions(
    names: Seq<Seq<char>>,
    outcomes: Seq<Result<(), ErrorView>>,
    index: int,
)
    requires
        0 <= index < names.len() <= usize::MAX,
        outcomes.len() == names.len(),
    ensures
        start_run(names, outcomes, index).started == seq![index] + match outcomes[index] {
            Ok(_) => match next_in_order(names.len(), index) {
                Progress::Next(next) => start_run(names, outcomes, next as int).started,
                Progress::Finished => Seq::empty(),
            },
            Err(_) => Seq::empty(),
        },
{
    if outcomes[index] is Ok {
        if index + 1 >= names.len() {
            assert(start_run(names, outcomes, index + 1).started =~= Seq::<int>::empty());
        }
    } else {
        assert(start_run(names, outcomes, index).started =~= seq![index] + Seq::<int>::empty());
    }
}

/// A start sequence in which every capability from position `from` on
/// succeeds starts all of them, in registration order, and succeeds.
pub proof fn lemma_start_all_succeed(
    names: Seq<Seq<char>>,
    outcomes: Seq<Result<(), ErrorView>>,
    from: int,
)
    requires
        0 <= from <= names.len(),
        outcomes.len() == names.len(),
        forall|i: int| from <= i < names.len() ==> (#[trigger] outcomes[i]) is Ok,
    ensures
        start_run(names, outcomes, from).started == Seq::new(
            (names.len() - from) as nat,
            |i: int| from + i,
        ),
        start_run(names, outcomes, from).result == Ok::<(), ErrorView>(()),
    decreases names.len() - from,
{
    if from < names.len() {
        lemma_start_all_succeed(names, outcomes, from + 1);
        assert(outcomes[from] is Ok);
    }
    assert(start_run(names, outcomes, from).started =~= Seq::new(
        (names.len() - from) as nat,
        |i: int| from + i,
    ));
}

/// A stop sequence over `count` capabilities visits every one of them, in
/// reverse registration order. No answer of a capability enters into it.
pub proof fn lemma_stop_visits_all_in_reverse(count: int)
    requires
        0 <= count,
    ensures
        stop_run(count - 1).len() == count,
        forall|i: int| 0 <= i < count ==> (#[trigger] stop_run(count - 1)[i]) == count - 1 - i,
    decreases count,
{
    if count > 0 {
        lemma_stop_visits_all_in_reverse(count - 1);
        assert forall|i: int| 0 <= i < count implies (#[trigger] stop_run(count - 1)[i]) == count
            - 1 - i by {
            if i > 0 {
                assert(stop_run(count - 1)[i] == stop_run(count - 2)[i - 1]);
            }
        }
    }
}

/// A health report has one entry per registered capability, in registration
/// order, whatever the capabilities answer; it is healthy overall exactly
/// when every answer is.
pub proof fn lemma_health_report_complete(names: Seq<Seq<char>>, answers: Seq<bool>)
    requires
        answers.len() == names.len(),
    ensures
        health_report(names, answers).len() == names.len(),
        forall|i: int|
            0 <= i < names.len() ==> (#[trigger] health_report(names, answers)[i]) == (
                names[i],
                answers[i],
            ),
        all_healthy(health_report(names, answers)) <==> forall|i: int|
            0 <= i < answers.len() ==> #[trigger] answers[i],
{
    let report = health_report(names, answers);
    if all_healthy(report) {
        assert forall|i: int| 0 <= i < answers.len() implies #[trigger] answers[i] by {
            assert(report[i].1);
        }
    }
}

/// Whether every capability in the report is healthy: the logical AND of
/// the answers.
pub fn overall_health(report: &Vec<(String, bool)>) -> (healthy: bool)
    ensures
        healthy == all_healthy(report_view(report@)),
{
    let mut i: usize = 0;
    while i < report.len()
        invariant
            i <= report.len(),
            forall|j: int| 0 <= j < i ==> (#[trigger] report_view(report@)[j]).1,
        decreases report.len() - i,
    {
        if !report[i].1 {
            assert(!report_view(report@)[i as int].1);
            return false;
        }
        i += 1;
    }
    true
}

} // verus!
