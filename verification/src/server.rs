//! The requests of the display configuration interface.

use vstd::prelude::*;

use crate::daemon;
use crate::manager::{DisplayManager, DisplayManagerProperties, DisplayManagerView};
use crate::monitor::{
    ConfigError, ConfigErrorView, KanshiProfileEntry, MonitorApply, MonitorApplyView, MonitorView,
};
use crate::profile;

verus! {

/// Serves the configuration that a manager holds.
#[derive(Debug)]
pub struct DisplayServer {
    pub manager: DisplayManager,
}

/// What a list of requests stands for.
pub open spec fn request_views(requests: Seq<MonitorApply>) -> Seq<MonitorApplyView> {
    Seq::new(requests.len(), |i: int| requests[i]@)
}

/// The verdict on a list of requests: that on the first one that is refused.
pub open spec fn joint_verdict(
    requests: Seq<MonitorApplyView>,
    monitors: Seq<MonitorView>,
) -> Result<(), ConfigErrorView>
    decreases requests.len(),
{
    if requests.len() == 0 {
        Ok(())
    } else if requests[0].verdict(monitors) is Err {
        requests[0].verdict(monitors)
    } else {
        joint_verdict(requests.drop_first(), monitors)
    }
}

/// Whether every request that a check comes by names some monitor, as far as
/// there are monitors.
pub open spec fn can_check(requests: Seq<MonitorApplyView>, monitors: Seq<MonitorView>) -> bool
    decreases requests.len(),
{
    requests.len() > 0 ==> {
        &&& monitors.len() > 0 ==> requests[0].monitors.len() > 0
        &&& requests[0].verdict(monitors) is Ok ==> can_check(requests.drop_first(), monitors)
    }
}

/// Whether a request of this form can be handled: what is to be checked can be
/// checked, and what is to be applied can be written.
pub open spec fn can_apply(
    manager: DisplayManagerView,
    serial: u32,
    method: u32,
    requests: Seq<MonitorApplyView>,
) -> bool {
    serial == manager.serial ==> if method == 0 {
        can_check(requests, manager.monitors)
    } else {
        manager.monitors.len() > 0 ==> forall|i: int|
            0 <= i < requests.len() ==> (#[trigger] requests[i]).monitors.len() > 0
    }
}

/// A step in applying a configuration.
#[derive(Debug)]
pub enum ApplyStep {
    /// Write the profile of this name, unless its file holds the text already.
    WriteProfile { name: String, text: String },
    /// Make kanshi read its configuration again.
    ReloadKanshi,
    /// Ask the compositor for its outputs.
    RefreshOutputs,
    /// Tell clients; with that the configuration is applied.
    EmitSignal,
}

/// Which step in applying a configuration it is.
pub enum ApplyStage {
    WriteProfile,
    ReloadKanshi,
    RefreshOutputs,
    EmitSignal,
}

/// What comes behind a step, given how it went: for the writing of a profile,
/// whether its file changed.
pub open spec fn apply_next(stage: ApplyStage, outcome: Result<bool, Seq<char>>) -> Result<
    Option<ApplyStage>,
    ConfigErrorView,
> {
    match stage {
        ApplyStage::WriteProfile => match outcome {
            Ok(true) => Ok(Some(ApplyStage::ReloadKanshi)),
            Ok(false) => Ok(Some(ApplyStage::RefreshOutputs)),
            Err(message) => Err(ConfigErrorView::IOError(message)),
        },
        ApplyStage::ReloadKanshi => Ok(Some(ApplyStage::RefreshOutputs)),
        ApplyStage::RefreshOutputs => Ok(Some(ApplyStage::EmitSignal)),
        ApplyStage::EmitSignal => match outcome {
            Ok(_) => Ok(None),
            Err(message) => Err(ConfigErrorView::ZBus(message)),
        },
    }
}

impl ApplyStep {
    /// Which step it is.
    pub open spec fn stage(self) -> ApplyStage {
        match self {
            ApplyStep::WriteProfile { .. } => ApplyStage::WriteProfile,
            ApplyStep::ReloadKanshi => ApplyStage::ReloadKanshi,
            ApplyStep::RefreshOutputs => ApplyStage::RefreshOutputs,
            ApplyStep::EmitSignal => ApplyStage::EmitSignal,
        }
    }

    /// What comes behind a step, given how it went: for the writing of a
    /// profile, whether its file changed. Where the profile cannot be written,
    /// or clients cannot be told, the request fails. Kanshi reads its
    /// configuration again only where the file changed; how that goes, and how
    /// the compositor answers, makes no difference. Once clients were told the
    /// configuration is applied.
    pub fn after(self, outcome: Result<bool, String>) -> (next: Result<
        Option<ApplyStep>,
        ConfigError,
    >)
        ensures
            ({
                let expected = apply_next(self.stage(), daemon::result_text(outcome));
                match next {
                    Ok(Some(step)) => expected == Ok::<Option<ApplyStage>, ConfigErrorView>(
                        Some(step.stage()),
                    ),
                    Ok(None) => expected == Ok::<Option<ApplyStage>, ConfigErrorView>(None),
                    Err(error) => expected == Err::<Option<ApplyStage>, ConfigErrorView>(error@),
                }
            }),
    {
        match self {
            ApplyStep::WriteProfile { .. } => match outcome {
                Ok(true) => Ok(Some(ApplyStep::ReloadKanshi)),
                Ok(false) => Ok(Some(ApplyStep::RefreshOutputs)),
                Err(message) => Err(ConfigError::IOError(message)),
            },
            ApplyStep::ReloadKanshi => Ok(Some(ApplyStep::RefreshOutputs)),
            ApplyStep::RefreshOutputs => Ok(Some(ApplyStep::EmitSignal)),
            ApplyStep::EmitSignal => match outcome {
                Ok(_) => Ok(None),
                Err(message) => Err(ConfigError::ZBus(message)),
            },
        }
    }
}

/// How the steps go, one by one.
pub struct ApplyOutcomes {
    pub write: Result<bool, Seq<char>>,
    pub reload: Result<bool, Seq<char>>,
    pub refresh: Result<bool, Seq<char>>,
    pub signal: Result<bool, Seq<char>>,
}

impl ApplyOutcomes {
    /// How a step goes.
    pub open spec fn of(self, stage: ApplyStage) -> Result<bool, Seq<char>> {
        match stage {
            ApplyStage::WriteProfile => self.write,
            ApplyStage::ReloadKanshi => self.reload,
            ApplyStage::RefreshOutputs => self.refresh,
            ApplyStage::EmitSignal => self.signal,
        }
    }
}

/// How many steps can still come behind a step.
pub open spec fn steps_left(stage: ApplyStage) -> nat {
    match stage {
        ApplyStage::WriteProfile => 3,
        ApplyStage::ReloadKanshi => 2,
        ApplyStage::RefreshOutputs => 1,
        ApplyStage::EmitSignal => 0,
    }
}

/// The steps that are performed, from this one on, and what the request comes
/// to.
pub open spec fn applied(stage: ApplyStage, outcomes: ApplyOutcomes) -> (
    Seq<ApplyStage>,
    Result<(), ConfigErrorView>,
)
    decreases steps_left(stage),
{
    match apply_next(stage, outcomes.of(stage)) {
        Ok(Some(next)) => {
            let rest = applied(next, outcomes);
            (seq![stage] + rest.0, rest.1)
        },
        Ok(None) => (seq![stage], Ok(())),
        Err(error) => (seq![stage], Err(error)),
    }
}

/// Where the profile cannot be written, the request fails with that, and nothing
/// else is done. Otherwise kanshi reads its configuration again exactly where
/// the file changed, clients are told last, and the request fails exactly where
/// they cannot be told: a failed reload or a failed query is no failure of the
/// request.
pub proof fn request_fails_where_writing_or_telling_fails(outcomes: ApplyOutcomes)
    ensures
        ({
            let (steps, result) = applied(ApplyStage::WriteProfile, outcomes);
            match outcomes.write {
                Err(message) => {
                    &&& steps == seq![ApplyStage::WriteProfile]
                    &&& result == Err::<(), ConfigErrorView>(ConfigErrorView::IOError(message))
                },
                Ok(changed) => {
                    &&& steps == if changed {
                        seq![
                            ApplyStage::WriteProfile,
                            ApplyStage::ReloadKanshi,
                            ApplyStage::RefreshOutputs,
                            ApplyStage::EmitSignal,
                        ]
                    } else {
                        seq![
                            ApplyStage::WriteProfile,
                            ApplyStage::RefreshOutputs,
                            ApplyStage::EmitSignal,
                        ]
                    }
                    &&& result == match outcomes.signal {
                        Ok(_) => Ok::<(), ConfigErrorView>(()),
                        Err(message) => Err(ConfigErrorView::ZBus(message)),
                    }
                },
            }
        }),
{
    reveal_with_fuel(applied, 4);
    let (steps, result) = applied(ApplyStage::WriteProfile, outcomes);
    if let Ok(changed) = outcomes.write {
        if changed {
            assert(steps =~= seq![
                ApplyStage::WriteProfile,
                ApplyStage::ReloadKanshi,
                ApplyStage::RefreshOutputs,
                ApplyStage::EmitSignal,
            ]);
        } else {
            assert(steps =~= seq![
                ApplyStage::WriteProfile,
                ApplyStage::RefreshOutputs,
                ApplyStage::EmitSignal,
            ]);
        }
    }
}

proof fn lemma_requests_can_be_written(monitors: Seq<MonitorView>, requests: Seq<MonitorApply>)
    requires
        monitors.len() > 0 ==> forall|i: int|
            0 <= i < requests.len() ==> (#[trigger] request_views(requests)[i]).monitors.len() > 0,
    ensures
        profile::can_render(monitors, requests),
{
    let views = request_views(requests);
    assert forall|i: int| 0 <= i < requests.len() implies (#[trigger] requests[i]).can_find(
        monitors,
    ) && (requests[i].found(monitors) is Some ==> requests[i].can_write()) by {
        assert(views[i] == requests[i]@);
        if monitors.len() > 0 {
            assert(views[i].monitors.len() > 0);
        }
    }
}

impl DisplayServer {
    pub fn new(manager: DisplayManager) -> (server: DisplayServer)
        ensures
            server.manager == manager,
    {
        DisplayServer { manager }
    }

    /// The configuration as it stands.
    pub fn get_current_state(&self) -> (state: DisplayManager)
        ensures
            state@ == self.manager@,
    {
        self.manager.clone()
    }

    /// Whether a request can be handled.
    pub fn can_apply(&self, serial: u32, method: u32, requests: &[MonitorApply]) -> (r: bool)
        ensures
            r == can_apply(self.manager@, serial, method, request_views(requests@)),
    {
        let ghost views = request_views(requests@);
        let ghost monitors = self.manager@.monitors;
        if serial != self.manager.serial {
            return true;
        }
        assert(views.skip(0) =~= views);
        for i in 0..requests.len()
            invariant
                serial == self.manager@.serial,
                views == request_views(requests@),
                monitors == self.manager@.monitors,
                method == 0 ==> can_check(views, monitors) == can_check(
                    views.skip(i as int),
                    monitors,
                ),
                method != 0 ==> monitors.len() > 0 ==> forall|j: int|
                    0 <= j < i ==> (#[trigger] views[j]).monitors.len() > 0,
        {
            assert(views[i as int] == requests@[i as int]@);
            assert(views.skip(i as int)[0] == views[i as int]);
            assert(views.skip(i as int).drop_first() =~= views.skip(i + 1));
            if self.manager.monitors.len() > 0 && requests[i].monitors.len() == 0 {
                return false;
            }
            if method == 0 && requests[i].verify(self.manager.monitors.as_slice()).is_err() {
                return true;
            }
        }
        true
    }

    /// Checks a configuration, or begins to apply it.
    ///
    /// A request with a stale serial is refused. With method zero the requests
    /// are only checked, and the first one that is refused decides. Otherwise
    /// the properties are taken over, and the first step in applying the
    /// configuration is returned.
    pub fn apply_monitors_config(
        &mut self,
        serial: u32,
        method: u32,
        mutter_logical_monitors: &[MonitorApply],
        properties: DisplayManagerProperties,
    ) -> (r: Result<Option<ApplyStep>, ConfigError>)
        requires
            can_apply(
                old(self).manager@,
                serial,
                method,
                request_views(mutter_logical_monitors@),
            ),
        ensures
            ({
                let manager = old(self).manager@;
                let requests = request_views(mutter_logical_monitors@);
                if serial != manager.serial {
                    &&& r matches Err(error)
                    &&& error@ == ConfigErrorView::InvalidArgs("Wrong serial"@)
                    &&& *final(self) == *old(self)
                } else if method == 0 {
                    &&& match r {
                        Ok(step) => step is None && joint_verdict(requests, manager.monitors)
                            is Ok,
                        Err(error) => joint_verdict(requests, manager.monitors) == Err::<
                            (),
                            ConfigErrorView,
                        >(error@),
                    }
                    &&& *final(self) == *old(self)
                } else {
                    &&& r matches Ok(Some(ApplyStep::WriteProfile { name, text }))
                    &&& name@ == profile::profile_name(manager.monitors)
                    &&& text@ == profile::profile_text(
                        manager.monitors,
                        mutter_logical_monitors@,
                    )
                    &&& final(self).manager@ == (DisplayManagerView { properties, ..manager })
                }
            }),
    {
        let ghost views = request_views(mutter_logical_monitors@);
        let ghost monitors = self.manager@.monitors;
        if serial != self.manager.serial {
            return Err(ConfigError::InvalidArgs("Wrong serial".to_owned()));
        }
        if method == 0 {
            assert(views.skip(0) =~= views);
            for i in 0..mutter_logical_monitors.len()
                invariant
                    *self == *old(self),
                    serial == self.manager@.serial,
                    method == 0,
                    views == request_views(mutter_logical_monitors@),
                    monitors == self.manager@.monitors,
                    can_check(views.skip(i as int), monitors),
                    joint_verdict(views, monitors) == joint_verdict(
                        views.skip(i as int),
                        monitors,
                    ),
            {
                assert(views[i as int] == mutter_logical_monitors@[i as int]@);
                assert(views.skip(i as int)[0] == views[i as int]);
                assert(views.skip(i as int).drop_first() =~= views.skip(i + 1));
                match mutter_logical_monitors[i].verify(self.manager.monitors.as_slice()) {
                    Ok(()) => {},
                    Err(error) => return Err(error),
                }
            }
            return Ok(None);
        }
        proof {
            lemma_requests_can_be_written(monitors, mutter_logical_monitors@);
        }
        self.manager.properties = properties;
        let name = profile::profile_name_for_monitors(self.manager.monitors.as_slice());
        let text = profile::kanshi_profile_text(
            self.manager.monitors.as_slice(),
            mutter_logical_monitors,
        );
        Ok(Some(ApplyStep::WriteProfile { name, text }))
    }

    /// Whether configurations can be applied at all.
    pub fn apply_monitors_config_allowed(&self) -> (r: bool)
        ensures
            r,
    {
        true
    }
}

/// A list of requests passes the check exactly when each of them does.
pub proof fn joint_verdict_is_that_of_all(
    requests: Seq<MonitorApplyView>,
    monitors: Seq<MonitorView>,
)
    ensures
        joint_verdict(requests, monitors) is Ok <==> forall|i: int|
            0 <= i < requests.len() ==> (#[trigger] requests[i]).verdict(monitors) is Ok,
    decreases requests.len(),
{
    if requests.len() > 0 {
        let rest = requests.drop_first();
        joint_verdict_is_that_of_all(rest, monitors);
        if joint_verdict(requests, monitors) is Ok {
            assert forall|i: int| 0 <= i < requests.len() implies (#[trigger] requests[i]).verdict(
                monitors,
            ) is Ok by {
                if i > 0 {
                    assert(requests[i] == rest[i - 1]);
                }
            }
        } else if requests[0].verdict(monitors) is Ok {
            let k = choose|k: int|
                0 <= k < rest.len() && (#[trigger] rest[k]).verdict(monitors) is Err;
            assert(requests[k + 1].verdict(monitors) is Err);
        }
    }
}

} // verus!
