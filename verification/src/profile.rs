//! Which stages of the pipeline a module has entered and left.

use vstd::prelude::*;

verus! {

/// The two marks of one stage. A mark, once set, stays set.
#[derive(Clone, Copy, Debug, PartialEq, Eq, Structural)]
pub struct StageMarks {
    pub started: bool,
    pub ended: bool,
}

/// The marks of a module's way through the pipeline, kept where profiling is on.
#[derive(Clone, Copy, Debug, PartialEq, Eq, Structural)]
pub struct ModuleProfile {
    pub factory: StageMarks,
    pub integration: StageMarks,
    pub building: StageMarks,
}

/// A stage that a profile keeps marks of.
#[derive(Clone, Copy, Debug, PartialEq, Eq, Structural)]
pub enum Stage {
    Factory,
    Integration,
    Building,
}

impl ModuleProfile {
    /// The profile with the start of `stage` marked.
    pub open spec fn started(self, stage: Stage) -> ModuleProfile {
        match stage {
            Stage::Factory => ModuleProfile {
                factory: StageMarks { started: true, ended: self.factory.ended },
                ..self
            },
            Stage::Integration => ModuleProfile {
                integration: StageMarks { started: true, ended: self.integration.ended },
                ..self
            },
            Stage::Building => ModuleProfile {
                building: StageMarks { started: true, ended: self.building.ended },
                ..self
            },
        }
    }

    /// The profile with the end of `stage` marked.
    pub open spec fn ended(self, stage: Stage) -> ModuleProfile {
        match stage {
            Stage::Factory => ModuleProfile {
                factory: StageMarks { started: self.factory.started, ended: true },
                ..self
            },
            Stage::Integration => ModuleProfile {
                integration: StageMarks { started: self.integration.started, ended: true },
                ..self
            },
            Stage::Building => ModuleProfile {
                building: StageMarks { started: self.building.started, ended: true },
                ..self
            },
        }
    }

    /// A profile with no mark set.
    pub fn new() -> (profile: ModuleProfile)
        ensures
            profile == (ModuleProfile {
                factory: StageMarks { started: false, ended: false },
                integration: StageMarks { started: false, ended: false },
                building: StageMarks { started: false, ended: false },
            }),
    {
        let unmarked = StageMarks { started: false, ended: false };
        ModuleProfile { factory: unmarked, integration: unmarked, building: unmarked }
    }

    pub fn mark_factory_start(&mut self)
        ensures
            *final(self) == old(self).started(Stage::Factory),
    {
        self.factory.started = true;
    }

    pub fn mark_factory_end(&mut self)
        ensures
            *final(self) == old(self).ended(Stage::Factory),
    {
        self.factory.ended = true;
    }

    pub fn mark_integration_start(&mut self)
        ensures
            *final(self) == old(self).started(Stage::Integration),
    {
        self.integration.started = true;
    }

    pub fn mark_integration_end(&mut self)
        ensures
            *final(self) == old(self).ended(Stage::Integration),
    {
        self.integration.ended = true;
    }

    pub fn mark_building_start(&mut self)
        ensures
            *final(self) == old(self).started(Stage::Building),
    {
        self.building.started = true;
    }

    pub fn mark_building_end(&mut self)
        ensures
            *final(self) == old(self).ended(Stage::Building),
    {
        self.building.ended = true;
    }
}

/// What `current_profile` is after the start of `stage` was marked where a
/// profile is kept.
pub open spec fn profile_started(profile: Option<Box<ModuleProfile>>, stage: Stage) -> Option<
    Box<ModuleProfile>,
> {
    match profile {
        Some(marks) => Some(Box::new(marks.started(stage))),
        None => None,
    }
}

/// What `current_profile` is after the end of `stage` was marked where a
/// profile is kept.
pub open spec fn profile_ended(profile: Option<Box<ModuleProfile>>, stage: Stage) -> Option<
    Box<ModuleProfile>,
> {
    match profile {
        Some(marks) => Some(Box::new(marks.ended(stage))),
        None => None,
    }
}

/// Marks the start of `stage` where a profile is kept.
pub fn mark_start(profile: Option<Box<ModuleProfile>>, stage: Stage) -> (marked: Option<
    Box<ModuleProfile>,
>)
    ensures
        marked == profile_started(profile, stage),
{
    match profile {
        Some(marks) => {
            let mut marks = *marks;
            match stage {
                Stage::Factory => marks.mark_factory_start(),
                Stage::Integration => marks.mark_integration_start(),
                Stage::Building => marks.mark_building_start(),
            }
            Some(Box::new(marks))
        },
        None => None,
    }
}

/// Marks the end of `stage` where a profile is kept.
pub fn mark_end(profile: Option<Box<ModuleProfile>>, stage: Stage) -> (marked: Option<
    Box<ModuleProfile>,
>)
    ensures
        marked == profile_ended(profile, stage),
{
    match profile {
        Some(marks) => {
            let mut marks = *marks;
            match stage {
                Stage::Factory => marks.mark_factory_end(),
                Stage::Integration => marks.mark_integration_end(),
                Stage::Building => marks.mark_building_end(),
            }
            Some(Box::new(marks))
        },
        None => None,
    }
}

} // verus!
