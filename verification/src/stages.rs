//! The stages of the festival as the festival's own listing names them.
use vstd::prelude::*;
use crate::text::str_eq;

verus! {

/// A stage retrieved from the Tomorrowland API.
#[derive(Debug, Clone, PartialEq, Eq)]
pub struct TomorrowlandStage {
    /// Stage id.
    pub id: String,
    /// Stage name.
    pub name: String,
}

/// A stage of the festival's listing as plain values.
pub struct TomorrowlandStageView {
    pub id: Seq<char>,
    pub name: Seq<char>,
}

impl View for TomorrowlandStage {
    type V = TomorrowlandStageView;

    open spec fn view(&self) -> TomorrowlandStageView {
        TomorrowlandStageView { id: self.id@, name: self.name@ }
    }
}

impl TomorrowlandStage {
    /// A copy of the stage.
    pub fn duplicate(&self) -> (r: TomorrowlandStage)
        ensures
            r@ == self@,
    {
        TomorrowlandStage { id: self.id.clone(), name: self.name.clone() }
    }
}

/// Whether the listing holds a stage with the same id and the same name.
pub open spec fn stage_listed(stages: Seq<TomorrowlandStage>, selected: TomorrowlandStageView) -> bool {
    exists|i: int| 0 <= i < stages.len() && #[trigger] stages[i]@ == selected
}

/// Looks a stage up in the listing by id and name.
pub fn is_stage_listed(stages: &Vec<TomorrowlandStage>, selected: &TomorrowlandStage) -> (r: bool)
    ensures
        r == stage_listed(stages@, selected@),
{
    let mut i: usize = 0;
    while i < stages.len()
        invariant
            i <= stages.len(),
            forall|j: int| 0 <= j < i ==> #[trigger] stages@[j]@ != selected@,
        decreases stages.len() - i,
    {
        let s = &stages[i];
        if str_eq(s.id.as_str(), selected.id.as_str()) && str_eq(s.name.as_str(), selected.name.as_str()) {
            assert(stages@[i as int]@ == selected@);
            return true;
        }
        i = i + 1;
    }
    false
}

/// Internal stages.
#[derive(Debug, Clone, Copy, PartialEq, Eq, Structural)]
pub enum Stage {
    MainStage,
    FreedomStage,
    RoseGarden,
    Elixir,
    Cage,
    RaveCave,
    Planaxis,
    Rise,
    Atmosphere,
    Core,
    CrystalGarden,
    Library,
    Melodia,
    HouseOfFortune,
    RoamingAround,
    PortalToParadise,
    Sylvira,
}

} // verus!
