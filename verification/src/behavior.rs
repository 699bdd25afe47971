//! The routines that drive characters.
use vstd::prelude::*;
use crate::identity::{UID, Identifiable};
use crate::character::Character;
use crate::cortex::Sensitive;
use crate::cortex::routine::{Habitual, Sensory};
use crate::action::{Action, BaseAction};
use crate::action::multiply::MultiplyAction;
use crate::timeframe::TimeFrame;

verus! {

/// What a routine perceives.
pub enum Stimulus<'s> {
    /// Perceive the passage of time(frame).
    Time(&'s TimeFrame),
    /// Perceive a guided action.
    Interface(),
}

/// A routine that does nothing.
pub struct VoidCharacterRoutine(pub UID);

/// A routine that multiplies its character at each timeframe.
pub struct MultiplierCharacterRoutine(pub UID);

impl VoidCharacterRoutine {
    /// A routine that does nothing: no stimulus makes it act.
    pub fn stimulate(&self, stimulus: Stimulus) -> (r: Option<Vec<Action>>)
        ensures
            r is None,
    {
        None
    }

    /// The line that a thing with nothing to do says, given its name.
    pub fn idle_line(name: &str) -> (r: String)
        ensures
            r@ == "< I am "@ + name@ + " and I have nothing to do. >"@,
    {
        let mut line = crate::text::string_of("< I am ");
        crate::text::append_str(&mut line, name);
        crate::text::append_str(&mut line, " and I have nothing to do. >");
        line
    }
}

impl MultiplierCharacterRoutine {
    /// At each timeframe, the character multiplies; nothing else moves it.
    pub fn stimulate(&self, stimulus: Stimulus) -> (r: Option<Vec<Action>>)
        ensures
            match stimulus {
                Stimulus::Time(tf) => r matches Some(v) && v@.len() == 1 && (v@[0] matches Action::Multiply(m)
                    && m.base == (BaseAction { frame: tf.spec_frame(), thing_uid: self.0 })),
                Stimulus::Interface() => r is None,
            },
    {
        match stimulus {
            Stimulus::Time(timeframe) => {
                Some(vec![Action::Multiply(MultiplyAction { base: BaseAction { frame: timeframe.frame(), thing_uid: self.0 } })])
            },
            _ => None,
        }
    }
}

/// The routine of a character, chosen by the routine UID of its cortex.
pub enum CharacterRoutine {
    Void(VoidCharacterRoutine),
    Multiplier(MultiplierCharacterRoutine),
}

/// The routine UID of the routine that does nothing.
pub const ID_VOID: UID = 0;

/// The routine UID of the routine that multiplies.
pub const ID_MULTIPLIER: UID = 1;

impl CharacterRoutine {
    /// Passes the stimulus to the routine.
    pub fn stimulate(&self, stimulus: Stimulus) -> (r: Option<Vec<Action>>)
        ensures
            match self {
                CharacterRoutine::Void(_) => r is None,
                CharacterRoutine::Multiplier(m) => match stimulus {
                    Stimulus::Time(tf) => r matches Some(v) && v@.len() == 1 && (v@[0] matches Action::Multiply(a)
                        && a.base == (BaseAction { frame: tf.spec_frame(), thing_uid: m.0 })),
                    Stimulus::Interface() => r is None,
                },
            },
    {
        match self {
            CharacterRoutine::Void(routine) => routine.stimulate(stimulus),
            CharacterRoutine::Multiplier(routine) => routine.stimulate(stimulus),
        }
    }

    /// The routine of a character: its cortex's routine UID must name a known routine.
    pub fn new(character: &Character) -> (r: CharacterRoutine)
        requires
            character@.cortex.routine_lobe.routine_uid == ID_VOID
                || character@.cortex.routine_lobe.routine_uid == ID_MULTIPLIER,
        ensures
            character@.cortex.routine_lobe.routine_uid == ID_VOID ==> (r matches CharacterRoutine::Void(v) && v.0 == character@.entity.uid),
            character@.cortex.routine_lobe.routine_uid == ID_MULTIPLIER
                ==> (r matches CharacterRoutine::Multiplier(m) && m.0 == character@.entity.uid),
    {
        let routine_id = Sensory::routine_uid(character.cortex().routine_lobe());
        let uid = character.uid();
        if routine_id == ID_VOID {
            Self::Void(VoidCharacterRoutine(uid))
        } else if routine_id == ID_MULTIPLIER {
            Self::Multiplier(MultiplierCharacterRoutine(uid))
        } else {
            vstd::pervasive::unreached()
        }
    }
}

} // verus!
