use vstd::prelude::*;
use crate::modeling::{ClassIdent, CodebaseClassID};

verus! {

/// Routines are either:
/// - Fully in control of a Character's behavior: Conscious
/// - Not in control, but provides prompts to a Character's behavior on how it would act: Subconscious
/// - Temporarily suspending a Character's behavior due to trauma: Shock
/// - Character behavior is completely suspended and all lobes non-responsive: Unconscious
#[derive(Debug, Clone, Copy, PartialEq, Eq, Structural)]
pub enum Awareness {
    Unconscious,
    Conscious,
    Subconscious,
    Shock,
}

impl Awareness {
    pub open spec fn spec_class_ident_const() -> ClassIdent {
        ClassIdent { class_id: CodebaseClassID::Awareness.spec_class_id(), classname: "Awareness" }
    }

    pub fn class_ident_const() -> (r: ClassIdent)
        ensures
            r == Self::spec_class_ident_const(),
    {
        ClassIdent::new(CodebaseClassID::Awareness.class_id(), "Awareness")
    }

    /// The name of the variant, as the awareness is displayed.
    pub open spec fn spec_name(self) -> &'static str {
        match self {
            Awareness::Unconscious => "Unconscious",
            Awareness::Conscious => "Conscious",
            Awareness::Subconscious => "Subconscious",
            Awareness::Shock => "Shock",
        }
    }

    pub fn name(&self) -> (r: &'static str)
        ensures
            r == self.spec_name(),
    {
        match self {
            Self::Unconscious => "Unconscious",
            Self::Conscious => "Conscious",
            Self::Subconscious => "Subconscious",
            Self::Shock => "Shock",
        }
    }
}

} // verus!
