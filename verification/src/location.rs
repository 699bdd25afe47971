use vstd::prelude::*;
use crate::identity::UID;
use crate::modeling::{ClassIdent, CodebaseClassID};

verus! {

/// The placement of an Entity within the World; an Area or Route.
#[derive(Debug, Clone, Copy, PartialEq, Eq, Structural)]
pub enum Location {
    Area(UID),
    Route(UID),
}

impl Location {
    /// The UID of the area or route.
    pub open spec fn spec_uid(self) -> UID {
        match self {
            Location::Area(uid) => uid,
            Location::Route(uid) => uid,
        }
    }

    pub fn uid(&self) -> (r: UID)
        ensures
            r == self.spec_uid(),
    {
        match self {
            Self::Area(uid) => *uid,
            Self::Route(uid) => *uid,
        }
    }

    pub open spec fn spec_class_ident_const() -> ClassIdent {
        ClassIdent { class_id: CodebaseClassID::Location.spec_class_id(), classname: "Location" }
    }

    /// The class of a location, as fields that refer to one name it.
    pub fn class_ident_const() -> (r: ClassIdent)
        ensures
            r == Self::spec_class_ident_const(),
    {
        ClassIdent::new(CodebaseClassID::Location.class_id(), "Location")
    }
}

/// Something that is placed at a location.
pub trait Located {
    spec fn spec_location(&self) -> Location;

    fn location(&self) -> (r: Location)
        ensures
            r == self.spec_location(),
    ;
}

} // verus!
