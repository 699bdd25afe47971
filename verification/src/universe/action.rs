use vstd::prelude::*;
use crate::error::{Error, Result};
use crate::identity::{UID, Identifiable};
use crate::modeling::{Builder, BuildableUID, Modification, ListOp};
use crate::modeling::building::apply_uid_ops;
use crate::text::str_equal;
use crate::universe::{Universe, UniverseBuilder, UniverseBuilderView, UniverseView, empty_universe_builder};

verus! {

/// The credentials that an interface presents to join a universe.
#[derive(Debug)]
pub enum Auth {
    Password(String),
}

/// The one password that the universe accepts.
pub open spec fn accepted_password() -> Seq<char> {
    "sh4d0wf4x"@
}

/// The universe after `interface_uid` joined it: the interface is appended to the active ones, unless it already is one.
pub open spec fn joined(u: UniverseView, interface_uid: UID) -> UniverseView {
    UniverseView {
        active_interfaces: apply_uid_ops(seq![ListOp::Add(interface_uid)], u.active_interfaces).0,
        ..u
    }
}

/// Actions that the universe takes on behalf of its interfaces.
pub struct UniverseAction;

impl UniverseAction {
    /// Authenticates an interface by its password and makes it an active interface of the universe; a wrong
    /// password is `AuthenticationFailed`, and leaves the universe as it is.
    pub fn authenticate(universe: &mut Universe, interface_uid: UID, auth: Auth) -> (r: Result<Modification<UniverseBuilder>>)
        ensures
            match auth {
                Auth::Password(p) => if p@ == accepted_password() {
                    r is Ok && final(universe)@ == joined(old(universe)@, interface_uid)
                } else {
                    r == Err::<Modification<UniverseBuilder>, Error>(Error::AuthenticationFailed)
                        && final(universe)@ == old(universe)@
                },
            },
    {
        match auth {
            Auth::Password(encrypted_password) => {
                proof { reveal_strlit("sh4d0wf4x"); }
                if !str_equal(encrypted_password.as_str(), "sh4d0wf4x") {
                    return Err(Error::AuthenticationFailed);
                }
            },
        }
        let mut universe_editor = UniverseBuilder::editor();
        let uid = universe.uid();
        let _ = universe_editor.uid(uid);
        let _ = universe_editor.add_active_interface_uid(interface_uid);
        let ghost b = universe_editor@;
        assert(b.world_uids =~= Seq::<ListOp<UID, UID>>::empty());
        assert(b.active_interface_uids =~= seq![ListOp::<UID, UID>::Add(interface_uid)]);
        assert(crate::modeling::building::no_edits(b.active_interface_uids)) by {
            assert forall|i: int| 0 <= i < b.active_interface_uids.len()
                implies !(#[trigger] b.active_interface_uids[i] is Edit) by {
                assert(b.active_interface_uids[i] == ListOp::<UID, UID>::Add(interface_uid));
            }
        }
        let modification = universe_editor.modify(universe)?;
        proof {
            assert(apply_uid_ops(Seq::<ListOp<UID, UID>>::empty(), old(universe)@.world_uids).0 == old(universe)@.world_uids);
        }
        Ok(modification)
    }
}

} // verus!
