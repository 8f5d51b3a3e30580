//! The per-character configuration the server keeps and reports back.
use vstd::prelude::*;
use crate::app::{App, Prefs};

verus! {

/// Which entry of the server-kept configuration changed.
#[derive(Clone, Copy, Debug, PartialEq, Eq, Structural)]
pub enum SelfConfigKind {
    RefusePartyInvite,
    OpenEquipmentWindow,
    Call,
    PetAutofeed,
    HomunculusAutofeed,
}

/// The preferences with entry `kind` set to `enabled`.
pub open spec fn with_self_config(p: Prefs, kind: SelfConfigKind, enabled: bool) -> Prefs {
    match kind {
        SelfConfigKind::RefusePartyInvite => Prefs { refuse_party_invite: enabled, ..p },
        SelfConfigKind::OpenEquipmentWindow => Prefs { open_equipment_window: enabled, ..p },
        SelfConfigKind::Call => Prefs { call_enabled: enabled, ..p },
        SelfConfigKind::PetAutofeed => Prefs { pet_autofeed: enabled, ..p },
        SelfConfigKind::HomunculusAutofeed => Prefs { homun_autofeed: enabled, ..p },
    }
}

/// Sets entry `kind` of `prefs` to `enabled`.
#[verifier::spinoff_prover]
fn set_self_config(prefs: &mut Prefs, kind: SelfConfigKind, enabled: bool)
    ensures
        *final(prefs) == with_self_config(*old(prefs), kind, enabled),
{
    match kind {
        SelfConfigKind::RefusePartyInvite => {
            prefs.refuse_party_invite = enabled;
        },
        SelfConfigKind::OpenEquipmentWindow => {
            prefs.open_equipment_window = enabled;
        },
        SelfConfigKind::Call => {
            prefs.call_enabled = enabled;
        },
        SelfConfigKind::PetAutofeed => {
            prefs.pet_autofeed = enabled;
        },
        SelfConfigKind::HomunculusAutofeed => {
            prefs.homun_autofeed = enabled;
        },
    }
}

impl App {
    /// The server reports one entry of the character's configuration; the
    /// preferences take it.
    pub fn handle_self_config_changed(&mut self, kind: SelfConfigKind, enabled: bool)
        ensures
            self_config_changed_step(*old(self), *final(self), kind, enabled),
    {
        set_self_config(&mut self.prefs, kind, enabled);
    }
}

/// What `handle_self_config_changed` leaves and hands on.
pub open spec fn self_config_changed_step(a: App, b: App, kind: SelfConfigKind, enabled: bool) -> bool {
    &&& b == (App {
                    prefs: with_self_config(a.prefs, kind, enabled),
                    ..a
                })
}

} // verus!
