//! The instance wrapper: what the layer keeps per foreign instance.
use vstd::prelude::*;
use dashmap::DashMap;
use crate::codes::LayerError;
use crate::registry::{registry_entries, registry_get, registry_insert, registry_new};
use crate::table::{table_get, table_lookup, table_upsert};
use crate::text::same_text;

verus! {

/// The runtime below the layer, told apart by the name it reports.
#[derive(Debug)]
pub enum Runtime {
    SteamVR,
    Oculus,
    WMR,
    Monado,
    Other(String),
}

/// `r` is the classification of a runtime that reports `name`: an exact
/// match against the known names, else the name itself as free text.
pub open spec fn runtime_named(r: &Runtime, name: Seq<char>) -> bool {
    if name == "SteamVR/OpenXR"@ {
        *r is SteamVR
    } else if name == "Oculus"@ {
        *r is Oculus
    } else if name == "Windows Mixed Reality Runtime"@ {
        *r is WMR
    } else if name == "Monado(XRT) by Collabora et al"@ {
        *r is Monado
    } else {
        *r matches Runtime::Other(s) && s@ == name
    }
}

impl Runtime {
    /// Classifies a runtime by the name it reports; never fails.
    pub fn from_name(name: &str) -> (r: Runtime)
        ensures
            runtime_named(&r, name@),
    {
        if same_text(name, "SteamVR/OpenXR") {
            Runtime::SteamVR
        } else if same_text(name, "Oculus") {
            Runtime::Oculus
        } else if same_text(name, "Windows Mixed Reality Runtime") {
            Runtime::WMR
        } else if same_text(name, "Monado(XRT) by Collabora et al") {
            Runtime::Monado
        } else {
            Runtime::Other(name.to_owned())
        }
    }
}

/// What the layer remembers of a system: the form factor it was asked for.
#[derive(Clone, Copy, Debug, PartialEq, Eq, Structural)]
pub struct SystemMeta {
    pub form_factor: i32,
}

/// A simple suggested binding: an action, by its position in the layer's
/// action table, bound to an input path.
#[derive(Clone, Copy, Debug, PartialEq, Eq, Structural)]
pub struct SimpleBinding {
    pub action: usize,
    pub binding: u64,
}

/// What was suggested for one interaction profile: its path in the
/// input-abstraction runtime's path space, and the bindings.
#[derive(Debug)]
pub struct ProfileBindings {
    pub profile: u64,
    pub input_profile: u64,
    pub bindings: Vec<SimpleBinding>,
}

/// The layer's state for one foreign instance.
#[derive(Debug)]
pub struct InstanceWrapper {
    /// The foreign handle.
    pub handle: u64,
    /// The name the application declared.
    pub application_name: String,
    /// Set once a call against this instance aborted; never cleared.
    pub poisoned: bool,
    /// The runtime below.
    pub runtime: Runtime,
    /// Per system id, what it was queried with.
    pub systems: Vec<(u64, SystemMeta)>,
    /// The sessions created under this instance: foreign handle to the
    /// session's position in the layer's session table.
    pub sessions: DashMap<u64, usize>,
    /// Every suggestion recorded, oldest first; the latest for a profile
    /// is the one that counts.
    pub suggested_bindings: Vec<ProfileBindings>,
}

impl InstanceWrapper {
    /// A fresh, healthy instance with no systems, sessions or profiles.
    pub fn new(handle: u64, application_name: String, runtime: Runtime) -> (r: InstanceWrapper)
        ensures
            r.handle == handle,
            r.application_name == application_name,
            r.runtime == runtime,
            !r.poisoned,
            r.systems@.len() == 0,
            registry_entries(r.sessions) =~= Map::empty(),
            r.suggested_bindings@.len() == 0,
    {
        InstanceWrapper {
            handle,
            application_name,
            poisoned: false,
            runtime,
            systems: Vec::new(),
            sessions: registry_new(),
            suggested_bindings: Vec::new(),
        }
    }

    /// What the instance remembers of a system.
    pub open spec fn system(&self, system_id: u64) -> Option<SystemMeta> {
        table_lookup(self.systems@, system_id)
    }

    /// Looks up what the instance remembers of a system.
    pub fn system_meta(&self, system_id: u64) -> (r: Option<SystemMeta>)
        ensures
            r == self.system(system_id),
    {
        table_get(&self.systems, system_id)
    }

    /// The latest suggestion recorded for an interaction profile.
    pub open spec fn suggestion(&self, profile: u64) -> Option<ProfileBindings> {
        latest_suggestion(self.suggested_bindings@, profile)
    }

    /// The input-abstraction path recorded for an interaction profile.
    pub open spec fn profile(&self, profile: u64) -> Option<u64> {
        match self.suggestion(profile) {
            Some(b) => Some(b.input_profile),
            None => None,
        }
    }

    /// The bindings recorded for an interaction profile.
    pub open spec fn bindings(&self, profile: u64) -> Option<Seq<SimpleBinding>> {
        match self.suggestion(profile) {
            Some(b) => Some(b.bindings@),
            None => None,
        }
    }

    /// The sessions created under this instance, by foreign handle.
    pub open spec fn session_entries(&self) -> Map<u64, usize> {
        registry_entries(self.sessions)
    }

    /// Everything but the session registry is as in `old`.
    pub open spec fn same_but_sessions(&self, old: &InstanceWrapper) -> bool {
        &&& self.handle == old.handle
        &&& self.application_name == old.application_name
        &&& self.poisoned == old.poisoned
        &&& self.runtime == old.runtime
        &&& self.systems == old.systems
        &&& self.suggested_bindings == old.suggested_bindings
    }

    /// Everything but the suggestions is as in `old`.
    pub open spec fn same_but_suggestions(&self, old: &InstanceWrapper) -> bool {
        &&& self.handle == old.handle
        &&& self.application_name == old.application_name
        &&& self.poisoned == old.poisoned
        &&& self.runtime == old.runtime
        &&& self.systems == old.systems
        &&& self.sessions == old.sessions
    }

    /// Only the systems table changed, and only under `system_id`.
    pub open spec fn system_recorded(&self, old: &InstanceWrapper, system_id: u64, meta: SystemMeta) -> bool {
        &&& self.system(system_id) == Some(meta)
        &&& forall|id: u64| id != system_id ==> #[trigger] self.system(id) == old.system(id)
        &&& self.handle == old.handle
        &&& self.application_name == old.application_name
        &&& self.poisoned == old.poisoned
        &&& self.runtime == old.runtime
        &&& self.sessions == old.sessions
        &&& self.suggested_bindings == old.suggested_bindings
    }

    /// Records the form factor a system was obtained with; a repeated
    /// query for the same id overwrites it.
    pub fn xr_get_system(&mut self, system_id: u64, form_factor: i32)
        ensures
            final(self).system_recorded(old(self), system_id, SystemMeta { form_factor }),
    {
        table_upsert(&mut self.systems, system_id, SystemMeta { form_factor });
    }

    /// Records a session created under this instance, at `position` in the
    /// layer's session table.
    pub fn xr_create_session(&mut self, session: u64, position: usize)
        ensures
            final(self).session_entries() == old(self).session_entries().insert(session, position),
            final(self).same_but_sessions(old(self)),
    {
        registry_insert(&mut self.sessions, session, position);
    }

    /// The position of a session created under this instance.
    pub fn session(&self, session: u64) -> (r: Option<usize>)
        ensures
            self.session_entries().contains_key(session) ==> r == Some(self.session_entries()[session]),
            !self.session_entries().contains_key(session) ==> r is None,
    {
        registry_get(&self.sessions, session)
    }

    /// Records the bindings suggested for interaction profile `profile`
    /// under its path in the input-abstraction runtime, replacing an
    /// earlier suggestion for it; fails with `PathUnsupported` when that
    /// runtime could not resolve the profile.
    pub fn xr_suggest_interaction_profile_bindings(
        &mut self,
        profile: u64,
        input_profile: Option<u64>,
        bindings: Vec<SimpleBinding>,
    ) -> (r: Result<i32, LayerError>)
        ensures
            input_profile is None ==> r == Err::<i32, LayerError>(LayerError::PathUnsupported)
                && *final(self) == *old(self),
            input_profile is Some ==> r == Ok::<i32, LayerError>(crate::codes::SUCCESS)
                && final(self).profile(profile) == input_profile && final(self).bindings(profile)
                == Some(bindings@),
            forall|p: u64| p != profile ==> #[trigger] final(self).suggestion(p) == old(self).suggestion(p),
            final(self).same_but_suggestions(old(self)),
    {
        match input_profile {
            Some(p) => {
                self.record_profile(profile, p, bindings);
                Ok(crate::codes::SUCCESS)
            },
            None => Err(LayerError::PathUnsupported),
        }
    }

    /// Records a suggestion for an interaction profile.
    pub fn record_profile(&mut self, profile: u64, input_profile: u64, bindings: Vec<SimpleBinding>)
        ensures
            final(self).profile(profile) == Some(input_profile),
            final(self).bindings(profile) == Some(bindings@),
            forall|p: u64| p != profile ==> #[trigger] final(self).suggestion(p) == old(self).suggestion(p),
            final(self).same_but_suggestions(old(self)),
    {
        let ghost old_b = self.suggested_bindings@;
        self.suggested_bindings.push(ProfileBindings { profile, input_profile, bindings });
        assert(self.suggested_bindings@.drop_last() =~= old_b);
    }
}

/// The latest suggestion for `profile` among `s`, searching from the end.
pub open spec fn latest_suggestion(s: Seq<ProfileBindings>, profile: u64) -> Option<ProfileBindings>
    decreases s.len(),
{
    if s.len() == 0 {
        None
    } else if s.last().profile == profile {
        Some(s.last())
    } else {
        latest_suggestion(s.drop_last(), profile)
    }
}

} // verus!
