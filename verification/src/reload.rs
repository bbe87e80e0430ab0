use vstd::prelude::*;

use crate::errors::CoreError;
use crate::models::TemplateData;
use crate::templates::spec_compiled;
use crate::templates::template_compiles;
use crate::templates::RenderFault;
use crate::templates::TemplateRegistry;
use crate::templates::render_of;
use crate::templates::render_ok;
use crate::timer::RefreshTimer;

verus! {

/// The keys of the config relation this core reads from the backing store.
#[derive(Clone, Copy, Debug, PartialEq, Eq, Structural)]
pub enum ConfigKeys {
    /// The row holding the current template content nonce.
    TemplateNonce,
}

impl ConfigKeys {
    /// The key column value naming the row; the store and the coordinator
    /// must agree on it.
    pub fn key_name(&self) -> (s: String)
        ensures
            s@ == "TemplateNonce"@,
    {
        match self {
            ConfigKeys::TemplateNonce => "TemplateNonce".to_owned(),
        }
    }
}

/// The mirrored nonce a process starts with when the store holds none yet:
/// it compares unequal to any stored nonce, so the first stale check
/// reloads once and then mirrors the real value.
pub fn sentinel_nonce() -> (s: String)
    ensures
        s@ == "unset"@,
{
    "unset".to_owned()
}

/// What one refresh check decides before any I/O.
#[derive(Clone, Copy, Debug, PartialEq, Eq, Structural)]
pub enum RefreshStep {
    /// The threshold window has not passed: return at once, no I/O.
    Fresh,
    /// The window has passed: the caller fetches the stored nonce and asks
    /// the coordinator to compare it.
    CheckNonce,
}

/// What comparing the fetched nonce against the mirror decides.
#[derive(Clone, Copy, Debug, PartialEq, Eq, Structural)]
pub enum NonceCheck {
    /// Content unchanged since the last reload: skip the reload, paying
    /// only the one nonce fetch per window.
    Unchanged,
    /// Content changed: the caller fetches the template rows and asks the
    /// coordinator to reload.
    Changed,
}

/// The decision of one refresh check, as a pure function of timer state
/// and clock: the nonce is fetched exactly when the window has passed.
pub open spec fn refresh_decision(timer: RefreshTimer, threshold: u64, now: u64) -> RefreshStep {
    if timer.spec_is_stale(now, threshold) {
        RefreshStep::CheckNonce
    } else {
        RefreshStep::Fresh
    }
}

/// The reload coordinator: the live template registry, the mirrored
/// content nonce, and the staleness timer bounding how often the backing
/// store is asked whether anything changed.
pub struct ReloadCoordinator {
    registry: TemplateRegistry,
    nonce: String,
    timer: RefreshTimer,
    threshold: u64,
}

impl ReloadCoordinator {
    /// The live registered set.
    pub closed spec fn templates(self) -> Map<Seq<char>, Seq<char>> {
        self.registry.templates()
    }

    /// The mirrored content nonce.
    pub closed spec fn nonce_spec(self) -> Seq<char> {
        self.nonce@
    }

    /// The staleness timer gating nonce fetches.
    pub closed spec fn timer_spec(self) -> RefreshTimer {
        self.timer
    }

    /// The refresh threshold, in seconds.
    pub closed spec fn threshold_spec(self) -> u64 {
        self.threshold
    }

    /// A coordinator over an initial registry and mirrored nonce, with its
    /// timer reading as last refreshed at `start`.
    pub fn new(registry: TemplateRegistry, nonce: String, threshold: u64, start: u64) -> (c:
        ReloadCoordinator)
        ensures
            c.templates() == registry.templates(),
            c.nonce_spec() == nonce@,
            c.timer_spec().last == start,
            c.threshold_spec() == threshold,
    {
        ReloadCoordinator { registry, nonce, timer: RefreshTimer::new(start), threshold }
    }

    /// The first gate of `refresh_if_needed`: within the threshold window
    /// nothing happens and no I/O is due; past it the timer is reset at
    /// once — claiming the window whatever the nonce turns out to say —
    /// and the caller owes one nonce fetch.
    pub fn begin_refresh(&mut self, now: u64) -> (s: RefreshStep)
        ensures
            s == refresh_decision(old(self).timer_spec(), old(self).threshold_spec(), now),
            s is Fresh ==> *final(self) == *old(self),
            s is CheckNonce ==> {
                &&& final(self).timer_spec().last == now
                &&& final(self).templates() == old(self).templates()
                &&& final(self).nonce_spec() == old(self).nonce_spec()
                &&& final(self).threshold_spec() == old(self).threshold_spec()
            },
    {
        if self.timer.is_stale(now, self.threshold) {
            self.timer.reset(now);
            RefreshStep::CheckNonce
        } else {
            RefreshStep::Fresh
        }
    }

    /// The second gate: compare the nonce fetched from the store against
    /// the mirror; only a difference makes the reload due.
    pub fn check_nonce(&self, fetched: &String) -> (c: NonceCheck)
        ensures
            c == (if self.nonce_spec() == fetched@ {
                NonceCheck::Unchanged
            } else {
                NonceCheck::Changed
            }),
    {
        if self.nonce == *fetched {
            NonceCheck::Unchanged
        } else {
            NonceCheck::Changed
        }
    }

    /// Reload from fetched rows: compile every row into a fresh registry
    /// and publish it in one swap, mirroring the fetched nonce alongside.
    /// All-or-nothing: if any row fails to compile, the live registry and
    /// the mirrored nonce stay exactly as they were, and the next stale
    /// check retries on its own schedule.
    pub fn apply_reload(&mut self, rows: &Vec<TemplateData>, fetched_nonce: &String) -> (r: Result<
        (),
        CoreError,
    >)
        ensures
            (r is Ok) <==> (forall|i: int|
                0 <= i < rows@.len() ==> template_compiles(rows@[i].template@)),
            r is Ok ==> {
                &&& final(self).templates() == spec_compiled(rows@)
                &&& final(self).nonce_spec() == fetched_nonce@
                &&& final(self).timer_spec() == old(self).timer_spec()
                &&& final(self).threshold_spec() == old(self).threshold_spec()
            },
            r is Err ==> *final(self) == *old(self) && (r == Err::<(), CoreError>(
                CoreError::ReloadFailure,
            )),
    {
        match TemplateRegistry::compile_all(rows) {
            Ok(next) => {
                self.registry = next;
                self.nonce = fetched_nonce.clone();
                Ok(())
            },
            Err(e) => Err(e),
        }
    }

    /// Render through the live registry; see [`TemplateRegistry::render`].
    pub fn render(&self, name: &String, fields: &Vec<(String, String)>) -> (r: Result<
        String,
        RenderFault,
    >)
        ensures
            (r is Ok) <==> (self.templates().contains_key(name@) && render_ok(
                self.templates(),
                name@,
                fields.deep_view(),
            )),
            r matches Ok(out) ==> out@ == render_of(
                self.templates(),
                name@,
                fields.deep_view(),
            ),
            (r == Err::<String, RenderFault>(RenderFault::NotFound)) <==> !self.templates(
            ).contains_key(name@),
            (r == Err::<String, RenderFault>(RenderFault::ServerError)) <==> (self.templates(
            ).contains_key(name@) && !render_ok(self.templates(), name@, fields.deep_view())),
    {
        self.registry.render(name, fields)
    }
}

/// Two refresh checks in immediate succession perform at most one nonce
/// fetch, and hence at most one reload: once a first check at `now1` has
/// claimed the window, a second check any time up to a full threshold
/// later finds the cache fresh and does no I/O at all.
pub proof fn lemma_refresh_idempotent(
    timer: RefreshTimer,
    threshold: u64,
    now1: u64,
    now2: u64,
)
    requires
        now1 <= now2 <= now1 + threshold,
    ensures
        refresh_decision(timer, threshold, now1) is CheckNonce ==> refresh_decision(
            RefreshTimer { last: now1 },
            threshold,
            now2,
        ) is Fresh,
{
}

} // verus!
