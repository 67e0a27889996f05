use vstd::prelude::*;

verus! {

/// A concurrency backend that an adapter can be built for.
#[derive(Clone, Copy, Debug, PartialEq, Eq, Structural)]
pub enum Backend {
    /// A backend whose scheduler can be detected from the calling task.
    Tokio,
    /// A backend with no detectable ambient context; chosen only as the sole
    /// alternative.
    AsyncStd,
}

/// Which backend adapters were built into the program.
#[derive(Clone, Copy, Debug, PartialEq, Eq, Structural)]
pub struct CompiledBackends {
    pub tokio: bool,
    pub async_std: bool,
}

impl CompiledBackends {
    pub open spec fn holds(self, b: Backend) -> bool {
        match b {
            Backend::Tokio => self.tokio,
            Backend::AsyncStd => self.async_std,
        }
    }

    pub open spec fn is_empty(self) -> bool {
        !self.tokio && !self.async_std
    }

    /// No adapter at all.
    pub fn none() -> (r: CompiledBackends)
        ensures
            r.is_empty(),
    {
        CompiledBackends { tokio: false, async_std: false }
    }

    pub fn contains(&self, b: Backend) -> (r: bool)
        ensures
            r == self.holds(b),
    {
        match b {
            Backend::Tokio => self.tokio,
            Backend::AsyncStd => self.async_std,
        }
    }
}

impl Backend {
    /// Whether the backend's scheduler can be recognised as the one running
    /// the caller.
    pub open spec fn detects_ambient(self) -> bool {
        self is Tokio
    }
}

/// The backend chosen automatically: the one whose scheduler is already
/// running the caller, if it was built in and can be recognised; otherwise
/// the sole built-in backend without ambient detection; otherwise none.
pub open spec fn selection(compiled: CompiledBackends, ambient: Option<Backend>) -> Option<Backend> {
    if ambient matches Some(b) && b.detects_ambient() && compiled.holds(b) {
        ambient
    } else if compiled.async_std {
        Some(Backend::AsyncStd)
    } else {
        None
    }
}

/// Picks a backend among those built in, given the backend (if any) whose
/// scheduler is running the caller. `None` means that the caller has to name
/// a runtime itself.
pub fn default_runtime(compiled: CompiledBackends, ambient: Option<Backend>) -> (r: Option<Backend>)
    ensures
        r == selection(compiled, ambient),
        r matches Some(b) ==> compiled.holds(b),
        compiled.is_empty() ==> r is None,
{
    if let Some(b) = ambient {
        if matches!(b, Backend::Tokio) && compiled.contains(b) {
            return Some(b);
        }
    }
    if compiled.async_std {
        Some(Backend::AsyncStd)
    } else {
        None
    }
}

/// Selection is a function of the built-in backends and the ambient context
/// alone: under the same two it picks the same backend every time.
pub proof fn lemma_selection_deterministic(
    compiled1: CompiledBackends,
    ambient1: Option<Backend>,
    compiled2: CompiledBackends,
    ambient2: Option<Backend>,
)
    requires
        compiled1 == compiled2,
        ambient1 == ambient2,
    ensures
        selection(compiled1, ambient1) == selection(compiled2, ambient2),
{
}

/// Selecting again, with the chosen backend now running the caller, keeps
/// the same choice.
pub proof fn lemma_selection_idempotent(compiled: CompiledBackends, ambient: Option<Backend>)
    ensures
        selection(compiled, selection(compiled, ambient)) == selection(compiled, ambient),
{
}

/// With no backend built in and no ambient context, selection reports that
/// no backend is available.
pub proof fn lemma_no_backend_available(compiled: CompiledBackends, ambient: Option<Backend>)
    requires
        compiled.is_empty(),
        ambient is None,
    ensures
        selection(compiled, ambient) is None,
{
}

} // verus!
