use crate::hub::ContractId;
use vstd::prelude::*;

verus! {

/// An optional behaviour a module may declare, invoked by the host only if
/// declared.
#[derive(Debug, Clone, Copy, PartialEq, Eq, Structural)]
pub enum Capability {
    /// The module exposes HTTP routes.
    Rest,
}

impl Capability {
    /// The tag under which the capability is declared.
    pub fn tag(&self) -> (r: &'static str)
        ensures
            *self == Capability::Rest ==> r@ == "exposes-http"@,
    {
        proof {
            reveal_strlit("exposes-http");
        }
        match self {
            Capability::Rest => "exposes-http",
        }
    }
}

/// What a module declares of itself: its unique name, the capabilities it
/// implements, and the client contract it publishes, if any.
pub struct ModuleDescriptor {
    pub name: &'static str,
    pub capabilities: Vec<Capability>,
    pub client: Option<ContractId>,
}

impl ModuleDescriptor {
    /// Whether `cap` is among the declared capabilities.
    pub fn declares(&self, cap: Capability) -> (r: bool)
        ensures
            r == self.capabilities@.contains(cap),
    {
        let mut i: usize = 0;
        while i < self.capabilities.len()
            invariant
                i <= self.capabilities@.len(),
                forall|j: int| 0 <= j < i ==> self.capabilities@[j] != cap,
            decreases self.capabilities@.len() - i,
        {
            if self.capabilities[i] == cap {
                return true;
            }
            i = i + 1;
        }
        false
    }
}

/// Where a module stands in its lifecycle.
#[derive(Debug, Clone, Copy, PartialEq, Eq, Structural)]
pub enum ModuleState {
    /// Known to the host; nothing has run yet.
    Declared,
    /// The init hook has completed.
    Initialized,
    /// Every declared capability hook has been invoked.
    CapabilitiesBound,
}

/// A step the host takes on a module.
#[derive(Debug, Clone, Copy, PartialEq, Eq, Structural)]
pub enum LifecycleStep {
    Init,
    BindCapabilities,
}

/// Why a lifecycle step, or a hook, was refused.
#[derive(Debug, Clone, Copy, PartialEq, Eq, Structural)]
pub enum ModuleError {
    /// Init ran a second time, or the contract already has a provider.
    AlreadyInitialized,
    /// A capability hook or consumer ran before init completed.
    NotInitialized,
}

/// The state after `step`, or the error that aborts composition.
pub open spec fn spec_advance(state: ModuleState, step: LifecycleStep) -> Result<ModuleState, ModuleError> {
    match step {
        LifecycleStep::Init => if state == ModuleState::Declared {
            Ok(ModuleState::Initialized)
        } else {
            Err(ModuleError::AlreadyInitialized)
        },
        LifecycleStep::BindCapabilities => if state == ModuleState::Declared {
            Err(ModuleError::NotInitialized)
        } else {
            Ok(ModuleState::CapabilitiesBound)
        },
    }
}

/// Applies one lifecycle step: init only from `Declared`, capability binding
/// only once init has completed.
pub fn advance(state: ModuleState, step: LifecycleStep) -> (r: Result<ModuleState, ModuleError>)
    ensures
        r == spec_advance(state, step),
{
    match step {
        LifecycleStep::Init => if state == ModuleState::Declared {
            Ok(ModuleState::Initialized)
        } else {
            Err(ModuleError::AlreadyInitialized)
        },
        LifecycleStep::BindCapabilities => if state == ModuleState::Declared {
            Err(ModuleError::NotInitialized)
        } else {
            Ok(ModuleState::CapabilitiesBound)
        },
    }
}

} // verus!
