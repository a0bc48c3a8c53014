use std::sync::Arc;
use vstd::prelude::*;

verus! {

/// Stable identity of an abstract client contract.
pub type ContractId = u64;

/// Error returned when a contract identity already has a provider.
#[derive(Debug, Clone, Copy, PartialEq, Eq, Structural)]
pub struct AlreadyRegistered;

/// The provider registered under `id` in a list of entries, if any.
pub open spec fn provider_in<C>(entries: Seq<(ContractId, Arc<C>)>, id: ContractId) -> Option<
    Arc<C>,
>
    decreases entries.len(),
{
    if entries.len() == 0 {
        None
    } else if entries.last().0 == id {
        Some(entries.last().1)
    } else {
        provider_in(entries.drop_last(), id)
    }
}

/// What `resolve` returns for `id` on a hub whose providers are `providers`.
pub open spec fn resolved<C>(providers: Map<ContractId, Arc<C>>, id: ContractId) -> Option<Arc<C>> {
    if providers.contains_key(id) {
        Some(providers[id])
    } else {
        None
    }
}

/// What one `register` does: a new identity gains `provider` and nothing
/// else changes; an identity that already has a provider is refused with the
/// hub left as it was.
pub open spec fn register_outcome<C>(
    before: Map<ContractId, Arc<C>>,
    after: Map<ContractId, Arc<C>>,
    id: ContractId,
    provider: Arc<C>,
    r: Result<(), AlreadyRegistered>,
) -> bool {
    if before.contains_key(id) {
        r == Err::<(), AlreadyRegistered>(AlreadyRegistered) && after == before
    } else {
        r is Ok && after == before.insert(id, provider)
    }
}

/// Resolving an identity that nothing has registered gives no provider; in
/// particular every identity is absent from a new hub.
pub proof fn lemma_resolve_before_register<C>(providers: Map<ContractId, Arc<C>>, id: ContractId)
    requires
        !providers.contains_key(id),
    ensures
        resolved(providers, id) is None,
        resolved(Map::<ContractId, Arc<C>>::empty(), id) is None,
{
}

/// Once `register` has published `provider` under `id`, resolving `id` gives
/// that same provider.
pub proof fn lemma_resolve_after_register<C>(
    before: Map<ContractId, Arc<C>>,
    after: Map<ContractId, Arc<C>>,
    id: ContractId,
    provider: Arc<C>,
    r: Result<(), AlreadyRegistered>,
)
    requires
        register_outcome(before, after, id, provider, r),
        r is Ok,
    ensures
        resolved(after, id) == Some(provider),
{
}

/// A provider, once resolvable, stays resolvable and the same across any
/// later `register`, successful or refused: registration never replaces or
/// removes a provider, so every subsequent resolve returns it.
pub proof fn lemma_registered_provider_stays<C>(
    before: Map<ContractId, Arc<C>>,
    after: Map<ContractId, Arc<C>>,
    id: ContractId,
    provider: Arc<C>,
    other_id: ContractId,
    other: Arc<C>,
    r: Result<(), AlreadyRegistered>,
)
    requires
        resolved(before, id) == Some(provider),
        register_outcome(before, after, other_id, other, r),
    ensures
        resolved(after, id) == Some(provider),
{
}

/// Registry mapping each contract identity to the one provider that
/// publishes it. Providers are added once and never replaced or removed.
pub struct ClientHub<C> {
    entries: Vec<(ContractId, Arc<C>)>,
}

impl<C> View for ClientHub<C> {
    type V = Map<ContractId, Arc<C>>;

    closed spec fn view(&self) -> Map<ContractId, Arc<C>> {
        Map::new(
            |id: ContractId| provider_in(self.entries@, id) is Some,
            |id: ContractId| provider_in(self.entries@, id)->0,
        )
    }
}

impl<C> ClientHub<C> {
    /// A hub with no providers.
    pub fn new() -> (h: Self)
        ensures
            h@ == Map::<ContractId, Arc<C>>::empty(),
    {
        let h = ClientHub { entries: Vec::new() };
        assert(h@ =~= Map::<ContractId, Arc<C>>::empty());
        h
    }

    /// Publishes `provider` under `id`. An identity that already has a
    /// provider is refused and the hub is left unchanged.
    pub fn register(&mut self, id: ContractId, provider: Arc<C>) -> (r: Result<(), AlreadyRegistered>)
        ensures
            register_outcome(old(self)@, final(self)@, id, provider, r),
    {
        if self.contains(id) {
            return Err(AlreadyRegistered);
        }
        let ghost before = self.entries@;
        self.entries.push((id, provider));
        proof {
            assert(self.entries@.drop_last() == before);
            assert forall|k: ContractId| #[trigger] provider_in(self.entries@, k) == if k == id {
                Some(provider)
            } else {
                provider_in(before, k)
            } by {}
            assert(self@ =~= old(self)@.insert(id, provider));
        }
        Ok(())
    }

    /// Whether `id` has a provider.
    pub fn contains(&self, id: ContractId) -> (r: bool)
        ensures
            r == self@.contains_key(id),
    {
        self.resolve(id).is_some()
    }

    /// The provider published under `id`, shared rather than copied, or
    /// `None` when nothing has been registered for it.
    pub fn resolve(&self, id: ContractId) -> (r: Option<Arc<C>>)
        ensures
            r == resolved(self@, id),
    {
        let mut i: usize = self.entries.len();
        proof {
            assert(self.entries@.take(i as int) == self.entries@);
        }
        while i > 0
            invariant
                i <= self.entries@.len(),
                provider_in(self.entries@, id) == provider_in(self.entries@.take(i as int), id),
            decreases i,
        {
            let e = &self.entries[i - 1];
            if e.0 == id {
                proof {
                    assert(self.entries@.take(i as int).drop_last() == self.entries@.take(i - 1));
                }
                return Some(e.1.clone());
            }
            proof {
                assert(self.entries@.take(i as int).drop_last() == self.entries@.take(i - 1));
            }
            i = i - 1;
        }
        None
    }
}

} // verus!
