//! The binding discipline: one bouncer per binding slot, and resources that
//! can only be worked on while bound through a bouncer.
use vstd::prelude::*;

verus! {

/// Number of texture units that texture bouncers can be claimed for.
pub const TEXTURE_UNITS: usize = 256;

/// The kinds of driver resources, each with its own binding points.
#[derive(PartialEq, Eq, Structural, Clone, Copy, Debug)]
pub enum ResourceKind {
    Program,
    VertexArray,
    ArrayBuffer,
    ElementArrayBuffer,
    Texture,
}

impl ResourceKind {
    pub open spec fn spec_slot_count(self) -> nat {
        match self {
            ResourceKind::Texture => TEXTURE_UNITS as nat,
            _ => 1,
        }
    }

    /// How many binding slots the driver offers for this kind.
    pub fn slot_count(&self) -> (n: usize)
        ensures
            n == self.spec_slot_count(),
    {
        match self {
            ResourceKind::Texture => TEXTURE_UNITS,
            _ => 1,
        }
    }
}

/// Why a bouncer could not be made.
#[derive(PartialEq, Eq, Structural, Clone, Copy, Debug)]
pub enum BouncerError {
    /// The kind has no binding slot with this index.
    SlotOutOfRange { kind: ResourceKind, slot: usize },
    /// A bouncer for this slot was made before.
    SlotTaken { kind: ResourceKind, slot: usize },
}

/// Whether a bouncer for `(kind, slot)` can still be made, given the slots taken so far.
pub open spec fn claim_succeeds(
    taken: Set<(ResourceKind, usize)>,
    kind: ResourceKind,
    slot: usize,
) -> bool {
    slot < kind.spec_slot_count() && !taken.contains((kind, slot))
}

/// The slots taken after an attempt to make a bouncer for `(kind, slot)`.
pub open spec fn after_claim(
    taken: Set<(ResourceKind, usize)>,
    kind: ResourceKind,
    slot: usize,
) -> Set<(ResourceKind, usize)> {
    if claim_succeeds(taken, kind, slot) {
        taken.insert((kind, slot))
    } else {
        taken
    }
}

/// The slots taken after a series of attempts, made in order.
pub open spec fn after_claims(
    taken: Set<(ResourceKind, usize)>,
    claims: Seq<(ResourceKind, usize)>,
) -> Set<(ResourceKind, usize)>
    decreases claims.len(),
{
    if claims.len() == 0 {
        taken
    } else {
        after_claims(after_claim(taken, claims[0].0, claims[0].1), claims.drop_first())
    }
}

/// The record of which binding slots have had a bouncer made for them.
/// One registry stands for the whole process; a slot, once taken, stays taken.
pub struct BouncerRegistry {
    taken: Vec<(ResourceKind, usize)>,
}

impl View for BouncerRegistry {
    type V = Set<(ResourceKind, usize)>;

    closed spec fn view(&self) -> Set<(ResourceKind, usize)> {
        Set::new(|p: (ResourceKind, usize)| self.taken@.contains(p))
    }
}

impl BouncerRegistry {
    /// A registry in which no slot is taken.
    pub fn new() -> (r: Self)
        ensures
            r@ == Set::<(ResourceKind, usize)>::empty(),
    {
        let r = BouncerRegistry { taken: Vec::new() };
        assert(r@ =~= Set::<(ResourceKind, usize)>::empty());
        r
    }

    /// Whether a bouncer for `(kind, slot)` has been made.
    pub fn is_taken(&self, kind: ResourceKind, slot: usize) -> (b: bool)
        ensures
            b == self@.contains((kind, slot)),
    {
        let mut i: usize = 0;
        while i < self.taken.len()
            invariant
                i <= self.taken@.len(),
                forall|j: int| 0 <= j < i ==> self.taken@[j] != (kind, slot),
            decreases self.taken@.len() - i,
        {
            let (k, s) = self.taken[i];
            if k == kind && s == slot {
                assert(self.taken@.contains((kind, slot)));
                return true;
            }
            i = i + 1;
        }
        false
    }
}

/// Permission to bind resources of one kind to one binding slot.
/// Only `Bouncer::new` makes one, at most once per slot.
pub struct Bouncer {
    kind: ResourceKind,
    slot: usize,
}

impl Bouncer {
    #[verifier::type_invariant]
    spec fn inv(self) -> bool {
        self.slot < self.kind.spec_slot_count()
    }

    pub closed spec fn spec_kind(&self) -> ResourceKind {
        self.kind
    }

    pub closed spec fn spec_slot(&self) -> usize {
        self.slot
    }

    /// Claims the slot `slot` of `kind` in `registry`. This succeeds only for a slot
    /// that exists and has not been claimed before.
    pub fn new(registry: &mut BouncerRegistry, kind: ResourceKind, slot: usize) -> (r: Result<
        Bouncer,
        BouncerError,
    >)
        ensures
            final(registry)@ == after_claim(old(registry)@, kind, slot),
            r is Ok <==> claim_succeeds(old(registry)@, kind, slot),
            r matches Ok(b) ==> b.spec_kind() == kind && b.spec_slot() == slot,
            slot >= kind.spec_slot_count() ==> r == Err::<Bouncer, BouncerError>(
                BouncerError::SlotOutOfRange { kind, slot },
            ),
            slot < kind.spec_slot_count() && old(registry)@.contains((kind, slot)) ==> r == Err::<
                Bouncer,
                BouncerError,
            >(BouncerError::SlotTaken { kind, slot }),
    {
        if slot >= kind.slot_count() {
            return Err(BouncerError::SlotOutOfRange { kind, slot });
        }
        if registry.is_taken(kind, slot) {
            return Err(BouncerError::SlotTaken { kind, slot });
        }
        registry.taken.push((kind, slot));
        proof {
            assert(registry.taken@.contains((kind, slot))) by {
                assert(registry.taken@[registry.taken@.len() - 1] == (kind, slot));
            }
            assert forall|p: (ResourceKind, usize)| registry.taken@.contains(p) <==> old(
                registry,
            ).taken@.contains(p) || p == (kind, slot) by {
                if old(registry).taken@.contains(p) {
                    let j = choose|j: int|
                        0 <= j < old(registry).taken@.len() && old(registry).taken@[j] == p;
                    assert(registry.taken@[j] == p);
                }
                if registry.taken@.contains(p) && p != (kind, slot) {
                    let j = choose|j: int| 0 <= j < registry.taken@.len() && registry.taken@[j] == p;
                    assert(j < old(registry).taken@.len());
                    assert(old(registry).taken@[j] == p);
                }
            }
            assert(registry@ =~= old(registry)@.insert((kind, slot)));
        }
        Ok(Bouncer { kind, slot })
    }

    /// The kind of resource this bouncer lets one bind.
    pub fn kind(&self) -> (k: ResourceKind)
        ensures
            k == self.spec_kind(),
    {
        self.kind
    }

    /// The binding slot this bouncer stands for.
    pub fn slot(&self) -> (s: usize)
        ensures
            s == self.spec_slot(),
            s < self.spec_kind().spec_slot_count(),
    {
        proof {
            use_type_invariant(self);
        }
        self.slot
    }
}

/// For every slot: on a fresh registry the first claim succeeds, and once a claim
/// has succeeded, every later claim of the same slot fails, whatever other claims
/// come in between.
pub proof fn lemma_slot_claimed_once(
    taken: Set<(ResourceKind, usize)>,
    kind: ResourceKind,
    slot: usize,
    later: Seq<(ResourceKind, usize)>,
)
    requires
        claim_succeeds(taken, kind, slot),
    ensures
        claim_succeeds(Set::empty(), kind, slot),
        !claim_succeeds(after_claims(after_claim(taken, kind, slot), later), kind, slot),
{
    lemma_claims_keep_taken(after_claim(taken, kind, slot), later, (kind, slot));
}

/// Claims never give a slot back.
pub proof fn lemma_claims_keep_taken(
    taken: Set<(ResourceKind, usize)>,
    claims: Seq<(ResourceKind, usize)>,
    p: (ResourceKind, usize),
)
    requires
        taken.contains(p),
    ensures
        after_claims(taken, claims).contains(p),
    decreases claims.len(),
{
    if claims.len() > 0 {
        lemma_claims_keep_taken(after_claim(taken, claims[0].0, claims[0].1), claims.drop_first(), p);
    }
}

/// A resource that a bouncer can bind: it names its kind, the driver's target
/// enumerant it binds to (zero where the bind call takes none) and its handle.
pub trait Bindable: Sized {
    spec fn spec_kind() -> ResourceKind;

    spec fn spec_target(&self) -> u32;

    spec fn spec_handle(&self) -> u32;

    fn kind() -> (k: ResourceKind)
        ensures
            k == Self::spec_kind(),
    ;

    fn target(&self) -> (t: u32)
        ensures
            t == self.spec_target(),
    ;

    fn handle(&self) -> (h: u32)
        ensures
            h == self.spec_handle(),
    ;
}

/// The texture unit that was made active last. It only serves to skip a
/// redundant unit switch; the driver starts out on unit zero.
pub struct LastBound {
    unit: usize,
}

impl LastBound {
    pub closed spec fn spec_unit(&self) -> usize {
        self.unit
    }

    pub fn new() -> (r: Self)
        ensures
            r.spec_unit() == 0,
    {
        LastBound { unit: 0 }
    }

    pub fn unit(&self) -> (u: usize)
        ensures
            u == self.spec_unit(),
    {
        self.unit
    }
}

/// The driver calls that make a resource the active one for a slot: first, when
/// `active_unit` is set, a switch of the active texture unit; then the bind call
/// for `kind` with `target` and `handle`.
#[derive(PartialEq, Eq, Structural, Clone, Copy, Debug)]
pub struct BindCall {
    pub kind: ResourceKind,
    pub active_unit: Option<usize>,
    pub target: u32,
    pub handle: u32,
}

/// The driver call that deletes the resource of `kind` with handle `handle`.
#[derive(PartialEq, Eq, Structural, Clone, Copy, Debug)]
pub struct DeleteCall {
    pub kind: ResourceKind,
    pub handle: u32,
}

/// The unit switch that binding to `slot` needs, given the unit made active last.
pub open spec fn unit_switch(kind: ResourceKind, slot: usize, last: usize) -> Option<usize> {
    if kind == ResourceKind::Texture && slot != last {
        Some(slot)
    } else {
        None
    }
}

/// The unit made active last, after binding `kind` to `slot`.
pub open spec fn unit_after(kind: ResourceKind, slot: usize, last: usize) -> usize {
    if kind == ResourceKind::Texture {
        slot
    } else {
        last
    }
}

/// The bouncer as it is once a binding made with it has ended: unchanged.
pub open spec fn bouncer_after_binding(bn: Bouncer) -> Bouncer {
    bn
}

/// Whether `bn` may be presented to bind a resource of type `R`.
pub open spec fn can_bind<R: Bindable>(bn: Bouncer) -> bool {
    bn.spec_kind() == R::spec_kind()
}

/// A resource that exists at the driver and is not claimed to be bound.
/// Its operations are reached only by binding it.
pub struct Unbound<R> {
    res: R,
}

impl<R> Unbound<R> {
    pub closed spec fn resource(&self) -> R {
        self.res
    }

    pub(crate) fn from(res: R) -> (u: Unbound<R>)
        ensures
            u.resource() == res,
    {
        Unbound { res }
    }
}

/// A resource bound to the slot of a bouncer. The bouncer stays borrowed for as
/// long as the binding lives, so nothing else can be bound through it meanwhile;
/// once the binding is released or dropped, the bouncer is free again.
pub struct Bound<'a, R> {
    res: R,
    bn: &'a Bouncer,
}

impl<'a, R> Bound<'a, R> {
    pub closed spec fn resource(&self) -> R {
        self.res
    }

    pub closed spec fn bouncer(&self) -> Bouncer {
        *self.bn
    }

    /// The bound resource.
    pub fn get(&self) -> (r: &R)
        ensures
            *r == self.resource(),
    {
        &self.res
    }

    /// The bound resource, for operations that change it.
    pub fn get_mut(&mut self) -> (r: &mut R)
        ensures
            *r == old(self).resource(),
            final(self).resource() == *final(r),
            final(self).bouncer() == old(self).bouncer(),
    {
        &mut self.res
    }

    /// The slot the resource is bound to.
    pub fn slot(&self) -> (s: usize)
        ensures
            s == self.bouncer().spec_slot(),
    {
        self.bn.slot()
    }

    /// Ends the binding and hands back the resource, unbound. The driver's
    /// binding is left as it is.
    pub fn release(self) -> (u: Unbound<R>)
        ensures
            u.resource() == self.resource(),
    {
        Unbound { res: self.res }
    }
}

impl<R: Bindable> Unbound<R> {
    /// Binds the resource to the slot of `bn`, which stays lent to the result.
    /// The call returned is what the driver must be told; its unit switch is left
    /// out when `last` shows that unit is active already.
    pub fn bind<'a>(self, bn: &'a mut Bouncer, last: &mut LastBound) -> (r: (Bound<'a, R>, BindCall))
        requires
            can_bind::<R>(*old(bn)),
        ensures
            r.0.resource() == self.resource(),
            r.0.bouncer() == *old(bn),
            *final(bn) == bouncer_after_binding(*old(bn)),
            r.1 == (BindCall {
                kind: R::spec_kind(),
                active_unit: unit_switch(R::spec_kind(), old(bn).spec_slot(), old(last).spec_unit()),
                target: self.resource().spec_target(),
                handle: self.resource().spec_handle(),
            }),
            final(last).spec_unit() == unit_after(
                R::spec_kind(),
                old(bn).spec_slot(),
                old(last).spec_unit(),
            ),
    {
        let kind = R::kind();
        let slot = bn.slot();
        let active_unit = if kind == ResourceKind::Texture && slot != last.unit {
            Some(slot)
        } else {
            None
        };
        if kind == ResourceKind::Texture {
            last.unit = slot;
        }
        let call = BindCall { kind, active_unit, target: self.res.target(), handle: self.res.handle() };
        let lent: &'a Bouncer = bn;
        (Bound { res: self.res, bn: lent }, call)
    }
}

impl<R: Bindable> Unbound<R> {
    /// Gives up the resource and describes the call that deletes it at the
    /// driver. The resource is consumed, so its handle is deleted at most once.
    pub fn destroy(self) -> (c: DeleteCall)
        ensures
            c == (DeleteCall { kind: R::spec_kind(), handle: self.resource().spec_handle() }),
    {
        DeleteCall { kind: R::kind(), handle: self.res.handle() }
    }
}

/// Binding with a bouncer and then releasing or dropping the binding leaves the
/// bouncer as it was, so it can be presented to `bind` again.
pub proof fn lemma_release_allows_rebind<R: Bindable>(bn: Bouncer)
    requires
        can_bind::<R>(bn),
    ensures
        can_bind::<R>(bouncer_after_binding(bn)),
        bouncer_after_binding(bn).spec_slot() == bn.spec_slot(),
{
}

} // verus!
