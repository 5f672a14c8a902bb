//! The rules by which one alias output may supersede another, and who must
//! sign for it, following chains of aliases that control aliases.
use crate::alias_id::{bytes_equal, Address, AliasId};
use crate::output::{AliasOutput, AliasOutputModel};
use vstd::prelude::*;

verus! {

broadcast use vstd::array::group_array_axioms;

/// The kind of an accepted transition.
#[derive(Clone, Copy, Debug, PartialEq, Eq, Structural)]
pub enum TransitionKind {
    /// Authorized by the state controller: the state index goes up by one.
    State,
    /// Authorized by the governor: the state index stays.
    Governance,
}

/// Why a transition is refused.
#[derive(Clone, Copy, Debug, PartialEq, Eq, Structural)]
pub enum TransitionError {
    /// The next output does not carry the alias's id.
    AliasIdMismatch,
    /// The immutable features differ.
    ImmutableFeaturesChanged,
    /// The state index changes by something other than 0 or 1.
    InvalidStateIndexDelta,
    /// The state index stays, but amount, state metadata, features or foundry counter change.
    GovernanceChangesState,
    /// The state index goes up, but the unlock conditions change.
    StateTransitionChangesUnlockConditions,
    /// The foundry counter goes down.
    FoundryCounterDecreased,
    /// The signer does not control the address that must unlock the output.
    Unauthorized,
}

/// How `prev`, the output of the alias with id `alias_id`, may become `next`.
pub open spec fn transition_of(alias_id: Seq<u8>, prev: AliasOutputModel, next: AliasOutputModel) -> Result<
    TransitionKind,
    TransitionError,
> {
    if next.alias_id.bytes@ != alias_id {
        Err(TransitionError::AliasIdMismatch)
    } else if next.immutable_features != prev.immutable_features {
        Err(TransitionError::ImmutableFeaturesChanged)
    } else if next.state_index == prev.state_index {
        if next.amount != prev.amount || next.state_metadata != prev.state_metadata || next.features
            != prev.features || next.foundry_counter != prev.foundry_counter {
            Err(TransitionError::GovernanceChangesState)
        } else {
            Ok(TransitionKind::Governance)
        }
    } else if next.state_index == prev.state_index + 1 {
        if next.state_controller != prev.state_controller || next.governor != prev.governor {
            Err(TransitionError::StateTransitionChangesUnlockConditions)
        } else if next.foundry_counter < prev.foundry_counter {
            Err(TransitionError::FoundryCounterDecreased)
        } else {
            Ok(TransitionKind::State)
        }
    } else {
        Err(TransitionError::InvalidStateIndexDelta)
    }
}

/// Classifies the transition from `prev`, the current output of the alias
/// with id `alias_id`, to `next`, or says which rule it breaks.
pub fn validate_transition(alias_id: &AliasId, prev: &AliasOutput, next: &AliasOutput) -> (r: Result<
    TransitionKind,
    TransitionError,
>)
    ensures
        r == transition_of(alias_id.bytes@, prev@, next@),
{
    proof {
        if next@.alias_id.bytes@ == alias_id.bytes@ {
            assert(next@.alias_id.bytes =~= alias_id.bytes);
        }
    }
    if !next.alias_id().same_as(alias_id) {
        return Err(TransitionError::AliasIdMismatch);
    }
    if !next.immutable_features().same_as(prev.immutable_features()) {
        return Err(TransitionError::ImmutableFeaturesChanged);
    }
    if next.state_index() == prev.state_index() {
        if next.amount() != prev.amount() || !bytes_equal(
            next.state_metadata().as_slice(),
            prev.state_metadata().as_slice(),
        ) || !next.features().same_as(prev.features()) || next.foundry_counter()
            != prev.foundry_counter() {
            return Err(TransitionError::GovernanceChangesState);
        }
        return Ok(TransitionKind::Governance);
    }
    if prev.state_index() < u32::MAX && next.state_index() == prev.state_index() + 1 {
        if !next.state_controller_address().same_as(&prev.state_controller_address())
            || !next.governor_address().same_as(&prev.governor_address()) {
            return Err(TransitionError::StateTransitionChangesUnlockConditions);
        }
        if next.foundry_counter() < prev.foundry_counter() {
            return Err(TransitionError::FoundryCounterDecreased);
        }
        return Ok(TransitionKind::State);
    }
    Err(TransitionError::InvalidStateIndexDelta)
}

/// A state index that goes down, or up by more than one, is refused.
pub proof fn lemma_bad_state_index_refused(alias_id: Seq<u8>, prev: AliasOutputModel, next: AliasOutputModel)
    requires
        next.state_index < prev.state_index || next.state_index > prev.state_index + 1,
    ensures
        transition_of(alias_id, prev, next) is Err,
{
}

/// A change of the immutable features is refused, whatever the state index does.
pub proof fn lemma_immutable_features_fixed(alias_id: Seq<u8>, prev: AliasOutputModel, next: AliasOutputModel)
    requires
        next.immutable_features != prev.immutable_features,
    ensures
        transition_of(alias_id, prev, next) is Err,
{
}

/// A transition that keeps the state index but changes the state metadata is
/// refused, whatever it does to the unlock conditions.
pub proof fn lemma_governance_keeps_state_metadata(
    alias_id: Seq<u8>,
    prev: AliasOutputModel,
    next: AliasOutputModel,
)
    requires
        next.state_index == prev.state_index,
        next.state_metadata != prev.state_metadata,
    ensures
        transition_of(alias_id, prev, next) is Err,
{
}

/// Whether `store[i]` is the first output in `store` with alias id `id`.
pub open spec fn first_with_id(store: Seq<AliasOutputModel>, id: AliasId, i: int) -> bool {
    &&& 0 <= i < store.len()
    &&& store[i].alias_id == id
    &&& forall|j: int| 0 <= j < i ==> store[j].alias_id != id
}

/// Whether the holder of the key with hash `signer` can unlock `address`
/// within `depth` steps: an Ed25519 address by its own key, an alias address
/// through the state controller of that alias's output in `store`.
pub open spec fn controls(store: Seq<AliasOutputModel>, address: Address, signer: Seq<u8>, depth: nat) -> bool
    decreases depth,
{
    match address {
        Address::Ed25519(h) => h@ == signer,
        Address::Alias(id) => depth > 0 && exists|i: int|
            #[trigger] first_with_id(store, id, i) && controls(
                store,
                store[i].state_controller,
                signer,
                (depth - 1) as nat,
            ),
    }
}

/// The views of a list of outputs.
pub open spec fn store_view(store: Seq<AliasOutput>) -> Seq<AliasOutputModel> {
    store.map_values(|o: AliasOutput| o@)
}

/// The position of the first output in `store` with alias id `id`, if any.
fn find_alias(store: &Vec<AliasOutput>, id: &AliasId) -> (r: Option<usize>)
    ensures
        match r {
            Some(i) => first_with_id(store_view(store@), *id, i as int),
            None => forall|j: int| 0 <= j < store@.len() ==> store_view(store@)[j].alias_id != *id,
        },
{
    let mut i: usize = 0;
    while i < store.len()
        invariant
            0 <= i <= store@.len(),
            forall|j: int| 0 <= j < i ==> store_view(store@)[j].alias_id != *id,
        decreases store@.len() - i,
    {
        if store[i].alias_id().same_as(id) {
            return Some(i);
        }
        i = i + 1;
    }
    None
}

/// Whether the holder of the key with hash `signer` can unlock `address`,
/// following at most as many alias links as `store` holds outputs.
pub fn is_controlled_by(store: &Vec<AliasOutput>, address: &Address, signer: &[u8; 32]) -> (r: bool)
    ensures
        r == controls(store_view(store@), *address, signer@, store@.len() as nat),
{
    let ghost s = store_view(store@);
    let mut current = *address;
    let mut depth: usize = store.len();
    loop
        invariant
            s == store_view(store@),
            depth <= store@.len(),
            controls(s, current, signer@, depth as nat) == controls(s, *address, signer@, store@.len() as nat),
        decreases depth,
    {
        match current {
            Address::Ed25519(h) => {
                let r = bytes_equal(vstd::array::array_as_slice(&h), vstd::array::array_as_slice(signer));
                return r;
            },
            Address::Alias(id) => {
                if depth == 0 {
                    return false;
                }
                match find_alias(store, &id) {
                    None => {
                        assert(!controls(s, current, signer@, depth as nat));
                        return false;
                    },
                    Some(i) => {
                        proof {
                            assert forall|k: int| first_with_id(s, id, k) implies k == i by {
                                if k < i {
                                    assert(s[k].alias_id != id);
                                } else if k > i {
                                    assert(s[i as int].alias_id != id);
                                }
                            }
                        }
                        current = store[i].state_controller_address();
                        depth = depth - 1;
                    },
                }
            },
        }
    }
}

/// The address whose holder must sign a transition of this kind from `prev`.
pub open spec fn required_address(prev: AliasOutputModel, kind: TransitionKind) -> Address {
    match kind {
        TransitionKind::State => prev.state_controller,
        TransitionKind::Governance => prev.governor,
    }
}

/// What a transition signed by `signer` comes to: its kind if it follows the
/// rules and the signer controls the address it needs, else the error.
pub open spec fn authorized_transition_of(
    store: Seq<AliasOutputModel>,
    alias_id: Seq<u8>,
    prev: AliasOutputModel,
    next: AliasOutputModel,
    signer: Seq<u8>,
) -> Result<TransitionKind, TransitionError> {
    match transition_of(alias_id, prev, next) {
        Err(e) => Err(e),
        Ok(kind) => if controls(store, required_address(prev, kind), signer, store.len()) {
            Ok(kind)
        } else {
            Err(TransitionError::Unauthorized)
        },
    }
}

/// Checks a transition and that `signer` may make it, with the outputs of
/// `store` as the current outputs of the aliases that addresses name.
pub fn authorize_transition(
    store: &Vec<AliasOutput>,
    alias_id: &AliasId,
    prev: &AliasOutput,
    next: &AliasOutput,
    signer: &[u8; 32],
) -> (r: Result<TransitionKind, TransitionError>)
    ensures
        r == authorized_transition_of(store_view(store@), alias_id.bytes@, prev@, next@, signer@),
{
    let kind = match validate_transition(alias_id, prev, next) {
        Err(e) => {
            return Err(e);
        },
        Ok(k) => k,
    };
    let address = match kind {
        TransitionKind::State => prev.state_controller_address(),
        TransitionKind::Governance => prev.governor_address(),
    };
    if is_controlled_by(store, &address, signer) {
        Ok(kind)
    } else {
        Err(TransitionError::Unauthorized)
    }
}

/// An alias address `a` is controlled exactly by whoever controls the state
/// controller of that alias's output, the first in the store with its id, one
/// link less deep.
pub proof fn lemma_alias_controls_alias(
    store: Seq<AliasOutputModel>,
    a: Address,
    i: int,
    signer: Seq<u8>,
    depth: nat,
)
    requires
        a is Alias,
        first_with_id(store, a->Alias_0, i),
        depth > 0,
    ensures
        controls(store, a, signer, depth) == controls(
            store,
            store[i].state_controller,
            signer,
            (depth - 1) as nat,
        ),
{
    let id = a->Alias_0;
    assert forall|k: int| first_with_id(store, id, k) implies k == i by {
        if k < i {
            assert(store[k].alias_id != id);
        } else if k > i {
            assert(store[i].alias_id != id);
        }
    }
}

} // verus!
