use vstd::prelude::*;

verus! {

/// A runtime configuration for the Polkadot based chain.
/// A type-level tag carrying no data: it exists only to name a configuration
/// and to carry its type bindings through `SignerConfig`.
pub enum Polkadot {
    Tag,
}

/// A runtime configuration for the ecdsa test chain.
/// A type-level tag carrying no data: it exists only to name a configuration
/// and to carry its type bindings through `SignerConfig`.
pub enum Ecdsachain {
    Tag,
}

/// The runtime identity of a registered configuration: the value-level mirror
/// of the marker types above, used by the resolver.
#[derive(Clone, Copy, Debug, PartialEq, Eq, Structural)]
pub enum ConfigId {
    Polkadot,
    Ecdsachain,
}

/// A signing scheme supported by the registry.
#[derive(Clone, Copy, Debug, PartialEq, Eq, Structural)]
pub enum SignerScheme {
    Sr25519,
    Ecdsa,
}

/// The bound on the number of event topics, shared by every registered
/// configuration's execution environment.
pub const MAX_EVENT_TOPICS: usize = 4;

/// Execution-environment parameters of a configuration, as opposed to its
/// chain-extrinsic facing bindings.
pub struct EnvironmentSpec {
    pub max_event_topics: usize,
}

/// The declared one-to-one binding from a configuration to its signer: each
/// registered configuration names exactly one signer type, the one whose
/// scheme `bound_scheme` returns for its identity.
pub trait SignerConfig {
    /// The signer type bound to this configuration.
    type Signer;

    /// The runtime identity of this configuration.
    spec fn spec_id() -> ConfigId;

    /// Returns the runtime identity of this configuration.
    fn config_id() -> (r: ConfigId)
        ensures
            r == Self::spec_id(),
    ;
}

/// The canonical name of a configuration: unique, matched exactly and
/// case-sensitively by the resolver.
pub open spec fn canonical_name(id: ConfigId) -> Seq<char> {
    match id {
        ConfigId::Polkadot => "Polkadot"@,
        ConfigId::Ecdsachain => "Ecdsachain"@,
    }
}

/// The signer scheme bound to a configuration: a declared one-to-one
/// relation, kept in lockstep with `scheme_of`.
pub open spec fn bound_scheme(id: ConfigId) -> SignerScheme {
    match id {
        ConfigId::Polkadot => SignerScheme::Sr25519,
        ConfigId::Ecdsachain => SignerScheme::Ecdsa,
    }
}

/// The closed set of registered configurations, in registration order.
pub open spec fn spec_registered() -> Seq<ConfigId> {
    seq![ConfigId::Polkadot, ConfigId::Ecdsachain]
}

/// The configuration whose canonical name equals the identity, if any.
/// Names are unique, so the first match is the only match.
pub open spec fn lookup(identity: Seq<char>) -> Option<ConfigId> {
    if identity == canonical_name(ConfigId::Polkadot) {
        Some(ConfigId::Polkadot)
    } else if identity == canonical_name(ConfigId::Ecdsachain) {
        Some(ConfigId::Ecdsachain)
    } else {
        None
    }
}

/// Returns the canonical name of a configuration.
pub fn name_of(id: ConfigId) -> (r: &'static str)
    ensures
        r@ == canonical_name(id),
{
    match id {
        ConfigId::Polkadot => "Polkadot",
        ConfigId::Ecdsachain => "Ecdsachain",
    }
}

/// Returns the signer scheme bound to a configuration.
pub fn scheme_of(id: ConfigId) -> (r: SignerScheme)
    ensures
        r == bound_scheme(id),
{
    match id {
        ConfigId::Polkadot => SignerScheme::Sr25519,
        ConfigId::Ecdsachain => SignerScheme::Ecdsa,
    }
}

/// Returns every registered configuration, in registration order.  Extending
/// the registry is a closed-world edit of this function, `spec_registered`,
/// and the resolver that enumerates it.
pub fn registered() -> (r: Vec<ConfigId>)
    ensures
        r@ == spec_registered(),
{
    let mut v: Vec<ConfigId> = Vec::new();
    v.push(ConfigId::Polkadot);
    v.push(ConfigId::Ecdsachain);
    proof {
        assert(v@ =~= spec_registered());
    }
    v
}

/// Returns the execution-environment parameters of a configuration.  Every
/// registered configuration uses the default environment bindings.
pub fn environment_of(id: ConfigId) -> (r: EnvironmentSpec)
    ensures
        r.max_event_topics == MAX_EVENT_TOPICS,
{
    match id {
        ConfigId::Polkadot => EnvironmentSpec { max_event_topics: MAX_EVENT_TOPICS },
        ConfigId::Ecdsachain => EnvironmentSpec { max_event_topics: MAX_EVENT_TOPICS },
    }
}

/// Law: the canonical names of distinct registered configurations are
/// distinct, so the resolver's first match is the only match.  Each
/// configuration's bound scheme is unique by construction: `bound_scheme` is
/// a total function of the identity.
pub proof fn lemma_registry_well_formed()
    ensures
        forall|i: int, j: int|
            0 <= i < spec_registered().len() && 0 <= j < spec_registered().len() && i != j
                ==> canonical_name(spec_registered()[i]) != canonical_name(spec_registered()[j]),
{
    reveal_strlit("Polkadot");
    reveal_strlit("Ecdsachain");
    assert(canonical_name(ConfigId::Polkadot).len() == 8);
    assert(canonical_name(ConfigId::Ecdsachain).len() == 10);
}

} // verus!
