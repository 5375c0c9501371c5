use vstd::prelude::*;
use vstd::string::StringExecFns;

use crate::error::Error;
use crate::registry::bound_scheme;
use crate::registry::canonical_name;
use crate::registry::lookup;
use crate::registry::name_of;
use crate::registry::registered;
use crate::registry::scheme_of;
use crate::registry::spec_registered;
use crate::registry::ConfigId;
use crate::registry::SignerScheme;
use crate::signer::ecdsa_derive;
use crate::signer::sr25519_derive;
use crate::signer::Signer;
use crate::signer::SignerEcdsa;
use crate::signer::SignerSR25519;

verus! {

/// The fixed namespace prefix that the resolver prepends to a supplied
/// identity before matching it against the qualified canonical identifiers.
pub open spec fn namespace_prefix() -> Seq<char> {
    "chain_config::registry::"@
}

/// The names of the given configurations, comma-separated, in order.
pub open spec fn joined_names(ids: Seq<ConfigId>) -> Seq<char>
    decreases ids.len(),
{
    if ids.len() == 0 {
        Seq::empty()
    } else if ids.len() == 1 {
        canonical_name(ids[0])
    } else {
        joined_names(ids.drop_last()) + ", "@ + canonical_name(ids.last())
    }
}

/// The message carried by `ConfigNotFound`: it enumerates every registered
/// canonical name, for discoverability.
pub open spec fn not_found_message_spec() -> Seq<char> {
    "Chain configuration not found, Allowed configurations: "@ + joined_names(spec_registered())
}

/// Appending the same prefix to two strings preserves and reflects equality.
proof fn lemma_concat_cancel(a: Seq<char>, b: Seq<char>, c: Seq<char>)
    ensures
        (a + b == a + c) <==> (b == c),
{
    if a + b == a + c {
        assert((a + b).len() == (a + c).len());
        assert(b.len() == c.len());
        assert forall|i: int| 0 <= i < b.len() implies b[i] == c[i] by {
            assert((a + b)[a.len() + i] == b[i]);
            assert((a + c)[a.len() + i] == c[i]);
        }
        assert(b =~= c);
    }
    if b == c {
        assert(a + b =~= a + c);
    }
}

/// Qualifies an identity with the namespace prefix.
fn qualify(identity: &str) -> (r: String)
    ensures
        r@ == namespace_prefix() + identity@,
{
    let p: String = "chain_config::registry::".to_owned();
    p.concat(identity)
}

/// Builds the `ConfigNotFound` message by enumerating the registry, so that
/// the message stays in lockstep with the registered set.
fn not_found_message() -> (r: String)
    ensures
        r@ == not_found_message_spec(),
{
    let ids = registered();
    let mut names = String::new();
    let mut i: usize = 0;
    while i < ids.len()
        invariant
            i <= ids.len(),
            ids@ == spec_registered(),
            names@ == joined_names(spec_registered().take(i as int)),
        decreases ids.len() - i,
    {
        if i > 0 {
            names.append(", ");
        }
        names.append(name_of(ids[i]));
        proof {
            let s = spec_registered();
            let t = s.take(i + 1);
            assert(t.drop_last() =~= s.take(i as int));
            assert(t.last() == s[i as int]);
            if i == 0 {
                assert(names@ =~= joined_names(t));
            }
        }
        i += 1;
    }
    proof {
        assert(spec_registered().take(spec_registered().len() as int) =~= spec_registered());
    }
    let head: String = "Chain configuration not found, Allowed configurations: ".to_owned();
    head.concat(names.as_str())
}

/// Resolves a runtime-identity string to the matching configuration.
///
/// The identity is qualified with the namespace prefix and matched exactly,
/// case-sensitively, against each registered configuration's qualified
/// canonical identifier, in registration order; each name is unique, so the
/// first match is the only match.  When nothing matches, the error's message
/// lists every registered canonical name.
pub fn resolve(identity: &str) -> (r: Result<ConfigId, Error>)
    ensures
        r matches Ok(id) ==> lookup(identity@) == Some(id),
        r is Ok <==> lookup(identity@) is Some,
        r matches Err(e) ==> (e matches Error::ConfigNotFound(m) && m@
            == not_found_message_spec()),
{
    let q = qualify(identity);
    let ids = registered();
    let mut i: usize = 0;
    while i < ids.len()
        invariant
            i <= ids.len(),
            ids@ == spec_registered(),
            q@ == namespace_prefix() + identity@,
            forall|j: int| 0 <= j < i ==> canonical_name(spec_registered()[j]) != identity@,
        decreases ids.len() - i,
    {
        let id = ids[i];
        let cand = qualify(name_of(id));
        proof {
            lemma_concat_cancel(namespace_prefix(), identity@, canonical_name(id));
        }
        if q == cand {
            return Ok(id);
        }
        i += 1;
    }
    proof {
        assert(canonical_name(spec_registered()[0]) != identity@);
        assert(canonical_name(spec_registered()[1]) != identity@);
    }
    Err(Error::ConfigNotFound(not_found_message()))
}

/// Whether a signer is the one that parsing `secret` under `scheme` must
/// produce: the right variant, remembering the secret, holding the public
/// key that the scheme's key derivation gives for it.
pub open spec fn signer_matches(s: Signer, scheme: SignerScheme, secret: Seq<char>) -> bool {
    match s {
        Signer::Sr25519(x) => scheme == SignerScheme::Sr25519 && x.seed_uri() == secret
            && Ok::<_, Seq<char>>(x.public_key()) == sr25519_derive(secret),
        Signer::Ecdsa(x) => scheme == SignerScheme::Ecdsa && x.seed_uri() == secret
            && Ok::<_, Seq<char>>(x.public_key()) == ecdsa_derive(secret),
    }
}

/// The result of key derivation under a scheme: the public key, or the
/// derivation failure's message when the secret is not a valid seed-URI for
/// that scheme.
pub open spec fn derive_of(scheme: SignerScheme, secret: Seq<char>) -> Result<Seq<u8>, Seq<char>> {
    match scheme {
        SignerScheme::Sr25519 => sr25519_derive(secret),
        SignerScheme::Ecdsa => ecdsa_derive(secret),
    }
}

/// Parses a secret string under the signer scheme bound to the given
/// configuration.  Fails with `InvalidSecret` exactly when the secret is not
/// a valid seed-URI for that scheme, carrying the derivation failure's
/// message verbatim.
pub fn signer_from_string(id: ConfigId, secret: &str) -> (r: Result<Signer, Error>)
    ensures
        r is Ok <==> derive_of(bound_scheme(id), secret@) is Ok,
        r matches Ok(s) ==> signer_matches(s, bound_scheme(id), secret@),
        r matches Err(e) ==> (e matches Error::InvalidSecret(m) && derive_of(
            bound_scheme(id),
            secret@,
        ) == Err::<Seq<u8>, _>(m@)),
{
    match scheme_of(id) {
        SignerScheme::Sr25519 => match SignerSR25519::from_str(secret) {
            Ok(s) => Ok(Signer::Sr25519(s)),
            Err(e) => Err(e),
        },
        SignerScheme::Ecdsa => match SignerEcdsa::from_str(secret) {
            Ok(s) => Ok(Signer::Ecdsa(s)),
            Err(e) => Err(e),
        },
    }
}

/// The full control path of an invocation: resolve the identity to a
/// configuration, then parse the secret under that configuration's bound
/// scheme.  The caller runs its operation with the returned pair and owns
/// whatever that operation returns.
pub fn resolve_signer(identity: &str, secret: &str) -> (r: Result<(ConfigId, Signer), Error>)
    ensures
        lookup(identity@) is None ==> (r matches Err(e) && e matches Error::ConfigNotFound(m)
            && m@ == not_found_message_spec()),
        lookup(identity@) matches Some(id) ==> {
            &&& r is Ok <==> derive_of(bound_scheme(id), secret@) is Ok
            &&& r matches Ok(p) ==> p.0 == id && signer_matches(p.1, bound_scheme(id), secret@)
            &&& r matches Err(e) ==> (e matches Error::InvalidSecret(m) && derive_of(
                bound_scheme(id),
                secret@,
            ) == Err::<Seq<u8>, _>(m@))
        },
{
    let id = match resolve(identity) {
        Ok(id) => id,
        Err(e) => {
            return Err(e);
        },
    };
    match signer_from_string(id, secret) {
        Ok(s) => Ok((id, s)),
        Err(e) => Err(e),
    }
}

/// Whether `needle` occurs in `hay` as a contiguous substring.
pub open spec fn contains_seq(hay: Seq<char>, needle: Seq<char>) -> bool {
    exists|k: int|
        0 <= k && k + needle.len() <= hay.len() && #[trigger] hay.subrange(k, k + needle.len())
            == needle
}

/// Law: for every registered configuration, its canonical name occurs in the
/// message that `resolve` returns when no configuration matches.
pub proof fn lemma_not_found_message_lists_all_names(id: ConfigId)
    requires
        spec_registered().contains(id),
    ensures
        contains_seq(not_found_message_spec(), canonical_name(id)),
{
    let head = "Chain configuration not found, Allowed configurations: "@;
    let sep = ", "@;
    let n0 = canonical_name(ConfigId::Polkadot);
    let n1 = canonical_name(ConfigId::Ecdsachain);
    let s = spec_registered();
    let d = s.drop_last();
    assert(d =~= seq![ConfigId::Polkadot]);
    assert(seq![ConfigId::Polkadot].len() == 1);
    assert(joined_names(seq![ConfigId::Polkadot]) == canonical_name(seq![ConfigId::Polkadot][0]));
    assert(s.last() == ConfigId::Ecdsachain);
    assert(joined_names(s) == joined_names(d) + sep + n1);
    assert(joined_names(s) == n0 + sep + n1);
    let msg = not_found_message_spec();
    match id {
        ConfigId::Polkadot => {
            let k = head.len() as int;
            assert(msg.subrange(k, k + n0.len()) =~= n0);
            assert(contains_seq(msg, n0));
        },
        ConfigId::Ecdsachain => {
            let k = (head.len() + n0.len() + sep.len()) as int;
            assert(msg.subrange(k, k + n1.len() as int) =~= n1);
            assert(contains_seq(msg, n1));
        },
    }
}

} // verus!

