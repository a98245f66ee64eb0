//! The naming convention that ties a network's storage identifier to its
//! accessor identifier. Every identifier in the emitted text comes from here.
use crate::network::Network;
use vstd::prelude::*;

verus! {

/// What `str::to_uppercase` returns for the given characters.
pub uninterp spec fn upper_of(s: Seq<char>) -> Seq<char>;

/// What `str::to_lowercase` returns for the given characters.
pub uninterp spec fn lower_of(s: Seq<char>) -> Seq<char>;

/// Relies on `str::to_uppercase`: the result depends on the characters alone.
#[verifier::external_body]
fn uppercase(s: &str) -> (r: String)
    ensures
        r@ == upper_of(s@),
{
    s.to_uppercase()
}

/// Relies on `str::to_lowercase`: the result depends on the characters alone.
#[verifier::external_body]
fn lowercase(s: &str) -> (r: String)
    ensures
        r@ == lower_of(s@),
{
    s.to_lowercase()
}

/// Marker appended to the upper-cased network name.
pub open spec fn provider_suffix() -> Seq<char> {
    "_PROVIDER"@
}

/// Marker put in front of the lower-cased storage identifier.
pub open spec fn accessor_prefix() -> Seq<char> {
    "get_"@
}

/// Storage identifier of a network named `name`.
pub open spec fn storage_identifier(name: Seq<char>) -> Seq<char> {
    upper_of(name) + provider_suffix()
}

/// Accessor identifier of a network named `name`.
pub open spec fn accessor_identifier(name: Seq<char>) -> Seq<char> {
    accessor_prefix() + lower_of(storage_identifier(name))
}

/// Storage identifier from a name that is already upper-cased.
pub fn provider_name_from_upper(upper: &str) -> (r: String)
    ensures
        r@ == upper@ + provider_suffix(),
{
    let mut r = String::from_str(upper);
    r.append("_PROVIDER");
    r
}

/// Accessor identifier from a storage identifier that is already lower-cased.
pub fn provider_fn_name_from_lower(lower: &str) -> (r: String)
    ensures
        r@ == accessor_prefix() + lower@,
{
    let mut r = String::from_str("get_");
    r.append(lower);
    r
}

/// Storage identifier of the network named `network_name`.
pub fn network_provider_name_from_name(network_name: &str) -> (r: String)
    ensures
        r@ == storage_identifier(network_name@),
{
    let upper = uppercase(network_name);
    provider_name_from_upper(upper.as_str())
}

/// Accessor identifier of the network named `network_name`.
pub fn network_provider_fn_name_by_name(network_name: &str) -> (r: String)
    ensures
        r@ == accessor_identifier(network_name@),
{
    let storage = network_provider_name_from_name(network_name);
    let lower = lowercase(storage.as_str());
    provider_fn_name_from_lower(lower.as_str())
}

/// Storage identifier of `network`.
pub fn network_provider_name(network: &Network) -> (r: String)
    ensures
        r@ == storage_identifier(network.name@),
{
    network_provider_name_from_name(network.name.as_str())
}

/// Accessor identifier of `network`.
pub fn network_provider_fn_name(network: &Network) -> (r: String)
    ensures
        r@ == accessor_identifier(network.name@),
{
    network_provider_fn_name_by_name(network.name.as_str())
}

/// Appending one marker to two texts keeps them apart.
proof fn lemma_suffix_keeps_apart(a: Seq<char>, b: Seq<char>, m: Seq<char>)
    requires
        a != b,
    ensures
        a + m != b + m,
{
    if a + m == b + m {
        assert(a =~= (a + m).take(a.len() as int));
        assert(b =~= (b + m).take(b.len() as int));
    }
}

/// Putting one marker in front of two texts keeps them apart.
proof fn lemma_prefix_keeps_apart(m: Seq<char>, a: Seq<char>, b: Seq<char>)
    requires
        a != b,
    ensures
        m + a != m + b,
{
    if m + a == m + b {
        assert(a =~= (m + a).skip(m.len() as int));
        assert(b =~= (m + b).skip(m.len() as int));
    }
}

/// Names that differ once upper-cased get distinct storage identifiers.
/// Their accessor identifiers differ as well, save where lower-casing the
/// storage identifiers merges them (a name holding the Kelvin sign, against
/// the same name with `k`): there the accessor identifiers coincide.
pub proof fn lemma_identifiers_distinct(names: Seq<Seq<char>>)
    requires
        forall|i: int| 0 <= i < names.len() ==> (#[trigger] names[i]).len() > 0,
        forall|i: int, j: int|
            0 <= i < names.len() && 0 <= j < names.len() && i != j ==> upper_of(
                #[trigger] names[i],
            ) != upper_of(#[trigger] names[j]),
    ensures
        forall|i: int, j: int|
            0 <= i < names.len() && 0 <= j < names.len() && i != j ==> storage_identifier(
                #[trigger] names[i],
            ) != storage_identifier(#[trigger] names[j]),
        forall|i: int, j: int|
            0 <= i < names.len() && 0 <= j < names.len() && i != j && lower_of(
                storage_identifier(#[trigger] names[i]),
            ) != lower_of(storage_identifier(#[trigger] names[j])) ==> accessor_identifier(
                names[i],
            ) != accessor_identifier(names[j]),
{
    assert forall|i: int, j: int|
        0 <= i < names.len() && 0 <= j < names.len() && i != j implies storage_identifier(
        #[trigger] names[i],
    ) != storage_identifier(#[trigger] names[j]) by {
        lemma_suffix_keeps_apart(upper_of(names[i]), upper_of(names[j]), provider_suffix());
    }
    assert forall|i: int, j: int|
        0 <= i < names.len() && 0 <= j < names.len() && i != j && lower_of(
            storage_identifier(#[trigger] names[i]),
        ) != lower_of(storage_identifier(#[trigger] names[j])) implies accessor_identifier(
        names[i],
    ) != accessor_identifier(names[j]) by {
        lemma_prefix_keeps_apart(
            accessor_prefix(),
            lower_of(storage_identifier(names[i])),
            lower_of(storage_identifier(names[j])),
        );
    }
}

} // verus!
