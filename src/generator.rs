//! Renders the per-network fragments and assembles them into one unit: a
//! fixed header, a container block holding every storage declaration, then
//! every accessor function.
use crate::code::Code;
use crate::decimal::{decimal, render_decimal};
use crate::naming::{
    accessor_identifier, network_provider_fn_name, network_provider_name, storage_identifier,
};
use crate::network::Network;
use vstd::prelude::*;

verus! {

/// Warning comment, imports, and the opening of the container block.
pub const HEADER: &'static str = "
            /// THIS IS A GENERATED FILE. DO NOT MODIFY MANUALLY.
            ///
            /// This file was auto generated by rindexer - https://github.com/joshstevens19/rindexer.
            /// Any manual changes to this file will be overwritten.
            
            use ethers::providers::{Provider, Http, RetryClient};
            use rindexer_core::lazy_static;
            use rindexer_core::provider::create_retry_client;
            use std::sync::Arc;

            lazy_static! {
        ";

/// Closing delimiter of the container block.
pub const CONTAINER_CLOSE: &'static str = "}";

/// Text of a storage declaration before its storage identifier.
pub const DECLARATION_OPEN: &'static str = "
            static ref ";

/// Text between the storage identifier and the URL.
pub const DECLARATION_TYPE: &'static str = ": Arc<Provider<RetryClient<Http>>> = create_retry_client(\"";

/// Text between the URL and the rate-limit hint.
pub const DECLARATION_URL_END: &'static str = "\", ";

/// Text of a storage declaration after its rate-limit hint.
pub const DECLARATION_CLOSE: &'static str = ").expect(\"Error creating provider\");
        ";

/// Text of an accessor function before its accessor identifier.
pub const ACCESSOR_OPEN: &'static str = "
            pub fn ";

/// Text between the accessor identifier and the storage identifier.
pub const ACCESSOR_SIGNATURE: &'static str = "() -> Arc<Provider<RetryClient<Http>>> {
                ";

/// Text of an accessor function after the storage identifier.
pub const ACCESSOR_CLOSE: &'static str = ".clone()
            }
        ";

/// Opening of the marker of a present rate-limit hint.
pub const RATE_PRESENT_OPEN: &'static str = "Some(";

/// Closing of the marker of a present rate-limit hint.
pub const RATE_PRESENT_CLOSE: &'static str = ")";

/// Marker of an absent rate-limit hint.
pub const RATE_ABSENT: &'static str = "None";

/// How the rate-limit hint reads in a storage declaration.
pub open spec fn rate_limit_text(cups: Option<u64>) -> Seq<char> {
    match cups {
        Some(v) => RATE_PRESENT_OPEN@ + decimal(v as nat) + RATE_PRESENT_CLOSE@,
        None => RATE_ABSENT@,
    }
}

/// Everything of a storage declaration that comes before its rate-limit hint.
pub open spec fn declaration_head(n: Network) -> Seq<char> {
    DECLARATION_OPEN@ + storage_identifier(n.name@) + DECLARATION_TYPE@ + n.url@
        + DECLARATION_URL_END@
}

/// The storage declaration of the shared handle of `n`.
pub open spec fn storage_declaration(n: Network) -> Seq<char> {
    declaration_head(n) + rate_limit_text(n.compute_units_per_second) + DECLARATION_CLOSE@
}

/// The accessor function of `n`, returning a clone of its shared handle.
pub open spec fn accessor_function(n: Network) -> Seq<char> {
    ACCESSOR_OPEN@ + accessor_identifier(n.name@) + ACCESSOR_SIGNATURE@ + storage_identifier(
        n.name@,
    ) + ACCESSOR_CLOSE@
}

/// The storage declarations of `ns`, one per network.
pub open spec fn declaration_parts(ns: Seq<Network>) -> Seq<Seq<char>> {
    ns.map_values(|n: Network| storage_declaration(n))
}

/// The accessor functions of `ns`, one per network.
pub open spec fn accessor_parts(ns: Seq<Network>) -> Seq<Seq<char>> {
    ns.map_values(|n: Network| accessor_function(n))
}

/// The whole unit emitted for `ns`.
pub open spec fn networks_code(ns: Seq<Network>) -> Seq<char> {
    HEADER@ + declaration_parts(ns).flatten() + CONTAINER_CLOSE@ + accessor_parts(ns).flatten()
}

/// Renders the rate-limit hint.
pub fn rate_limit_code(cups: Option<u64>) -> (r: String)
    ensures
        r@ == rate_limit_text(cups),
{
    match cups {
        Some(v) => {
            let mut r = String::from_str(RATE_PRESENT_OPEN);
            let digits = render_decimal(v);
            r.append(digits.as_str());
            r.append(RATE_PRESENT_CLOSE);
            r
        },
        None => String::from_str(RATE_ABSENT),
    }
}

/// The storage declaration of `network`.
pub fn generate_network_lazy_provider_code(network: &Network) -> (r: Code)
    ensures
        r@ == storage_declaration(*network),
{
    let name = network_provider_name(network);
    let rate = rate_limit_code(network.compute_units_per_second);
    let mut text = String::from_str(DECLARATION_OPEN);
    text.append(name.as_str());
    text.append(DECLARATION_TYPE);
    text.append(network.url.as_str());
    text.append(DECLARATION_URL_END);
    text.append(rate.as_str());
    text.append(DECLARATION_CLOSE);
    Code::new(text)
}

/// The accessor function of `network`.
pub fn generate_network_provider_code(network: &Network) -> (r: Code)
    ensures
        r@ == accessor_function(*network),
{
    let fn_name = network_provider_fn_name(network);
    let name = network_provider_name(network);
    let mut text = String::from_str(ACCESSOR_OPEN);
    text.append(fn_name.as_str());
    text.append(ACCESSOR_SIGNATURE);
    text.append(name.as_str());
    text.append(ACCESSOR_CLOSE);
    Code::new(text)
}

/// The whole unit for `networks`: the header, the storage declarations in
/// input order, the closing of their block, then the accessor functions in
/// input order.
pub fn generate_networks_code(networks: &[Network]) -> (r: Code)
    ensures
        r@ == networks_code(networks@),
{
    let mut output = Code::new(String::from_str(HEADER));
    let n = networks.len();
    let mut i: usize = 0;
    while i < n
        invariant
            n == networks@.len(),
            i <= n,
            output@ == HEADER@ + declaration_parts(networks@.take(i as int)).flatten(),
        decreases n - i,
    {
        let part = generate_network_lazy_provider_code(&networks[i]);
        output.push_str(&part);
        proof {
            assert(declaration_parts(networks@.take(i + 1)) =~= declaration_parts(
                networks@.take(i as int),
            ).push(part@));
            declaration_parts(networks@.take(i as int)).lemma_flatten_push(part@);
        }
        i = i + 1;
    }
    assert(networks@.take(n as int) =~= networks@);
    output.push_str(&Code::new(String::from_str(CONTAINER_CLOSE)));
    let ghost middle = output@;
    let mut j: usize = 0;
    while j < n
        invariant
            n == networks@.len(),
            j <= n,
            output@ == middle + accessor_parts(networks@.take(j as int)).flatten(),
        decreases n - j,
    {
        let part = generate_network_provider_code(&networks[j]);
        output.push_str(&part);
        proof {
            assert(accessor_parts(networks@.take(j + 1)) =~= accessor_parts(
                networks@.take(j as int),
            ).push(part@));
            accessor_parts(networks@.take(j as int)).lemma_flatten_push(part@);
        }
        j = j + 1;
    }
    output
}

} // verus!
