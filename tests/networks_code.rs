use network_bindings::code::Code;
use network_bindings::decimal::render_decimal;
use network_bindings::generator::{
    generate_network_lazy_provider_code, generate_network_provider_code, generate_networks_code,
    rate_limit_code, HEADER,
};
use network_bindings::naming::{
    network_provider_fn_name, network_provider_fn_name_by_name, network_provider_name,
    network_provider_name_from_name, provider_fn_name_from_lower, provider_name_from_upper,
};
use network_bindings::network::Network;

fn network(name: &str, url: &str, cups: Option<u64>) -> Network {
    Network::new(name.to_string(), url.to_string(), cups)
}

fn declaration(storage: &str, url: &str, rate: &str) -> String {
    format!(
        "\n            static ref {storage}: Arc<Provider<RetryClient<Http>>> = create_retry_client(\"{url}\", {rate}).expect(\"Error creating provider\");\n        "
    )
}

fn accessor(fn_name: &str, storage: &str) -> String {
    format!(
        "\n            pub fn {fn_name}() -> Arc<Provider<RetryClient<Http>>> {{\n                {storage}.clone()\n            }}\n        "
    )
}

#[test]
fn storage_identifier_upper_cases_and_appends_marker() {
    assert_eq!(network_provider_name_from_name("Ethereum"), "ETHEREUM_PROVIDER");
    assert_eq!(network_provider_name_from_name("base-sepolia"), "BASE-SEPOLIA_PROVIDER");
}

#[test]
fn accessor_identifier_lower_cases_and_prefixes() {
    assert_eq!(network_provider_fn_name_by_name("Ethereum"), "get_ethereum_provider");
    assert_eq!(network_provider_fn_name_by_name("polygon"), "get_polygon_provider");
}

#[test]
fn identifiers_from_network_match_identifiers_from_name() {
    let n = network("Arbitrum", "https://arb.example", Some(5));
    assert_eq!(network_provider_name(&n), "ARBITRUM_PROVIDER");
    assert_eq!(network_provider_fn_name(&n), "get_arbitrum_provider");
    assert_eq!(network_provider_fn_name(&n), network_provider_fn_name_by_name("Arbitrum"));
}

#[test]
fn identifier_pieces_from_folded_text() {
    assert_eq!(provider_name_from_upper("OPTIMISM"), "OPTIMISM_PROVIDER");
    assert_eq!(provider_fn_name_from_lower("optimism_provider"), "get_optimism_provider");
}

#[test]
fn case_insensitively_distinct_names_give_distinct_identifiers() {
    let names = ["Ethereum", "Polygon", "Base", "ethereum2"];
    for (i, a) in names.iter().enumerate() {
        for (j, b) in names.iter().enumerate() {
            if i != j {
                assert_ne!(network_provider_name_from_name(a), network_provider_name_from_name(b));
                assert_ne!(
                    network_provider_fn_name_by_name(a),
                    network_provider_fn_name_by_name(b)
                );
            }
        }
    }
}

#[test]
fn names_differing_only_in_case_collide() {
    assert_eq!(network_provider_name_from_name("Eth"), network_provider_name_from_name("ETH"));
}

#[test]
fn decimal_rendering() {
    assert_eq!(render_decimal(0), "0");
    assert_eq!(render_decimal(7), "7");
    assert_eq!(render_decimal(10), "10");
    assert_eq!(render_decimal(660), "660");
    assert_eq!(render_decimal(u64::MAX), "18446744073709551615");
}

#[test]
fn rate_limit_markers() {
    assert_eq!(rate_limit_code(None), "None");
    assert_eq!(rate_limit_code(Some(0)), "Some(0)");
    assert_eq!(rate_limit_code(Some(330)), "Some(330)");
    assert_eq!(rate_limit_code(Some(u64::MAX)), "Some(18446744073709551615)");
}

#[test]
fn absent_rate_limit_emits_no_number() {
    let code = generate_network_lazy_provider_code(&network("Ethereum", "https://eth.example/rpc", None));
    assert_eq!(code.as_str(), declaration("ETHEREUM_PROVIDER", "https://eth.example/rpc", "None"));
    let rate = code.as_str().split("create_retry_client(").nth(1).unwrap();
    assert!(!rate.chars().any(|c| c.is_ascii_digit()));
}

#[test]
fn present_rate_limit_emits_exact_value() {
    let code = generate_network_lazy_provider_code(&network("Polygon", "https://poly.example", Some(1234)));
    assert_eq!(code.as_str(), declaration("POLYGON_PROVIDER", "https://poly.example", "Some(1234)"));
    assert!(code.as_str().contains("\"https://poly.example\", Some(1234))"));
}

#[test]
fn accessor_function_fragment() {
    let code = generate_network_provider_code(&network("Polygon", "https://poly.example", None));
    assert_eq!(code.as_str(), accessor("get_polygon_provider", "POLYGON_PROVIDER"));
}

#[test]
fn empty_input_gives_header_and_empty_block() {
    let first = generate_networks_code(&[]);
    let second = generate_networks_code(&[]);
    assert_eq!(first.as_str(), format!("{HEADER}}}"));
    assert_eq!(first.as_str(), second.as_str());
    assert!(!first.as_str().contains("pub fn"));
    assert!(!first.as_str().contains("static ref"));
}

#[test]
fn assembly_is_deterministic() {
    let networks = vec![
        network("Ethereum", "https://eth.example/rpc", Some(660)),
        network("Base", "https://base.example", None),
    ];
    let first = generate_networks_code(&networks);
    let second = generate_networks_code(&networks.clone());
    assert_eq!(first.as_str(), second.as_str());
}

#[test]
fn single_network_scenario() {
    let networks = vec![network("Ethereum", "https://eth.example/rpc", None)];
    assert_eq!(network_provider_name(&networks[0]), "ETHEREUM_PROVIDER");
    assert_eq!(network_provider_fn_name(&networks[0]), "get_ethereum_provider");
    let out = generate_networks_code(&networks).into_string();
    let decl = declaration("ETHEREUM_PROVIDER", "https://eth.example/rpc", "None");
    let func = accessor("get_ethereum_provider", "ETHEREUM_PROVIDER");
    assert!(decl.contains("https://eth.example/rpc"));
    assert!(func.contains("ETHEREUM_PROVIDER.clone()"));
    assert_eq!(out, format!("{HEADER}{decl}}}{func}"));
    assert!(out.find(&decl).unwrap() < out.find(&func).unwrap());
}

#[test]
fn two_network_scenario() {
    let networks = vec![
        network("A", "https://a.example", None),
        network("B", "https://b.example", Some(25)),
    ];
    let out = generate_networks_code(&networks).into_string();
    let decl_a = declaration("A_PROVIDER", "https://a.example", "None");
    let decl_b = declaration("B_PROVIDER", "https://b.example", "Some(25)");
    let fn_a = accessor("get_a_provider", "A_PROVIDER");
    let fn_b = accessor("get_b_provider", "B_PROVIDER");
    assert_eq!(out, format!("{HEADER}{decl_a}{decl_b}}}{fn_a}{fn_b}"));
    assert_eq!(out.matches("static ref").count(), 2);
    assert_eq!(out.matches("pub fn").count(), 2);
    let open = out.find("lazy_static! {").unwrap();
    let close = HEADER.len() + decl_a.len() + decl_b.len();
    assert_eq!(&out[close..close + 1], "}");
    let (pa, pb) = (out.find(&decl_a).unwrap(), out.find(&decl_b).unwrap());
    let (fa, fb) = (out.find(&fn_a).unwrap(), out.find(&fn_b).unwrap());
    assert!(open < pa && pa < pb && pb + decl_b.len() <= close);
    assert!(close < fa && fa < fb);
}

#[test]
fn declarations_precede_accessors_in_input_order() {
    let networks = vec![
        network("Zeta", "https://z.example", Some(1)),
        network("Alpha", "https://a.example", None),
        network("Mu", "https://m.example", Some(99)),
    ];
    let out = generate_networks_code(&networks).into_string();
    let decls: Vec<usize> = ["ZETA_PROVIDER:", "ALPHA_PROVIDER:", "MU_PROVIDER:"]
        .iter()
        .map(|s| out.find(s).unwrap())
        .collect();
    let fns: Vec<usize> = ["get_zeta_provider()", "get_alpha_provider()", "get_mu_provider()"]
        .iter()
        .map(|s| out.find(s).unwrap())
        .collect();
    assert!(decls[0] < decls[1] && decls[1] < decls[2]);
    assert!(fns[0] < fns[1] && fns[1] < fns[2]);
    assert!(decls.iter().all(|d| fns.iter().all(|f| d < f)));
}

#[test]
fn code_appends_text() {
    let mut code = Code::new("ab".to_string());
    code.push_str(&Code::new("cd".to_string()));
    assert_eq!(code.as_str(), "abcd");
}
