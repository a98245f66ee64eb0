//! Facts about the assembled unit: what it depends on, and where each
//! fragment stands in it.
use crate::decimal::{all_digits, decimal, digits_value, is_digit, lemma_decimal_reads_back};
use crate::generator::{
    accessor_function, accessor_parts, declaration_head, declaration_parts, networks_code,
    rate_limit_text, storage_declaration, CONTAINER_CLOSE, DECLARATION_CLOSE, HEADER,
    RATE_ABSENT, RATE_PRESENT_CLOSE, RATE_PRESENT_OPEN,
};
use crate::network::Network;
use vstd::prelude::*;
use vstd::seq_lib::lemma_flatten_concat;

verus! {

/// Whether two networks carry the same name, URL and rate-limit hint.
pub open spec fn same_content(a: Network, b: Network) -> bool {
    &&& a.name@ == b.name@
    &&& a.url@ == b.url@
    &&& a.compute_units_per_second == b.compute_units_per_second
}

/// Length of the first `i` parts of `p`, flattened.
pub open spec fn prefix_len(p: Seq<Seq<char>>, i: int) -> int {
    p.take(i).flatten().len() as int
}

/// Where the storage declaration of the `i`-th network starts in the unit.
pub open spec fn declaration_start(ns: Seq<Network>, i: int) -> int {
    HEADER@.len() + prefix_len(declaration_parts(ns), i)
}

/// Where the closing delimiter of the container block stands in the unit.
pub open spec fn container_close_at(ns: Seq<Network>) -> int {
    HEADER@.len() + declaration_parts(ns).flatten().len() as int
}

/// Where the accessor function of the `i`-th network starts in the unit.
pub open spec fn accessor_start(ns: Seq<Network>, i: int) -> int {
    container_close_at(ns) + 1 + prefix_len(accessor_parts(ns), i)
}

/// The unit depends on the networks' content alone: two input sequences that
/// carry the same names, URLs and hints, in the same order, give the same text.
pub proof fn lemma_assembly_is_deterministic(a: Seq<Network>, b: Seq<Network>)
    requires
        a.len() == b.len(),
        forall|i: int| 0 <= i < a.len() ==> same_content(#[trigger] a[i], b[i]),
    ensures
        networks_code(a) == networks_code(b),
{
    assert(declaration_parts(a) =~= declaration_parts(b));
    assert(accessor_parts(a) =~= accessor_parts(b));
}

/// With no network, the unit is the header followed at once by the closing
/// of the container block: no declaration and no accessor function.
pub proof fn lemma_empty_input()
    ensures
        networks_code(Seq::empty()) == HEADER@ + CONTAINER_CLOSE@,
{
    assert(declaration_parts(Seq::empty()) =~= Seq::<Seq<char>>::empty());
    assert(accessor_parts(Seq::empty()) =~= Seq::<Seq<char>>::empty());
    assert(HEADER@ + Seq::<char>::empty() + CONTAINER_CLOSE@ + Seq::<char>::empty()
        =~= HEADER@ + CONTAINER_CLOSE@);
}

/// The `i`-th part of `p`, flattened, stands between the parts before it and
/// the parts after it.
proof fn lemma_flatten_split(p: Seq<Seq<char>>, i: int)
    requires
        0 <= i < p.len(),
    ensures
        p.take(i + 1).flatten() == p.take(i).flatten() + p[i],
        p.flatten() == p.take(i + 1).flatten() + p.skip(i + 1).flatten(),
{
    assert(p.take(i + 1) =~= p.take(i).push(p[i]));
    p.take(i).lemma_flatten_push(p[i]);
    assert(p =~= p.take(i + 1) + p.skip(i + 1));
    lemma_flatten_concat(p.take(i + 1), p.skip(i + 1));
}

/// A longer prefix of `p` flattens to a text at least as long.
proof fn lemma_flatten_prefix_len(p: Seq<Seq<char>>, i: int, j: int)
    requires
        0 <= i <= j <= p.len(),
    ensures
        p.take(i).flatten().len() <= p.take(j).flatten().len(),
{
    assert(p.take(j) =~= p.take(i) + p.subrange(i, j));
    lemma_flatten_concat(p.take(i), p.subrange(i, j));
}

/// The `i`-th part of `p` stands in `p.flatten()` right after the parts
/// before it, and the parts end in the order they are given.
proof fn lemma_part_positions(p: Seq<Seq<char>>)
    ensures
        forall|i: int|
            0 <= i < p.len() ==> p.flatten().subrange(
                #[trigger] prefix_len(p, i),
                prefix_len(p, i) + p[i].len(),
            ) == p[i],
        forall|i: int|
            0 <= i < p.len() ==> #[trigger] prefix_len(p, i) + p[i].len() <= p.flatten().len(),
        forall|i: int, j: int|
            0 <= i < j < p.len() ==> #[trigger] prefix_len(p, i) + p[i].len()
                <= #[trigger] prefix_len(p, j),
{
    assert forall|i: int| 0 <= i < p.len() implies p.flatten().subrange(
        #[trigger] prefix_len(p, i),
        prefix_len(p, i) + p[i].len(),
    ) == p[i] && prefix_len(p, i) + p[i].len() <= p.flatten().len() by {
        lemma_flatten_split(p, i);
        let before = p.take(i).flatten();
        let after = p.skip(i + 1).flatten();
        assert(p.flatten() =~= before + p[i] + after);
        assert(p.flatten().subrange(prefix_len(p, i), prefix_len(p, i) + p[i].len()) =~= p[i]);
    }
    assert forall|i: int, j: int| 0 <= i < j < p.len() implies #[trigger] prefix_len(p, i)
        + p[i].len() <= #[trigger] prefix_len(p, j) by {
        lemma_flatten_split(p, i);
        lemma_flatten_prefix_len(p, i + 1, j);
    }
}

/// In the unit, the header comes first; then every storage declaration, in
/// input order, inside the container block; then the closing of the block;
/// then every accessor function, in input order. So every storage
/// declaration precedes every accessor function.
pub proof fn lemma_declarations_precede_accessors(ns: Seq<Network>)
    ensures
        networks_code(ns).take(HEADER@.len() as int) == HEADER@,
        networks_code(ns)[container_close_at(ns)] == '}',
        networks_code(ns).len() == accessor_start(ns, ns.len() as int),
        forall|i: int|
            0 <= i < ns.len() ==> networks_code(ns).subrange(
                #[trigger] declaration_start(ns, i),
                declaration_start(ns, i) + storage_declaration(ns[i]).len(),
            ) == storage_declaration(ns[i]),
        forall|i: int|
            0 <= i < ns.len() ==> networks_code(ns).subrange(
                #[trigger] accessor_start(ns, i),
                accessor_start(ns, i) + accessor_function(ns[i]).len(),
            ) == accessor_function(ns[i]),
        forall|i: int|
            0 <= i < ns.len() ==> HEADER@.len() <= #[trigger] declaration_start(ns, i),
        forall|i: int, j: int|
            0 <= i < ns.len() && 0 <= j < ns.len() ==> #[trigger] declaration_start(ns, i)
                + storage_declaration(ns[i]).len() <= container_close_at(ns) < #[trigger] accessor_start(
                ns,
                j,
            ),
        forall|i: int, j: int|
            0 <= i < j < ns.len() ==> #[trigger] declaration_start(ns, i) + storage_declaration(
                ns[i],
            ).len() <= #[trigger] declaration_start(ns, j),
        forall|i: int, j: int|
            0 <= i < j < ns.len() ==> #[trigger] accessor_start(ns, i) + accessor_function(
                ns[i],
            ).len() <= #[trigger] accessor_start(ns, j),
{
    reveal_strlit("}");
    let d = declaration_parts(ns);
    let a = accessor_parts(ns);
    let out = networks_code(ns);
    let h = HEADER@;
    let close = CONTAINER_CLOSE@;
    lemma_part_positions(d);
    lemma_part_positions(a);
    assert(a.take(a.len() as int) =~= a);
    assert(out.take(h.len() as int) =~= h);
    assert forall|i: int| 0 <= i < ns.len() implies out.subrange(
        #[trigger] declaration_start(ns, i),
        declaration_start(ns, i) + storage_declaration(ns[i]).len(),
    ) == storage_declaration(ns[i]) by {
        let s = prefix_len(d, i);
        assert(s + d[i].len() <= d.flatten().len());
        assert(out.subrange(h.len() + s, h.len() + s + d[i].len()) =~= d.flatten().subrange(
            s,
            s + d[i].len(),
        ));
    }
    assert forall|i: int| 0 <= i < ns.len() implies out.subrange(
        #[trigger] accessor_start(ns, i),
        accessor_start(ns, i) + accessor_function(ns[i]).len(),
    ) == accessor_function(ns[i]) by {
        let s = prefix_len(a, i);
        let base = h.len() + d.flatten().len() + 1;
        assert(s + a[i].len() <= a.flatten().len());
        assert(out.subrange(base + s, base + s + a[i].len()) =~= a.flatten().subrange(
            s,
            s + a[i].len(),
        ));
    }
    assert forall|i: int, j: int| 0 <= i < ns.len() && 0 <= j < ns.len() implies #[trigger] declaration_start(
        ns,
        i,
    ) + storage_declaration(ns[i]).len() <= container_close_at(ns) < #[trigger] accessor_start(
        ns,
        j,
    ) by {
        assert(prefix_len(d, i) + d[i].len() <= d.flatten().len());
    }
}

/// A storage declaration shows its rate-limit hint in one place. An absent
/// hint reads as a marker with no digit; a present value `v` reads as a marker
/// whose only digits are the decimal rendering of `v`, which reads back as `v`.
pub proof fn lemma_rate_limit_visibility(n: Network)
    ensures
        storage_declaration(n) == declaration_head(n) + rate_limit_text(
            n.compute_units_per_second,
        ) + DECLARATION_CLOSE@,
        n.compute_units_per_second is None ==> forall|i: int|
            0 <= i < rate_limit_text(n.compute_units_per_second).len() ==> !is_digit(
                #[trigger] rate_limit_text(n.compute_units_per_second)[i],
            ),
        n.compute_units_per_second matches Some(v) ==> {
            &&& rate_limit_text(n.compute_units_per_second) == RATE_PRESENT_OPEN@ + decimal(
                v as nat,
            ) + RATE_PRESENT_CLOSE@
            &&& forall|i: int|
                0 <= i < RATE_PRESENT_OPEN@.len() ==> !is_digit(#[trigger] RATE_PRESENT_OPEN@[i])
            &&& forall|i: int|
                0 <= i < RATE_PRESENT_CLOSE@.len() ==> !is_digit(
                    #[trigger] RATE_PRESENT_CLOSE@[i],
                )
            &&& all_digits(decimal(v as nat))
            &&& digits_value(decimal(v as nat)) == v
        },
{
    reveal_strlit("None");
    reveal_strlit("Some(");
    reveal_strlit(")");
    if let Some(v) = n.compute_units_per_second {
        lemma_decimal_reads_back(v as nat);
    }
}

} // verus!
