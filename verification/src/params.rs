//! Parameter sets and their construction.
//!
//! Every component declares its own named parameters, each with a default.
//! A default is a constant or derives from another parameter of the same
//! component. A parameter set is built once, from the values given and the
//! defaults of the rest; a set whose defaults cannot be resolved, or whose
//! values the builders cannot work with, is rejected then, with the
//! component, the parameter and the reason.

use vstd::prelude::*;
use vstd::relations::injective_on;
use vstd::set_lib::{lemma_int_range, lemma_len_subset, lemma_map_size, set_int_range};
use crate::units::{in_range, is_in_range, lemma_quot_bound, quot};

verus! {

/// The components that have parameters of their own.
#[derive(Clone, Copy, Debug, PartialEq, Eq, Structural)]
pub enum Component {
    NazeBoard,
    DysEsc,
    BoardCamera,
    Esc,
    EscStack,
    TricopterBody,
    ServoMount,
}

/// Why a parameter set was rejected.
#[derive(Clone, Copy, Debug, PartialEq, Eq, Structural)]
pub enum Reason {
    /// The value is larger in magnitude than the builders accept.
    OutOfRange,
    /// A derived default, or a given value, names a parameter that the
    /// component does not declare.
    Undefined,
    /// The parameter's default derives from a parameter whose default
    /// derives from another, and so on without end.
    Cyclic,
    /// A derived default divides by a number that is not positive, or its
    /// factor or its addend is out of range.
    BadRule,
}

/// How a parameter gets its value when none is given.
#[derive(Clone, Copy, Debug, PartialEq, Eq, Structural)]
pub enum Rule {
    /// The default is a constant.
    Fixed(i64),
    /// The default follows the value of the parameter at position `source`:
    /// that value times `num`, divided by `den` rounding toward zero, plus
    /// `plus`.
    Derived { source: usize, num: i64, den: i64, plus: i64 },
}

/// A rejected parameter: the component, the parameter's position in the
/// component's declaration, and the reason.
#[derive(Clone, Copy, Debug, PartialEq, Eq, Structural)]
pub struct ParamError {
    pub component: Component,
    pub parameter: usize,
    pub reason: Reason,
}

/// The values of a list as unbounded integers.
pub open spec fn ints_of(values: Seq<i64>) -> Seq<int> {
    Seq::new(values.len(), |i: int| values[i] as int)
}

/// Whether position `i` holds the first value of the list that is out of
/// range.
pub open spec fn first_out_of_range(values: Seq<int>, i: int) -> bool {
    &&& 0 <= i < values.len()
    &&& !in_range(values[i])
    &&& forall|j: int| 0 <= j < i ==> in_range(#[trigger] values[j])
}

/// Checks the values of one component, in declaration order.
pub fn check_values(component: Component, values: &Vec<i64>) -> (r: Result<(), ParamError>)
    ensures
        r is Ok <==> forall|i: int| 0 <= i < values.len() ==> in_range(#[trigger] ints_of(values@)[i]),
        r matches Err(e) ==> e.component == component && e.reason == Reason::OutOfRange
            && first_out_of_range(ints_of(values@), e.parameter as int),
{
    let mut i: usize = 0;
    while i < values.len()
        invariant
            i <= values.len(),
            forall|j: int| 0 <= j < i ==> in_range(#[trigger] ints_of(values@)[j]),
        decreases values.len() - i,
    {
        if !is_in_range(values[i]) {
            assert(!in_range(ints_of(values@)[i as int]));
            return Err(ParamError { component, parameter: i, reason: Reason::OutOfRange });
        }
        i = i + 1;
    }
    Ok(())
}

/// The value given for the parameter at position `i`, if any.
pub open spec fn given_at(given: Seq<Option<i64>>, i: int) -> Option<i64> {
    if 0 <= i < given.len() {
        given[i]
    } else {
        None
    }
}

/// What a derived default makes of its source's value.
pub open spec fn derived(source_value: int, num: int, den: int, plus: int) -> int {
    quot(source_value * num, den) + plus
}

/// The value of the parameter at position `i`, or why it has none, when the
/// chain of derived defaults that leads to it may be `fuel` links long.
///
/// A given value stands for itself and ends the chain. With as much fuel as
/// there are parameters, running out of fuel means that the chain runs in a
/// circle (see [`lemma_cyclic_is_a_circle`]).
pub open spec fn outcome(
    rules: Seq<Rule>,
    given: Seq<Option<i64>>,
    i: int,
    fuel: nat,
) -> Result<int, Reason>
    decreases fuel,
{
    if !(0 <= i < rules.len()) {
        Err(Reason::Undefined)
    } else if let Some(v) = given_at(given, i) {
        if in_range(v as int) {
            Ok(v as int)
        } else {
            Err(Reason::OutOfRange)
        }
    } else {
        match rules[i] {
            Rule::Fixed(v) => if in_range(v as int) {
                Ok(v as int)
            } else {
                Err(Reason::OutOfRange)
            },
            Rule::Derived { source, num, den, plus } => {
                if den <= 0 || !in_range(num as int) || !in_range(plus as int) {
                    Err(Reason::BadRule)
                } else if fuel == 0 {
                    Err(Reason::Cyclic)
                } else {
                    match outcome(rules, given, source as int, (fuel - 1) as nat) {
                        Err(reason) => Err(reason),
                        Ok(s) => if in_range(derived(s, num as int, den as int, plus as int)) {
                            Ok(derived(s, num as int, den as int, plus as int))
                        } else {
                            Err(Reason::OutOfRange)
                        },
                    }
                }
            },
        }
    }
}

/// The outcome for a parameter with as much fuel as there are parameters.
pub open spec fn resolved(rules: Seq<Rule>, given: Seq<Option<i64>>, i: int) -> Result<int, Reason> {
    outcome(rules, given, i, rules.len())
}

/// Whether `(i, reason)` is the first fault of a parameter set: the first
/// declared parameter without a value, or, if all have one, the first value
/// given for a parameter that is not declared.
pub open spec fn first_fault(
    rules: Seq<Rule>,
    given: Seq<Option<i64>>,
    i: int,
    reason: Reason,
) -> bool {
    if 0 <= i < rules.len() {
        &&& resolved(rules, given, i) == Err::<int, Reason>(reason)
        &&& forall|j: int| 0 <= j < i ==> (#[trigger] resolved(rules, given, j)) is Ok
    } else {
        &&& rules.len() <= i < given.len()
        &&& given[i] is Some
        &&& reason == Reason::Undefined
        &&& forall|j: int| 0 <= j < rules.len() ==> (#[trigger] resolved(rules, given, j)) is Ok
        &&& forall|k: int| rules.len() <= k < i ==> (#[trigger] given[k]) is None
    }
}

/// Whether a parameter set has no fault.
pub open spec fn consistent(rules: Seq<Rule>, given: Seq<Option<i64>>) -> bool {
    &&& forall|j: int| 0 <= j < rules.len() ==> (#[trigger] resolved(rules, given, j)) is Ok
    &&& forall|k: int| rules.len() <= k < given.len() ==> (#[trigger] given[k]) is None
}

/// Whether the parameter at position `j` takes a derived default: it is
/// declared, no value is given for it, and its rule derives soundly.
pub open spec fn derives(rules: Seq<Rule>, given: Seq<Option<i64>>, j: int) -> bool {
    &&& 0 <= j < rules.len()
    &&& given_at(given, j) is None
    &&& rules[j] matches Rule::Derived { source, num, den, plus }
    &&& den > 0
    &&& in_range(num as int)
    &&& in_range(plus as int)
}

/// The parameter that the default of the parameter at `j` derives from.
pub open spec fn source_of(rules: Seq<Rule>, j: int) -> int {
    if 0 <= j < rules.len() {
        match rules[j] {
            Rule::Derived { source, .. } => source as int,
            Rule::Fixed(_) => j,
        }
    } else {
        j
    }
}

/// The parameter reached from `i` by following `k` derived defaults to
/// their sources.
pub open spec fn link(rules: Seq<Rule>, i: int, k: nat) -> int
    decreases k,
{
    if k == 0 {
        i
    } else {
        source_of(rules, link(rules, i, (k - 1) as nat))
    }
}

/// Whether each of the first `count` parameters on the chain from `i`
/// takes a derived default.
pub open spec fn chain_derives(
    rules: Seq<Rule>,
    given: Seq<Option<i64>>,
    i: int,
    count: nat,
) -> bool {
    forall|k: nat| k < count ==> derives(rules, given, #[trigger] link(rules, i, k))
}

/// Whether the chain of derived defaults from `i` runs in a circle: it
/// passes some parameter twice, and derives all the way there.
pub open spec fn runs_in_a_circle(rules: Seq<Rule>, given: Seq<Option<i64>>, i: int) -> bool {
    exists|a: nat, b: nat|
        a < b <= rules.len() && #[trigger] link(rules, i, a) == #[trigger] link(rules, i, b)
            && chain_derives(rules, given, i, b)
}

/// Following `k` links from the source of `i` is following `k + 1` from `i`.
pub proof fn lemma_link_shift(rules: Seq<Rule>, i: int, k: nat)
    ensures
        link(rules, source_of(rules, i), k) == link(rules, i, k + 1),
    decreases k,
{
    if k == 0 {
        assert(link(rules, i, 0) == i);
        assert(link(rules, i, 1) == source_of(rules, link(rules, i, 0)));
    } else {
        lemma_link_shift(rules, i, (k - 1) as nat);
        assert(link(rules, i, k + 1) == source_of(rules, link(rules, i, k)));
    }
}

/// A parameter is rejected as cyclic with `fuel` links allowed exactly when
/// the chain from it derives `fuel + 1` times in a row.
pub proof fn lemma_cyclic_means_chain_derives(
    rules: Seq<Rule>,
    given: Seq<Option<i64>>,
    i: int,
    fuel: nat,
)
    ensures
        (outcome(rules, given, i, fuel) == Err::<int, Reason>(Reason::Cyclic)) == chain_derives(
            rules,
            given,
            i,
            fuel + 1,
        ),
    decreases fuel,
{
    assert(link(rules, i, 0) == i);
    if !derives(rules, given, i) {
        assert(!derives(rules, given, link(rules, i, 0)));
    } else if fuel == 0 {
        assert forall|k: nat| k < 1 implies derives(rules, given, #[trigger] link(rules, i, k)) by {
            assert(k == 0);
        }
    } else {
        let next = source_of(rules, i);
        let less = (fuel - 1) as nat;
        lemma_cyclic_means_chain_derives(rules, given, next, less);
        if chain_derives(rules, given, next, fuel) {
            assert forall|k: nat| k < fuel + 1 implies derives(
                rules,
                given,
                #[trigger] link(rules, i, k),
            ) by {
                if k > 0 {
                    lemma_link_shift(rules, i, (k - 1) as nat);
                    assert(derives(rules, given, link(rules, next, (k - 1) as nat)));
                }
            }
        }
        if chain_derives(rules, given, i, fuel + 1) {
            assert forall|k: nat| k < fuel implies derives(
                rules,
                given,
                #[trigger] link(rules, next, k),
            ) by {
                lemma_link_shift(rules, i, k);
                assert(derives(rules, given, link(rules, i, k + 1)));
            }
        }
    }
}

/// Among `n + 1` parameters that are all declared, one occurs twice.
proof fn lemma_pigeonhole(f: spec_fn(int) -> int, n: nat)
    requires
        forall|k: int| 0 <= k <= n ==> 0 <= #[trigger] f(k) < n,
    ensures
        exists|a: int, b: int| 0 <= a < b <= n && #[trigger] f(a) == #[trigger] f(b),
{
    let domain = set_int_range(0, n as int + 1);
    let image = domain.map(f);
    lemma_int_range(0, n as int + 1);
    lemma_int_range(0, n as int);
    if injective_on(f, domain) {
        lemma_map_size(domain, image, f);
        assert(image.subset_of(set_int_range(0, n as int))) by {
            assert forall|y: int| image.contains(y) implies set_int_range(0, n as int).contains(
                y,
            ) by {
                let x = choose|x: int| domain.contains(x) && y == f(x);
                assert(0 <= f(x) < n);
            }
        }
        lemma_len_subset(image, set_int_range(0, n as int));
        assert(false);
    } else {
        let (x1, x2) = choose|x1: int, x2: int|
            domain.contains(x1) && domain.contains(x2) && #[trigger] f(x1) == #[trigger] f(x2)
                && x1 != x2;
        if x1 < x2 {
            assert(0 <= x1 < x2 <= n && f(x1) == f(x2));
        } else {
            assert(0 <= x2 < x1 <= n && f(x2) == f(x1));
        }
    }
}

/// Once a chain has passed a parameter twice, it repeats itself.
pub proof fn lemma_chain_repeats(rules: Seq<Rule>, i: int, a: nat, b: nat, m: nat)
    requires
        link(rules, i, a) == link(rules, i, b),
    ensures
        link(rules, i, a + m) == link(rules, i, b + m),
    decreases m,
{
    if m > 0 {
        lemma_chain_repeats(rules, i, a, b, (m - 1) as nat);
    }
}

/// A chain that runs in a circle derives forever.
pub proof fn lemma_circle_derives_forever(
    rules: Seq<Rule>,
    given: Seq<Option<i64>>,
    i: int,
    a: nat,
    b: nat,
    k: nat,
)
    requires
        a < b,
        link(rules, i, a) == link(rules, i, b),
        chain_derives(rules, given, i, b),
    ensures
        derives(rules, given, link(rules, i, k)),
    decreases k,
{
    if k >= b {
        let back = (k - (b - a)) as nat;
        lemma_circle_derives_forever(rules, given, i, a, b, back);
        lemma_chain_repeats(rules, i, a, b, (k - b) as nat);
        assert(a + (k - b) == back);
    }
}

/// A parameter is rejected as cyclic exactly when the chain of derived
/// defaults that leads to its value runs in a circle.
pub proof fn lemma_cyclic_is_a_circle(rules: Seq<Rule>, given: Seq<Option<i64>>, i: int)
    ensures
        (resolved(rules, given, i) == Err::<int, Reason>(Reason::Cyclic)) == runs_in_a_circle(
            rules,
            given,
            i,
        ),
{
    let n = rules.len();
    lemma_cyclic_means_chain_derives(rules, given, i, n);
    if chain_derives(rules, given, i, n + 1) {
        let f = |k: int| link(rules, i, k as nat);
        assert forall|k: int| 0 <= k <= n implies 0 <= #[trigger] f(k) < n by {
            assert(derives(rules, given, link(rules, i, k as nat)));
        }
        lemma_pigeonhole(f, n);
        let (a, b) = choose|a: int, b: int| 0 <= a < b <= n && #[trigger] f(a) == #[trigger] f(b);
        assert(link(rules, i, a as nat) == link(rules, i, b as nat));
        assert forall|k: nat| k < b as nat implies derives(
            rules,
            given,
            #[trigger] link(rules, i, k),
        ) by {}
        assert(chain_derives(rules, given, i, b as nat));
        assert(runs_in_a_circle(rules, given, i));
    }
    if runs_in_a_circle(rules, given, i) {
        let (a, b) = choose|a: nat, b: nat|
            a < b <= rules.len() && #[trigger] link(rules, i, a) == #[trigger] link(rules, i, b)
                && chain_derives(rules, given, i, b);
        assert forall|k: nat| k < n + 1 implies derives(
            rules,
            given,
            #[trigger] link(rules, i, k),
        ) by {
            lemma_circle_derives_forever(rules, given, i, a, b, k);
        }
    }
}

/// A value that is given and in range is the parameter's value, whatever
/// its default and whatever the defaults of others.
pub proof fn lemma_given_value_stands(
    rules: Seq<Rule>,
    given: Seq<Option<i64>>,
    i: int,
    fuel: nat,
)
    requires
        0 <= i < rules.len(),
        given_at(given, i) is Some,
        in_range(given_at(given, i).unwrap() as int),
    ensures
        outcome(rules, given, i, fuel) == Ok::<int, Reason>(given_at(given, i).unwrap() as int),
{
}

/// Where every derived default names a parameter declared before its own,
/// no parameter is rejected as undefined or cyclic.
pub proof fn lemma_backward_references_resolve(
    rules: Seq<Rule>,
    given: Seq<Option<i64>>,
    i: int,
    fuel: nat,
)
    requires
        0 <= i < rules.len(),
        i <= fuel,
        forall|j: int|
            0 <= j < rules.len() ==> ((#[trigger] rules[j]) matches Rule::Derived { source, .. }
                ==> source < j),
    ensures
        outcome(rules, given, i, fuel) != Err::<int, Reason>(Reason::Undefined),
        outcome(rules, given, i, fuel) != Err::<int, Reason>(Reason::Cyclic),
    decreases fuel,
{
    if given_at(given, i) is None {
        if let Rule::Derived { source, num, den, plus } = rules[i] {
            if !(den <= 0 || !in_range(num as int) || !in_range(plus as int)) {
                assert(source < i);
                lemma_backward_references_resolve(rules, given, source as int, (fuel - 1) as nat);
            }
        }
    }
}

/// The value of one parameter, or why it has none.
pub fn resolve_one(rules: &Vec<Rule>, given: &Vec<Option<i64>>, i: usize, fuel: usize) -> (r:
    Result<i64, Reason>)
    ensures
        r matches Ok(v) ==> in_range(v as int),
        match r {
            Ok(v) => outcome(rules@, given@, i as int, fuel as nat) == Ok::<int, Reason>(v as int),
            Err(reason) => outcome(rules@, given@, i as int, fuel as nat) == Err::<int, Reason>(
                reason,
            ),
        },
    decreases fuel,
{
    if i >= rules.len() {
        return Err(Reason::Undefined);
    }
    if i < given.len() {
        if let Some(v) = given[i] {
            if is_in_range(v) {
                return Ok(v);
            } else {
                return Err(Reason::OutOfRange);
            }
        }
    }
    match rules[i] {
        Rule::Fixed(v) => {
            if is_in_range(v) {
                Ok(v)
            } else {
                Err(Reason::OutOfRange)
            }
        },
        Rule::Derived { source, num, den, plus } => {
            if den <= 0 || !is_in_range(num) || !is_in_range(plus) {
                Err(Reason::BadRule)
            } else if fuel == 0 {
                Err(Reason::Cyclic)
            } else {
                match resolve_one(rules, given, source, fuel - 1) {
                    Err(reason) => Err(reason),
                    Ok(s) => {
                        assert(-10_000_000_000_000_000 <= s * num <= 10_000_000_000_000_000)
                            by (nonlinear_arith)
                            requires
                                -100_000_000 <= s <= 100_000_000,
                                -100_000_000 <= num <= 100_000_000,
                        ;
                        let product: i64 = s * num;
                        assert(-10_000_000_000_000_000 <= quot(product as int, den as int)
                            <= 10_000_000_000_000_000) by {
                            lemma_quot_bound(
                                product as int,
                                den as int,
                                10_000_000_000_000_000,
                            );
                        }
                        let value: i64 = product / den + plus;
                        if is_in_range(value) {
                            Ok(value)
                        } else {
                            Err(Reason::OutOfRange)
                        }
                    },
                }
            }
        },
    }
}

/// Resolves a parameter set: every declared parameter gets the value given
/// for it or else its default, derived defaults following the values they
/// derive from. The set is rejected at its first fault.
pub fn resolve(component: Component, rules: &Vec<Rule>, given: &Vec<Option<i64>>) -> (r: Result<
    Vec<i64>,
    ParamError,
>)
    ensures
        r is Ok <==> consistent(rules@, given@),
        r matches Ok(values) ==> values.len() == rules.len() && forall|i: int|
            0 <= i < rules.len() ==> in_range(#[trigger] values[i] as int) && resolved(
                rules@,
                given@,
                i,
            ) == Ok::<int, Reason>(values[i] as int),
        r matches Err(e) ==> e.component == component && first_fault(
            rules@,
            given@,
            e.parameter as int,
            e.reason,
        ),
{
    let mut values: Vec<i64> = Vec::new();
    let mut i: usize = 0;
    while i < rules.len()
        invariant
            i <= rules.len(),
            values.len() == i,
            forall|j: int|
                0 <= j < i ==> (#[trigger] resolved(rules@, given@, j)) == Ok::<int, Reason>(
                    values[j] as int,
                ),
            forall|j: int| 0 <= j < i ==> in_range(#[trigger] values[j] as int),
        decreases rules.len() - i,
    {
        match resolve_one(rules, given, i, rules.len()) {
            Ok(v) => {
                values.push(v);
            },
            Err(reason) => {
                assert(resolved(rules@, given@, i as int) == Err::<int, Reason>(reason));
                assert(first_fault(rules@, given@, i as int, reason));
                return Err(ParamError { component, parameter: i, reason });
            },
        }
        i = i + 1;
    }
    let mut k: usize = rules.len();
    while k < given.len()
        invariant
            rules.len() <= k,
            k <= given.len() || given.len() < rules.len(),
            values.len() == rules.len(),
            forall|j: int|
                0 <= j < rules.len() ==> (#[trigger] resolved(rules@, given@, j)) == Ok::<
                    int,
                    Reason,
                >(values[j] as int),
            forall|j: int| 0 <= j < rules.len() ==> in_range(#[trigger] values[j] as int),
            forall|j: int| rules.len() <= j < k && j < given.len() ==> (#[trigger] given[j]) is None,
        decreases given.len() - k,
    {
        if given[k].is_some() {
            return Err(ParamError { component, parameter: k, reason: Reason::Undefined });
        }
        k = k + 1;
    }
    Ok(values)
}

/// The names of a component's parameters, in declaration order.
pub open spec fn parameter_names(component: Component) -> Seq<Seq<char>> {
    match component {
        Component::NazeBoard => seq![
            "hole_diameter"@,
            "hole_distance"@,
            "hole_padding_radius"@,
        ],
        Component::DysEsc => seq![
            "x_length"@,
            "y_length"@,
            "extension_width"@,
        ],
        Component::BoardCamera => seq![
            "width"@,
            "thickness"@,
            "lens_diameter"@,
            "lens_length"@,
            "snowproof_padding_radius"@,
        ],
        Component::Esc => seq![
            "width"@,
            "length"@,
            "thickness"@,
        ],
        Component::EscStack => seq![
            "layer_thickness"@,
            "esc.width"@,
            "esc.length"@,
            "esc.thickness"@,
            "screw_padding"@,
        ],
        Component::TricopterBody => seq![
            "radius"@,
            "top_height"@,
            "height"@,
            "outer_width"@,
            "back_outer_width"@,
            "inner_width"@,
            "center_width"@,
            "back_block_length_factor"@,
            "arm_width"@,
            "front_block_x"@,
            "front_section_width"@,
            "front_section_length"@,
            "front_section_corner_radius"@,
            "canopy_thickness"@,
            "edge_thickness"@,
            "edge_padding"@,
            "edge_height"@,
            "camera_box_length"@,
            "camera_box_edge_width"@,
            "camera_box_edge_padding"@,
            "motor_wire_hole_radius"@,
            "camera_offset_from_top"@,
            "mounting_screw_outline_radius"@,
            "canopy_max_height"@,
            "screw_mount_height"@,
            "canopy_bottom_min_height"@,
            "screwhead_diameter"@,
            "side_plate_arc_width"@,
            "side_plate_arc_height"@,
            "side_plate_thickness"@,
            "side_plate_mount_length"@,
            "side_plate_front_screw_top_offset"@,
        ],
        Component::ServoMount => seq![
            "servo_width"@,
            "servo_depth"@,
            "servo_height"@,
            "servo_tab_height"@,
            "boom_width"@,
            "side_thickness"@,
            "prop_clearance"@,
            "top_offset"@,
        ],
    }
}

/// The name of a component's parameter, by its position in the declaration.
pub fn parameter_name(component: Component, parameter: usize) -> (r: Option<&'static str>)
    ensures
        match r {
            Some(name) => parameter < parameter_names(component).len() && name@
                == parameter_names(component)[parameter as int],
            None => parameter >= parameter_names(component).len(),
        },
{
    match component {
        Component::NazeBoard => match parameter {
            0 => Some("hole_diameter"),
            1 => Some("hole_distance"),
            2 => Some("hole_padding_radius"),
            _ => None,
        },
        Component::DysEsc => match parameter {
            0 => Some("x_length"),
            1 => Some("y_length"),
            2 => Some("extension_width"),
            _ => None,
        },
        Component::BoardCamera => match parameter {
            0 => Some("width"),
            1 => Some("thickness"),
            2 => Some("lens_diameter"),
            3 => Some("lens_length"),
            4 => Some("snowproof_padding_radius"),
            _ => None,
        },
        Component::Esc => match parameter {
            0 => Some("width"),
            1 => Some("length"),
            2 => Some("thickness"),
            _ => None,
        },
        Component::EscStack => match parameter {
            0 => Some("layer_thickness"),
            1 => Some("esc.width"),
            2 => Some("esc.length"),
            3 => Some("esc.thickness"),
            4 => Some("screw_padding"),
            _ => None,
        },
        Component::TricopterBody => match parameter {
            0 => Some("radius"),
            1 => Some("top_height"),
            2 => Some("height"),
            3 => Some("outer_width"),
            4 => Some("back_outer_width"),
            5 => Some("inner_width"),
            6 => Some("center_width"),
            7 => Some("back_block_length_factor"),
            8 => Some("arm_width"),
            9 => Some("front_block_x"),
            10 => Some("front_section_width"),
            11 => Some("front_section_length"),
            12 => Some("front_section_corner_radius"),
            13 => Some("canopy_thickness"),
            14 => Some("edge_thickness"),
            15 => Some("edge_padding"),
            16 => Some("edge_height"),
            17 => Some("camera_box_length"),
            18 => Some("camera_box_edge_width"),
            19 => Some("camera_box_edge_padding"),
            20 => Some("motor_wire_hole_radius"),
            21 => Some("camera_offset_from_top"),
            22 => Some("mounting_screw_outline_radius"),
            23 => Some("canopy_max_height"),
            24 => Some("screw_mount_height"),
            25 => Some("canopy_bottom_min_height"),
            26 => Some("screwhead_diameter"),
            27 => Some("side_plate_arc_width"),
            28 => Some("side_plate_arc_height"),
            29 => Some("side_plate_thickness"),
            30 => Some("side_plate_mount_length"),
            31 => Some("side_plate_front_screw_top_offset"),
            _ => None,
        },
        Component::ServoMount => match parameter {
            0 => Some("servo_width"),
            1 => Some("servo_depth"),
            2 => Some("servo_height"),
            3 => Some("servo_tab_height"),
            4 => Some("boom_width"),
            5 => Some("side_thickness"),
            6 => Some("prop_clearance"),
            7 => Some("top_offset"),
            _ => None,
        },
    }
}

impl ParamError {
    /// The name of the parameter at fault.
    pub fn name(&self) -> (r: Option<&'static str>)
        ensures
            match r {
                Some(name) => self.parameter < parameter_names(self.component).len() && name@
                    == parameter_names(self.component)[self.parameter as int],
                None => self.parameter >= parameter_names(self.component).len(),
            },
    {
        parameter_name(self.component, self.parameter)
    }
}

} // verus!
