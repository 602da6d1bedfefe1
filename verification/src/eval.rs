use vstd::prelude::*;

use std::collections::HashMap;

use crate::graph::lemma_find_port_in_list;
use crate::graph::Graph;
use crate::template::MyNodeTemplate;
use crate::value::DepthaiNode;
use crate::value::EvalError;
use crate::value::MyValueType;
use crate::value::Vec2;

verus! {

broadcast use vstd::std_specs::hash::group_hash_axioms;

/// Per-evaluation memo table: the last value computed for each output port.
pub type OutputsCache = HashMap<usize, MyValueType>;

/// The recursion budget evaluation starts with: one more than the number of
/// nodes, so that any acyclic dependency chain fits and any cycle runs out.
pub open spec fn spec_eval_budget(g: Graph) -> nat {
    (g.nodes@.len() + 1) as nat
}

/// What `populate_output` returns and how it fills the cache: the value is
/// stored under the node's output port of that name and handed back.
pub open spec fn spec_populate_output(
    g: Graph,
    node: usize,
    name: Seq<char>,
    value: MyValueType,
    cache: Map<usize, MyValueType>,
) -> (Result<MyValueType, EvalError>, Map<usize, MyValueType>) {
    match g.nodes@[node as int].spec_get_output(name) {
        Some(oid) => (Ok(value), cache.insert(oid, value)),
        None => (Err(EvalError::NoSuchParameter), cache),
    }
}

/// What evaluating one named input of `node` yields, and the cache it leaves
/// behind. A wired input takes the cached upstream value, evaluating the
/// upstream node first if the cache misses; an unwired input takes its
/// inline constant.
pub open spec fn spec_eval_input(
    g: Graph,
    node: usize,
    name: Seq<char>,
    cache: Map<usize, MyValueType>,
    fuel: nat,
) -> (Result<MyValueType, EvalError>, Map<usize, MyValueType>)
    decreases fuel, 0int,
{
    match g.nodes@[node as int].spec_get_input(name) {
        None => (Err(EvalError::NoSuchParameter), cache),
        Some(input_id) => match g.spec_connection(input_id) {
            None => (Ok(g.inputs@[input_id as int].value), cache),
            Some(oid) => {
                if cache.contains_key(oid) {
                    (Ok(cache[oid]), cache)
                } else if fuel == 0 {
                    (Err(EvalError::Cycle), cache)
                } else {
                    let (r, c2) = spec_eval_node(
                        g,
                        g.outputs@[oid as int].node,
                        cache,
                        (fuel - 1) as nat,
                    );
                    match r {
                        Err(e) => (Err(e), c2),
                        Ok(_) => if c2.contains_key(oid) {
                            (Ok(c2[oid]), c2)
                        } else {
                            (Err(EvalError::OutputNotComputed), c2)
                        },
                    }
                }
            },
        },
    }
}

/// Evaluating a named input and coercing it to a scalar.
pub open spec fn spec_eval_scalar_input(
    g: Graph,
    node: usize,
    name: Seq<char>,
    cache: Map<usize, MyValueType>,
    fuel: nat,
) -> (Result<i64, EvalError>, Map<usize, MyValueType>)
    decreases fuel, 1int,
{
    let (r, c) = spec_eval_input(g, node, name, cache, fuel);
    match r {
        Err(e) => (Err(e), c),
        Ok(v) => match v.spec_to_scalar() {
            Ok(s) => (Ok(s), c),
            Err(e) => (Err(e), c),
        },
    }
}

/// Evaluating a named input and coercing it to a vector.
pub open spec fn spec_eval_vector_input(
    g: Graph,
    node: usize,
    name: Seq<char>,
    cache: Map<usize, MyValueType>,
    fuel: nat,
) -> (Result<Vec2, EvalError>, Map<usize, MyValueType>)
    decreases fuel, 1int,
{
    let (r, c) = spec_eval_input(g, node, name, cache, fuel);
    match r {
        Err(e) => (Err(e), c),
        Ok(v) => match v.spec_to_vec2() {
            Ok(w) => (Ok(w), c),
            Err(e) => (Err(e), c),
        },
    }
}

/// Evaluating a named input and coercing it to a queue.
pub open spec fn spec_eval_queue_input(
    g: Graph,
    node: usize,
    name: Seq<char>,
    cache: Map<usize, MyValueType>,
    fuel: nat,
) -> (Result<DepthaiNode, EvalError>, Map<usize, MyValueType>)
    decreases fuel, 1int,
{
    let (r, c) = spec_eval_input(g, node, name, cache, fuel);
    match r {
        Err(e) => (Err(e), c),
        Ok(v) => match v.spec_to_node() {
            Ok(q) => (Ok(q), c),
            Err(e) => (Err(e), c),
        },
    }
}

/// What evaluating `node` yields, and the cache it leaves behind. The node's
/// template picks which inputs are read and which output receives the
/// result; scalar arithmetic that leaves the representable range is an
/// `Overflow` error, and a spent budget is a `Cycle` error.
pub open spec fn spec_eval_node(
    g: Graph,
    node: usize,
    cache: Map<usize, MyValueType>,
    fuel: nat,
) -> (Result<MyValueType, EvalError>, Map<usize, MyValueType>)
    decreases fuel, 2int,
{
    if fuel == 0 {
        (Err(EvalError::Cycle), cache)
    } else {
        match g.nodes@[node as int].user_data.template {
            MyNodeTemplate::AddScalar => {
                let (ra, c1) = spec_eval_scalar_input(g, node, "A"@, cache, fuel);
                match ra {
                    Err(e) => (Err(e), c1),
                    Ok(a) => {
                        let (rb, c2) = spec_eval_scalar_input(g, node, "B"@, c1, fuel);
                        match rb {
                            Err(e) => (Err(e), c2),
                            Ok(b) => match a.checked_add(b) {
                                Some(s) => spec_populate_output(
                                    g,
                                    node,
                                    "out"@,
                                    MyValueType::Scalar { value: s },
                                    c2,
                                ),
                                None => (Err(EvalError::Overflow), c2),
                            },
                        }
                    },
                }
            },
            MyNodeTemplate::SubtractScalar => {
                let (ra, c1) = spec_eval_scalar_input(g, node, "A"@, cache, fuel);
                match ra {
                    Err(e) => (Err(e), c1),
                    Ok(a) => {
                        let (rb, c2) = spec_eval_scalar_input(g, node, "B"@, c1, fuel);
                        match rb {
                            Err(e) => (Err(e), c2),
                            Ok(b) => match a.checked_sub(b) {
                                Some(s) => spec_populate_output(
                                    g,
                                    node,
                                    "out"@,
                                    MyValueType::Scalar { value: s },
                                    c2,
                                ),
                                None => (Err(EvalError::Overflow), c2),
                            },
                        }
                    },
                }
            },
            MyNodeTemplate::VectorTimesScalar => {
                let (rs, c1) = spec_eval_scalar_input(g, node, "scalar"@, cache, fuel);
                match rs {
                    Err(e) => (Err(e), c1),
                    Ok(s) => {
                        let (rv, c2) = spec_eval_vector_input(g, node, "vector"@, c1, fuel);
                        match rv {
                            Err(e) => (Err(e), c2),
                            Ok(v) => match (v.x.checked_mul(s), v.y.checked_mul(s)) {
                                (Some(x), Some(y)) => spec_populate_output(
                                    g,
                                    node,
                                    "out"@,
                                    MyValueType::Vec2 { value: (Vec2 { x, y }) },
                                    c2,
                                ),
                                _ => (Err(EvalError::Overflow), c2),
                            },
                        }
                    },
                }
            },
            MyNodeTemplate::AddVector => {
                let (r1, c1) = spec_eval_vector_input(g, node, "v1"@, cache, fuel);
                match r1 {
                    Err(e) => (Err(e), c1),
                    Ok(v1) => {
                        let (r2, c2) = spec_eval_vector_input(g, node, "v2"@, c1, fuel);
                        match r2 {
                            Err(e) => (Err(e), c2),
                            Ok(v2) => match (v1.x.checked_add(v2.x), v1.y.checked_add(v2.y)) {
                                (Some(x), Some(y)) => spec_populate_output(
                                    g,
                                    node,
                                    "out"@,
                                    MyValueType::Vec2 { value: (Vec2 { x, y }) },
                                    c2,
                                ),
                                _ => (Err(EvalError::Overflow), c2),
                            },
                        }
                    },
                }
            },
            MyNodeTemplate::SubtractVector => {
                let (r1, c1) = spec_eval_vector_input(g, node, "v1"@, cache, fuel);
                match r1 {
                    Err(e) => (Err(e), c1),
                    Ok(v1) => {
                        let (r2, c2) = spec_eval_vector_input(g, node, "v2"@, c1, fuel);
                        match r2 {
                            Err(e) => (Err(e), c2),
                            Ok(v2) => match (v1.x.checked_sub(v2.x), v1.y.checked_sub(v2.y)) {
                                (Some(x), Some(y)) => spec_populate_output(
                                    g,
                                    node,
                                    "out"@,
                                    MyValueType::Vec2 { value: (Vec2 { x, y }) },
                                    c2,
                                ),
                                _ => (Err(EvalError::Overflow), c2),
                            },
                        }
                    },
                }
            },
            MyNodeTemplate::MakeVector => {
                let (rx, c1) = spec_eval_scalar_input(g, node, "x"@, cache, fuel);
                match rx {
                    Err(e) => (Err(e), c1),
                    Ok(x) => {
                        let (ry, c2) = spec_eval_scalar_input(g, node, "y"@, c1, fuel);
                        match ry {
                            Err(e) => (Err(e), c2),
                            Ok(y) => spec_populate_output(
                                g,
                                node,
                                "out"@,
                                MyValueType::Vec2 { value: (Vec2 { x, y }) },
                                c2,
                            ),
                        }
                    },
                }
            },
            MyNodeTemplate::MakeScalar => {
                let (rv, c1) = spec_eval_scalar_input(g, node, "value"@, cache, fuel);
                match rv {
                    Err(e) => (Err(e), c1),
                    Ok(v) => spec_populate_output(
                        g,
                        node,
                        "out"@,
                        MyValueType::Scalar { value: v },
                        c1,
                    ),
                }
            },
            MyNodeTemplate::CreateColorCamera => {
                let (rq, c1) = spec_eval_queue_input(g, node, "inputConfig"@, cache, fuel);
                match rq {
                    Err(e) => (Err(e), c1),
                    Ok(q) => spec_populate_output(g, node, "video"@, MyValueType::Queue(q), c1),
                }
            },
            MyNodeTemplate::CreateXLinkOut => {
                let (rq, c1) = spec_eval_queue_input(g, node, "in"@, cache, fuel);
                match rq {
                    Err(e) => (Err(e), c1),
                    Ok(q) => spec_populate_output(g, node, "output"@, MyValueType::Queue(q), c1),
                }
            },
            _ => {
                let (rv, c1) = spec_eval_scalar_input(g, node, "value"@, cache, fuel);
                match rv {
                    Err(e) => (Err(e), c1),
                    Ok(v) => spec_populate_output(
                        g,
                        node,
                        "out"@,
                        MyValueType::Scalar { value: v },
                        c1,
                    ),
                }
            },
        }
    }
}

/// Stores a computed output value in the cache under the output port of
/// `node_id` named `param_name`, and returns the value.
pub fn populate_output(
    graph: &Graph,
    outputs_cache: &mut OutputsCache,
    node_id: usize,
    param_name: &str,
    value: MyValueType,
) -> (r: Result<MyValueType, EvalError>)
    requires
        graph.wf(),
        node_id < graph.nodes@.len(),
    ensures
        r == spec_populate_output(
            *graph,
            node_id,
            param_name@,
            value,
            old(outputs_cache)@,
        ).0,
        final(outputs_cache)@ == spec_populate_output(
            *graph,
            node_id,
            param_name@,
            value,
            old(outputs_cache)@,
        ).1,
{
    match graph.nodes[node_id].get_output(param_name) {
        Err(e) => Err(e),
        Ok(output_id) => {
            outputs_cache.insert(output_id, value);
            Ok(value)
        },
    }
}

/// Resolves the input of `node_id` named `param_name`: reads the upstream
/// cache entry (evaluating the upstream node on a miss) when the input is
/// wired, and the inline constant otherwise.
fn evaluate_input_bounded(
    graph: &Graph,
    node_id: usize,
    param_name: &str,
    outputs_cache: &mut OutputsCache,
    fuel: usize,
) -> (r: Result<MyValueType, EvalError>)
    requires
        graph.wf(),
        node_id < graph.nodes@.len(),
        fuel >= 1,
    ensures
        r == spec_eval_input(
            *graph,
            node_id,
            param_name@,
            old(outputs_cache)@,
            fuel as nat,
        ).0,
        final(outputs_cache)@ == spec_eval_input(
            *graph,
            node_id,
            param_name@,
            old(outputs_cache)@,
            fuel as nat,
        ).1,
    decreases fuel, 0int,
{
    match graph.nodes[node_id].get_input(param_name) {
        Err(e) => Err(e),
        Ok(input_id) => {
            proof {
                lemma_find_port_in_list(graph.nodes@[node_id as int].inputs@, param_name@);
            }
            match graph.connection(input_id) {
                None => Ok(graph.inputs[input_id].value),
                Some(other_output_id) => match outputs_cache.get(&other_output_id) {
                    Some(other_value) => Ok(*other_value),
                    None => {
                        let source_node = graph.outputs[other_output_id].node;
                        match evaluate_node_bounded(graph, source_node, outputs_cache, fuel - 1) {
                            Err(e) => Err(e),
                            Ok(_) => match outputs_cache.get(&other_output_id) {
                                Some(other_value) => Ok(*other_value),
                                None => Err(EvalError::OutputNotComputed),
                            },
                        }
                    },
                },
            }
        },
    }
}

/// Resolves a named input and coerces it to a scalar.
fn evaluate_scalar_input(
    graph: &Graph,
    node_id: usize,
    param_name: &str,
    outputs_cache: &mut OutputsCache,
    fuel: usize,
) -> (r: Result<i64, EvalError>)
    requires
        graph.wf(),
        node_id < graph.nodes@.len(),
        fuel >= 1,
    ensures
        r == spec_eval_scalar_input(
            *graph,
            node_id,
            param_name@,
            old(outputs_cache)@,
            fuel as nat,
        ).0,
        final(outputs_cache)@ == spec_eval_scalar_input(
            *graph,
            node_id,
            param_name@,
            old(outputs_cache)@,
            fuel as nat,
        ).1,
    decreases fuel, 1int,
{
    match evaluate_input_bounded(graph, node_id, param_name, outputs_cache, fuel) {
        Err(e) => Err(e),
        Ok(v) => v.try_to_scalar(),
    }
}

/// Resolves a named input and coerces it to a vector.
fn evaluate_vector_input(
    graph: &Graph,
    node_id: usize,
    param_name: &str,
    outputs_cache: &mut OutputsCache,
    fuel: usize,
) -> (r: Result<Vec2, EvalError>)
    requires
        graph.wf(),
        node_id < graph.nodes@.len(),
        fuel >= 1,
    ensures
        r == spec_eval_vector_input(
            *graph,
            node_id,
            param_name@,
            old(outputs_cache)@,
            fuel as nat,
        ).0,
        final(outputs_cache)@ == spec_eval_vector_input(
            *graph,
            node_id,
            param_name@,
            old(outputs_cache)@,
            fuel as nat,
        ).1,
    decreases fuel, 1int,
{
    match evaluate_input_bounded(graph, node_id, param_name, outputs_cache, fuel) {
        Err(e) => Err(e),
        Ok(v) => v.try_to_vec2(),
    }
}

/// Resolves a named input and coerces it to a queue.
fn evaluate_queue_input(
    graph: &Graph,
    node_id: usize,
    param_name: &str,
    outputs_cache: &mut OutputsCache,
    fuel: usize,
) -> (r: Result<DepthaiNode, EvalError>)
    requires
        graph.wf(),
        node_id < graph.nodes@.len(),
        fuel >= 1,
    ensures
        r == spec_eval_queue_input(
            *graph,
            node_id,
            param_name@,
            old(outputs_cache)@,
            fuel as nat,
        ).0,
        final(outputs_cache)@ == spec_eval_queue_input(
            *graph,
            node_id,
            param_name@,
            old(outputs_cache)@,
            fuel as nat,
        ).1,
    decreases fuel, 1int,
{
    match evaluate_input_bounded(graph, node_id, param_name, outputs_cache, fuel) {
        Err(e) => Err(e),
        Ok(v) => v.try_to_node(),
    }
}

/// Reads scalars `A` and `B` and writes their sum to `out`.
fn eval_add_scalar(
    graph: &Graph,
    node_id: usize,
    outputs_cache: &mut OutputsCache,
    fuel: usize,
) -> (r: Result<MyValueType, EvalError>)
    requires
        graph.wf(),
        node_id < graph.nodes@.len(),
        fuel >= 1,
        graph.nodes@[node_id as int].user_data.template matches MyNodeTemplate::AddScalar,
    ensures
        r == spec_eval_node(*graph, node_id, old(outputs_cache)@, fuel as nat).0,
        final(outputs_cache)@ == spec_eval_node(
            *graph,
            node_id,
            old(outputs_cache)@,
            fuel as nat,
        ).1,
    decreases fuel, 2int,
{
    let a = match evaluate_scalar_input(graph, node_id, "A", outputs_cache, fuel) {
        Err(e) => {
            return Err(e);
        },
        Ok(a) => a,
    };
    let b = match evaluate_scalar_input(graph, node_id, "B", outputs_cache, fuel) {
        Err(e) => {
            return Err(e);
        },
        Ok(b) => b,
    };
    match a.checked_add(b) {
        Some(s) => populate_output(
            graph,
            outputs_cache,
            node_id,
            "out",
            MyValueType::Scalar { value: s },
        ),
        None => Err(EvalError::Overflow),
    }
}

/// Reads scalars `A` and `B` and writes their difference to `out`.
fn eval_subtract_scalar(
    graph: &Graph,
    node_id: usize,
    outputs_cache: &mut OutputsCache,
    fuel: usize,
) -> (r: Result<MyValueType, EvalError>)
    requires
        graph.wf(),
        node_id < graph.nodes@.len(),
        fuel >= 1,
        graph.nodes@[node_id as int].user_data.template matches MyNodeTemplate::SubtractScalar,
    ensures
        r == spec_eval_node(*graph, node_id, old(outputs_cache)@, fuel as nat).0,
        final(outputs_cache)@ == spec_eval_node(
            *graph,
            node_id,
            old(outputs_cache)@,
            fuel as nat,
        ).1,
    decreases fuel, 2int,
{
    let a = match evaluate_scalar_input(graph, node_id, "A", outputs_cache, fuel) {
        Err(e) => {
            return Err(e);
        },
        Ok(a) => a,
    };
    let b = match evaluate_scalar_input(graph, node_id, "B", outputs_cache, fuel) {
        Err(e) => {
            return Err(e);
        },
        Ok(b) => b,
    };
    match a.checked_sub(b) {
        Some(s) => populate_output(
            graph,
            outputs_cache,
            node_id,
            "out",
            MyValueType::Scalar { value: s },
        ),
        None => Err(EvalError::Overflow),
    }
}

/// Reads vectors `v1` and `v2` and writes their componentwise sum to `out`.
fn eval_add_vector(
    graph: &Graph,
    node_id: usize,
    outputs_cache: &mut OutputsCache,
    fuel: usize,
) -> (r: Result<MyValueType, EvalError>)
    requires
        graph.wf(),
        node_id < graph.nodes@.len(),
        fuel >= 1,
        graph.nodes@[node_id as int].user_data.template matches MyNodeTemplate::AddVector,
    ensures
        r == spec_eval_node(*graph, node_id, old(outputs_cache)@, fuel as nat).0,
        final(outputs_cache)@ == spec_eval_node(
            *graph,
            node_id,
            old(outputs_cache)@,
            fuel as nat,
        ).1,
    decreases fuel, 2int,
{
    let v1 = match evaluate_vector_input(graph, node_id, "v1", outputs_cache, fuel) {
        Err(e) => {
            return Err(e);
        },
        Ok(v) => v,
    };
    let v2 = match evaluate_vector_input(graph, node_id, "v2", outputs_cache, fuel) {
        Err(e) => {
            return Err(e);
        },
        Ok(v) => v,
    };
    match (v1.x.checked_add(v2.x), v1.y.checked_add(v2.y)) {
        (Some(x), Some(y)) => populate_output(
            graph,
            outputs_cache,
            node_id,
            "out",
            MyValueType::Vec2 { value: Vec2 { x, y } },
        ),
        _ => Err(EvalError::Overflow),
    }
}

/// Reads vectors `v1` and `v2` and writes their componentwise difference to `out`.
fn eval_subtract_vector(
    graph: &Graph,
    node_id: usize,
    outputs_cache: &mut OutputsCache,
    fuel: usize,
) -> (r: Result<MyValueType, EvalError>)
    requires
        graph.wf(),
        node_id < graph.nodes@.len(),
        fuel >= 1,
        graph.nodes@[node_id as int].user_data.template matches MyNodeTemplate::SubtractVector,
    ensures
        r == spec_eval_node(*graph, node_id, old(outputs_cache)@, fuel as nat).0,
        final(outputs_cache)@ == spec_eval_node(
            *graph,
            node_id,
            old(outputs_cache)@,
            fuel as nat,
        ).1,
    decreases fuel, 2int,
{
    let v1 = match evaluate_vector_input(graph, node_id, "v1", outputs_cache, fuel) {
        Err(e) => {
            return Err(e);
        },
        Ok(v) => v,
    };
    let v2 = match evaluate_vector_input(graph, node_id, "v2", outputs_cache, fuel) {
        Err(e) => {
            return Err(e);
        },
        Ok(v) => v,
    };
    match (v1.x.checked_sub(v2.x), v1.y.checked_sub(v2.y)) {
        (Some(x), Some(y)) => populate_output(
            graph,
            outputs_cache,
            node_id,
            "out",
            MyValueType::Vec2 { value: Vec2 { x, y } },
        ),
        _ => Err(EvalError::Overflow),
    }
}

/// Reads scalar `scalar` and vector `vector` and writes the scaled vector
/// to `out`.
fn eval_vector_times_scalar(
    graph: &Graph,
    node_id: usize,
    outputs_cache: &mut OutputsCache,
    fuel: usize,
) -> (r: Result<MyValueType, EvalError>)
    requires
        graph.wf(),
        node_id < graph.nodes@.len(),
        fuel >= 1,
        graph.nodes@[node_id as int].user_data.template matches MyNodeTemplate::VectorTimesScalar,
    ensures
        r == spec_eval_node(*graph, node_id, old(outputs_cache)@, fuel as nat).0,
        final(outputs_cache)@ == spec_eval_node(
            *graph,
            node_id,
            old(outputs_cache)@,
            fuel as nat,
        ).1,
    decreases fuel, 2int,
{
    let s = match evaluate_scalar_input(graph, node_id, "scalar", outputs_cache, fuel) {
        Err(e) => {
            return Err(e);
        },
        Ok(s) => s,
    };
    let v = match evaluate_vector_input(graph, node_id, "vector", outputs_cache, fuel) {
        Err(e) => {
            return Err(e);
        },
        Ok(v) => v,
    };
    match (v.x.checked_mul(s), v.y.checked_mul(s)) {
        (Some(x), Some(y)) => populate_output(
            graph,
            outputs_cache,
            node_id,
            "out",
            MyValueType::Vec2 { value: Vec2 { x, y } },
        ),
        _ => Err(EvalError::Overflow),
    }
}

/// Reads scalars `x` and `y` and writes the vector they form to `out`.
fn eval_make_vector(
    graph: &Graph,
    node_id: usize,
    outputs_cache: &mut OutputsCache,
    fuel: usize,
) -> (r: Result<MyValueType, EvalError>)
    requires
        graph.wf(),
        node_id < graph.nodes@.len(),
        fuel >= 1,
        graph.nodes@[node_id as int].user_data.template matches MyNodeTemplate::MakeVector,
    ensures
        r == spec_eval_node(*graph, node_id, old(outputs_cache)@, fuel as nat).0,
        final(outputs_cache)@ == spec_eval_node(
            *graph,
            node_id,
            old(outputs_cache)@,
            fuel as nat,
        ).1,
    decreases fuel, 2int,
{
    let x = match evaluate_scalar_input(graph, node_id, "x", outputs_cache, fuel) {
        Err(e) => {
            return Err(e);
        },
        Ok(x) => x,
    };
    let y = match evaluate_scalar_input(graph, node_id, "y", outputs_cache, fuel) {
        Err(e) => {
            return Err(e);
        },
        Ok(y) => y,
    };
    populate_output(
        graph,
        outputs_cache,
        node_id,
        "out",
        MyValueType::Vec2 { value: Vec2 { x, y } },
    )
}

/// Reads queue `inputConfig` and passes it through to `video`.
fn eval_color_camera(
    graph: &Graph,
    node_id: usize,
    outputs_cache: &mut OutputsCache,
    fuel: usize,
) -> (r: Result<MyValueType, EvalError>)
    requires
        graph.wf(),
        node_id < graph.nodes@.len(),
        fuel >= 1,
        graph.nodes@[node_id as int].user_data.template matches MyNodeTemplate::CreateColorCamera,
    ensures
        r == spec_eval_node(*graph, node_id, old(outputs_cache)@, fuel as nat).0,
        final(outputs_cache)@ == spec_eval_node(
            *graph,
            node_id,
            old(outputs_cache)@,
            fuel as nat,
        ).1,
    decreases fuel, 2int,
{
    let q = match evaluate_queue_input(graph, node_id, "inputConfig", outputs_cache, fuel) {
        Err(e) => {
            return Err(e);
        },
        Ok(q) => q,
    };
    populate_output(graph, outputs_cache, node_id, "video", MyValueType::Queue(q))
}

/// Reads queue `in` and passes it through to `output`.
fn eval_xlink_out(
    graph: &Graph,
    node_id: usize,
    outputs_cache: &mut OutputsCache,
    fuel: usize,
) -> (r: Result<MyValueType, EvalError>)
    requires
        graph.wf(),
        node_id < graph.nodes@.len(),
        fuel >= 1,
        graph.nodes@[node_id as int].user_data.template matches MyNodeTemplate::CreateXLinkOut,
    ensures
        r == spec_eval_node(*graph, node_id, old(outputs_cache)@, fuel as nat).0,
        final(outputs_cache)@ == spec_eval_node(
            *graph,
            node_id,
            old(outputs_cache)@,
            fuel as nat,
        ).1,
    decreases fuel, 2int,
{
    let q = match evaluate_queue_input(graph, node_id, "in", outputs_cache, fuel) {
        Err(e) => {
            return Err(e);
        },
        Ok(q) => q,
    };
    populate_output(graph, outputs_cache, node_id, "output", MyValueType::Queue(q))
}

/// Reads scalar `value` and writes it to `out`: the behaviour of the
/// `MakeScalar` template and of every template with no arithmetic of its
/// own.
fn eval_scalar_passthrough(
    graph: &Graph,
    node_id: usize,
    outputs_cache: &mut OutputsCache,
    fuel: usize,
) -> (r: Result<MyValueType, EvalError>)
    requires
        graph.wf(),
        node_id < graph.nodes@.len(),
        fuel >= 1,
        !(graph.nodes@[node_id as int].user_data.template matches MyNodeTemplate::AddScalar),
        !(graph.nodes@[node_id as int].user_data.template matches MyNodeTemplate::SubtractScalar),
        !(graph.nodes@[node_id as int].user_data.template matches MyNodeTemplate::VectorTimesScalar),
        !(graph.nodes@[node_id as int].user_data.template matches MyNodeTemplate::AddVector),
        !(graph.nodes@[node_id as int].user_data.template matches MyNodeTemplate::SubtractVector),
        !(graph.nodes@[node_id as int].user_data.template matches MyNodeTemplate::MakeVector),
        !(graph.nodes@[node_id as int].user_data.template matches MyNodeTemplate::CreateColorCamera),
        !(graph.nodes@[node_id as int].user_data.template matches MyNodeTemplate::CreateXLinkOut),
    ensures
        r == spec_eval_node(*graph, node_id, old(outputs_cache)@, fuel as nat).0,
        final(outputs_cache)@ == spec_eval_node(
            *graph,
            node_id,
            old(outputs_cache)@,
            fuel as nat,
        ).1,
    decreases fuel, 2int,
{
    let v = match evaluate_scalar_input(graph, node_id, "value", outputs_cache, fuel) {
        Err(e) => {
            return Err(e);
        },
        Ok(v) => v,
    };
    populate_output(
        graph,
        outputs_cache,
        node_id,
        "out",
        MyValueType::Scalar { value: v },
    )
}

/// Evaluates `node_id` with a bounded recursion budget, filling the cache as
/// upstream outputs are computed.
fn evaluate_node_bounded(
    graph: &Graph,
    node_id: usize,
    outputs_cache: &mut OutputsCache,
    fuel: usize,
) -> (r: Result<MyValueType, EvalError>)
    requires
        graph.wf(),
        node_id < graph.nodes@.len(),
    ensures
        r == spec_eval_node(*graph, node_id, old(outputs_cache)@, fuel as nat).0,
        final(outputs_cache)@ == spec_eval_node(
            *graph,
            node_id,
            old(outputs_cache)@,
            fuel as nat,
        ).1,
    decreases fuel, 3int,
{
    if fuel == 0 {
        return Err(EvalError::Cycle);
    }
    match &graph.nodes[node_id].user_data.template {
        MyNodeTemplate::AddScalar => eval_add_scalar(graph, node_id, outputs_cache, fuel),
        MyNodeTemplate::SubtractScalar => eval_subtract_scalar(graph, node_id, outputs_cache, fuel),
        MyNodeTemplate::VectorTimesScalar => eval_vector_times_scalar(
            graph,
            node_id,
            outputs_cache,
            fuel,
        ),
        MyNodeTemplate::AddVector => eval_add_vector(graph, node_id, outputs_cache, fuel),
        MyNodeTemplate::SubtractVector => eval_subtract_vector(graph, node_id, outputs_cache, fuel),
        MyNodeTemplate::MakeVector => eval_make_vector(graph, node_id, outputs_cache, fuel),
        MyNodeTemplate::CreateColorCamera => eval_color_camera(graph, node_id, outputs_cache, fuel),
        MyNodeTemplate::CreateXLinkOut => eval_xlink_out(graph, node_id, outputs_cache, fuel),
        _ => eval_scalar_passthrough(graph, node_id, outputs_cache, fuel),
    }
}

/// Recursively evaluates all dependencies of this node, then evaluates the
/// node itself, memoizing every output it computes along the way.
pub fn evaluate_node(
    graph: &Graph,
    node_id: usize,
    outputs_cache: &mut OutputsCache,
) -> (r: Result<MyValueType, EvalError>)
    requires
        graph.wf(),
        node_id < graph.nodes@.len(),
        graph.nodes@.len() < usize::MAX,
    ensures
        r == spec_eval_node(*graph, node_id, old(outputs_cache)@, spec_eval_budget(*graph)).0,
        final(outputs_cache)@ == spec_eval_node(
            *graph,
            node_id,
            old(outputs_cache)@,
            spec_eval_budget(*graph),
        ).1,
{
    let fuel = graph.nodes.len() + 1;
    evaluate_node_bounded(graph, node_id, outputs_cache, fuel)
}

/// Resolves one named input of a node, evaluating upstream nodes as needed,
/// with a fresh recursion budget.
pub fn evaluate_input(
    graph: &Graph,
    node_id: usize,
    param_name: &str,
    outputs_cache: &mut OutputsCache,
) -> (r: Result<MyValueType, EvalError>)
    requires
        graph.wf(),
        node_id < graph.nodes@.len(),
        graph.nodes@.len() < usize::MAX,
    ensures
        r == spec_eval_input(
            *graph,
            node_id,
            param_name@,
            old(outputs_cache)@,
            spec_eval_budget(*graph),
        ).0,
        final(outputs_cache)@ == spec_eval_input(
            *graph,
            node_id,
            param_name@,
            old(outputs_cache)@,
            spec_eval_budget(*graph),
        ).1,
{
    let fuel = graph.nodes.len() + 1;
    evaluate_input_bounded(graph, node_id, param_name, outputs_cache, fuel)
}


/// Resolving one input never drops a memoized output: every cache entry
/// present before is present after.
pub proof fn lemma_eval_input_grows_cache(
    g: Graph,
    node: usize,
    name: Seq<char>,
    cache: Map<usize, MyValueType>,
    fuel: nat,
)
    ensures
        cache.dom().subset_of(spec_eval_input(g, node, name, cache, fuel).1.dom()),
    decreases fuel, 0int,
{
    match g.nodes@[node as int].spec_get_input(name) {
        None => {},
        Some(input_id) => {
            match g.spec_connection(input_id) {
                None => {},
                Some(oid) => {
                    if !cache.contains_key(oid) && fuel != 0 {
                        lemma_eval_node_grows_cache(
                            g,
                            g.outputs@[oid as int].node,
                            cache,
                            (fuel - 1) as nat,
                        );
                    }
                },
            }
        },
    }
}

/// Resolving two inputs in a row never drops a memoized output.
proof fn lemma_eval_two_inputs_grow_cache(
    g: Graph,
    node: usize,
    name1: Seq<char>,
    name2: Seq<char>,
    cache: Map<usize, MyValueType>,
    fuel: nat,
)
    ensures
        cache.dom().subset_of(spec_eval_input(g, node, name1, cache, fuel).1.dom()),
        cache.dom().subset_of(
            spec_eval_input(
                g,
                node,
                name2,
                spec_eval_input(g, node, name1, cache, fuel).1,
                fuel,
            ).1.dom(),
        ),
    decreases fuel, 1int,
{
    let c1 = spec_eval_input(g, node, name1, cache, fuel).1;
    lemma_eval_input_grows_cache(g, node, name1, cache, fuel);
    lemma_eval_input_grows_cache(g, node, name2, c1, fuel);
}

/// Evaluating a node only adds memoized outputs: every cache entry present
/// before the evaluation is still present, unchanged in place, afterwards
/// in the domain of the cache it returns.
pub proof fn lemma_eval_node_grows_cache(
    g: Graph,
    node: usize,
    cache: Map<usize, MyValueType>,
    fuel: nat,
)
    ensures
        cache.dom().subset_of(spec_eval_node(g, node, cache, fuel).1.dom()),
    decreases fuel, 2int,
{
    if fuel != 0 {
        match g.nodes@[node as int].user_data.template {
            MyNodeTemplate::AddScalar => {
                lemma_eval_two_inputs_grow_cache(g, node, "A"@, "B"@, cache, fuel);
            },
            MyNodeTemplate::SubtractScalar => {
                lemma_eval_two_inputs_grow_cache(g, node, "A"@, "B"@, cache, fuel);
            },
            MyNodeTemplate::VectorTimesScalar => {
                lemma_eval_two_inputs_grow_cache(g, node, "scalar"@, "vector"@, cache, fuel);
            },
            MyNodeTemplate::AddVector => {
                lemma_eval_two_inputs_grow_cache(g, node, "v1"@, "v2"@, cache, fuel);
            },
            MyNodeTemplate::SubtractVector => {
                lemma_eval_two_inputs_grow_cache(g, node, "v1"@, "v2"@, cache, fuel);
            },
            MyNodeTemplate::MakeVector => {
                lemma_eval_two_inputs_grow_cache(g, node, "x"@, "y"@, cache, fuel);
            },
            MyNodeTemplate::MakeScalar => {
                lemma_eval_input_grows_cache(g, node, "value"@, cache, fuel);
            },
            MyNodeTemplate::CreateColorCamera => {
                lemma_eval_input_grows_cache(g, node, "inputConfig"@, cache, fuel);
            },
            MyNodeTemplate::CreateXLinkOut => {
                lemma_eval_input_grows_cache(g, node, "in"@, cache, fuel);
            },
            _ => {
                lemma_eval_input_grows_cache(g, node, "value"@, cache, fuel);
            },
        }
    }
}

} // verus!
