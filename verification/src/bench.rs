//! The names and paths of the benchmark programs.
use vstd::prelude::*;

verus! {

pub const BENCH_NAMES: [&'static str; 15] = [
    "compare_arrays_200000",
    "factorial_multirun",
    "fibonacci_1000_multirun",
    "integration_builtins",
    "linear_search",
    "keccak_integration_benchmark",
    "secp_integration_benchmark",
    "blake2s_integration_benchmark",
    "dict_integration_benchmark",
    "math_integration_benchmark",
    "memory_integration_benchmark",
    "math_cmp_and_pow_integration_benchmark",
    "operations_with_data_structures_benchmarks",
    "uint256_integration_benchmark",
    "set_integration_benchmark",
];

pub const BENCH_PATH: &'static str = "cairo_programs/benchmarks/";

/// The path of the compiled benchmark program `name`.
pub open spec fn bench_path(name: Seq<char>) -> Seq<char> {
    BENCH_PATH@ + name + ".json"@
}

/// For each benchmark, the label `cairo_run(<path>` and the path
/// `cairo_programs/benchmarks/<name>.json`.
pub fn build_bench_strings() -> (r: Vec<(String, String)>)
    ensures
        r@.len() == BENCH_NAMES@.len(),
        forall|i: int|
            0 <= i < r@.len() ==> (#[trigger] r@[i]).1@ == bench_path(BENCH_NAMES@[i]@) && r@[i].0@
                == "cairo_run("@ + bench_path(BENCH_NAMES@[i]@),
{
    let names = BENCH_NAMES;
    let mut full_string: Vec<(String, String)> = Vec::new();
    let mut i: usize = 0;
    while i < names.len()
        invariant
            names@ == BENCH_NAMES@,
            i <= names@.len(),
            full_string@.len() == i,
            forall|j: int|
                0 <= j < i ==> (#[trigger] full_string@[j]).1@ == bench_path(names@[j]@)
                    && full_string@[j].0@ == "cairo_run("@ + bench_path(names@[j]@),
        decreases names@.len() - i,
    {
        let filename = names[i];
        let mut full_file_path = BENCH_PATH.to_owned();
        full_file_path.append(filename);
        full_file_path.append(".json");
        let mut cairo_call = "cairo_run(".to_owned();
        cairo_call.append(full_file_path.as_str());
        full_string.push((cairo_call, full_file_path));
        proof {
            assert(full_string@[i as int].1@ =~= bench_path(names@[i as int]@));
            assert(full_string@[i as int].0@ =~= "cairo_run("@ + bench_path(names@[i as int]@));
        }
        i = i + 1;
    }
    full_string
}

} // verus!
