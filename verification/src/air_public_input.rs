//! The public input of a run for the prover: layout, range-check limits,
//! number of steps, segment addresses and public memory.
use vstd::prelude::*;
use crate::bigint::{BigInt, int_decimal, int_hex};
use crate::strings::push_usize;

verus! {

/// One step of the relocated trace.
#[derive(Clone, Copy, Debug, PartialEq, Eq, Structural)]
pub struct TraceEntry {
    pub pc: usize,
    pub ap: usize,
    pub fp: usize,
}

/// A public memory cell: its address, its page and its value, if known.
#[derive(Debug, PartialEq, Eq, Clone)]
pub struct PublicMemoryEntry {
    pub address: usize,
    pub page: usize,
    pub value: Option<BigInt>,
}

pub open spec fn opt_value(v: Option<BigInt>) -> Option<int> {
    match v {
        Some(x) => Some(x@),
        None => None,
    }
}

/// The public input; `L` is the type of the layout parameters.
pub struct PublicInput<'a, L> {
    pub layout: &'a str,
    pub layout_params: Option<&'a L>,
    pub rc_min: isize,
    pub rc_max: isize,
    pub n_steps: usize,
    pub memory_segments: Vec<(String, (usize, usize))>,
    pub public_memory: Vec<PublicMemoryEntry>,
}

/// Errors in building or writing the public input.
#[derive(Debug, PartialEq, Eq, Clone)]
pub enum PublicInputError {
    EmptyTrace,
    MemoryNotFound(usize),
    NoRangeCheckLimits,
}

/// The first entry of a name in a list of segment addresses.
pub open spec fn segment_get(s: Seq<(String, (usize, usize))>, name: Seq<char>) -> Option<(usize, usize)>
    decreases s.len(),
{
    if s.len() == 0 {
        None
    } else if s[0].0@ == name {
        Some(s[0].1)
    } else {
        segment_get(s.drop_first(), name)
    }
}

/// The map a list of segment addresses stands for.
pub open spec fn segments_map(s: Seq<(String, (usize, usize))>) -> Map<Seq<char>, (usize, usize)> {
    Map::new(|k: Seq<char>| segment_get(s, k) is Some, |k: Seq<char>| segment_get(s, k)->0)
}

/// Every public address is inside the memory.
pub open spec fn addresses_in_memory(memory: Seq<Option<BigInt>>, addresses: Seq<(usize, usize)>) -> bool {
    forall|i: int| 0 <= i < addresses.len() ==> #[trigger] addresses[i].0 < memory.len()
}

proof fn lemma_segment_get_after_set(
    s: Seq<(String, (usize, usize))>,
    i: int,
    p: (String, (usize, usize)),
    k: Seq<char>,
)
    requires
        0 <= i < s.len(),
        s[i].0@ == p.0@,
        forall|j: int| 0 <= j < i ==> (#[trigger] s[j]).0@ != p.0@,
    ensures
        segment_get(s.update(i, p), k) == if k == p.0@ {
            Some(p.1)
        } else {
            segment_get(s, k)
        },
    decreases s.len(),
{
    let u = s.update(i, p);
    if i == 0 {
        assert(u[0] == p);
        assert(u.drop_first() =~= s.drop_first());
    } else {
        assert(s[0].0@ != p.0@);
        assert(u[0] == s[0]);
        let t = s.drop_first();
        assert forall|j: int| 0 <= j < i - 1 implies (#[trigger] t[j]).0@ != p.0@ by {
            assert(t[j] == s[j + 1]);
        }
        lemma_segment_get_after_set(t, i - 1, p, k);
        assert(u.drop_first() =~= t.update(i - 1, p));
    }
}

proof fn lemma_segment_get_after_push(s: Seq<(String, (usize, usize))>, p: (String, (usize, usize)), k: Seq<char>)
    requires
        forall|j: int| 0 <= j < s.len() ==> (#[trigger] s[j]).0@ != p.0@,
    ensures
        segment_get(s.push(p), k) == if k == p.0@ {
            Some(p.1)
        } else {
            segment_get(s, k)
        },
    decreases s.len(),
{
    let u = s.push(p);
    if s.len() > 0 {
        assert(s[0].0@ != p.0@);
        assert(u[0] == s[0]);
        let t = s.drop_first();
        assert forall|j: int| 0 <= j < t.len() implies (#[trigger] t[j]).0@ != p.0@ by {
            assert(t[j] == s[j + 1]);
        }
        lemma_segment_get_after_push(t, p, k);
        assert(u.drop_first() =~= t.push(p));
    } else {
        let e = Seq::<(String, (usize, usize))>::empty();
        assert(u[0] == p);
        assert(u.drop_first() =~= e);
        assert(segment_get(e, k) is None);
    }
}

/// Maps `name` to `v`: replaces the first entry of `name` or appends one.
fn segments_insert(segments: &mut Vec<(String, (usize, usize))>, name: String, v: (usize, usize))
    ensures
        segments_map(final(segments)@) == segments_map(old(segments)@).insert(name@, v),
{
    let ghost before = segments@;
    let ghost key = name@;
    let mut i: usize = 0;
    while i < segments.len()
        invariant
            i <= segments@.len(),
            segments@ == before,
            before == old(segments)@,
            key == name@,
            forall|j: int| 0 <= j < i ==> (#[trigger] segments@[j]).0@ != key,
        decreases segments@.len() - i,
    {
        if segments[i].0 == name {
            let ghost p = (name, v);
            segments.set(i, (name, v));
            proof {
                assert forall|k: Seq<char>| #[trigger] segments_map(segments@).contains_key(k)
                    == segments_map(before).insert(key, v).contains_key(k) && (segments_map(
                    segments@,
                ).contains_key(k) ==> segments_map(segments@)[k] == segments_map(before).insert(
                    key,
                    v,
                )[k]) by {
                    lemma_segment_get_after_set(before, i as int, p, k);
                }
                assert(segments_map(segments@) =~= segments_map(before).insert(key, v));
            }
            return;
        }
        i = i + 1;
    }
    let ghost p = (name, v);
    segments.push((name, v));
    proof {
        assert forall|k: Seq<char>| #[trigger] segments_map(segments@).contains_key(k)
            == segments_map(before).insert(key, v).contains_key(k) && (segments_map(
            segments@,
        ).contains_key(k) ==> segments_map(segments@)[k] == segments_map(before).insert(key, v)[k]) by {
            lemma_segment_get_after_push(before, p, k);
        }
        assert(segments_map(segments@) =~= segments_map(before).insert(key, v));
    }
}

impl<'a, L> PublicInput<'a, L> {
    /// Collects the public input.  Each public memory address must be
    /// inside `memory` and the trace must not be empty; the segments
    /// "program" and "execution" run from the first to the last `pc` and
    /// `ap` of the trace.
    pub fn new(
        memory: &[Option<BigInt>],
        layout: &'a str,
        dyn_layout_params: Option<&'a L>,
        public_memory_addresses: &[(usize, usize)],
        memory_segment_addresses: Vec<(String, (usize, usize))>,
        trace: &[TraceEntry],
        rc_limits: (isize, isize),
    ) -> (r: Result<Self, PublicInputError>)
        ensures
            !addresses_in_memory(memory@, public_memory_addresses@) ==> (r matches Err(
                PublicInputError::MemoryNotFound(a),
            ) && a >= memory@.len() && exists|i: int|
                0 <= i < public_memory_addresses@.len() && #[trigger] public_memory_addresses@[i].0 == a
                    && forall|j: int|
                    0 <= j < i ==> #[trigger] public_memory_addresses@[j].0 < memory@.len()),
            addresses_in_memory(memory@, public_memory_addresses@) && trace@.len() == 0 ==> r
                == Err::<Self, PublicInputError>(PublicInputError::EmptyTrace),
            addresses_in_memory(memory@, public_memory_addresses@) && trace@.len() > 0 ==> (r matches Ok(
                p,
            ) && {
                &&& p.layout == layout
                &&& p.layout_params == dyn_layout_params
                &&& p.rc_min == rc_limits.0
                &&& p.rc_max == rc_limits.1
                &&& p.n_steps == trace@.len()
                &&& segments_map(p.memory_segments@) == segments_map(memory_segment_addresses@).insert(
                    "program"@,
                    (trace@[0].pc, trace@.last().pc),
                ).insert("execution"@, (trace@[0].ap, trace@.last().ap))
                &&& p.public_memory@.len() == public_memory_addresses@.len()
                &&& forall|i: int|
                    0 <= i < public_memory_addresses@.len() ==> {
                        let e = #[trigger] p.public_memory@[i];
                        &&& e.address == public_memory_addresses@[i].0
                        &&& e.page == public_memory_addresses@[i].1
                        &&& opt_value(e.value) == opt_value(memory@[e.address as int])
                    }
            }),
    {
        let mut public_memory: Vec<PublicMemoryEntry> = Vec::new();
        let mut i: usize = 0;
        while i < public_memory_addresses.len()
            invariant
                i <= public_memory_addresses@.len(),
                public_memory@.len() == i,
                forall|j: int| 0 <= j < i ==> #[trigger] public_memory_addresses@[j].0 < memory@.len(),
                forall|j: int|
                    0 <= j < i ==> {
                        let e = #[trigger] public_memory@[j];
                        &&& e.address == public_memory_addresses@[j].0
                        &&& e.page == public_memory_addresses@[j].1
                        &&& opt_value(e.value) == opt_value(memory@[e.address as int])
                    },
            decreases public_memory_addresses@.len() - i,
        {
            let (address, page) = public_memory_addresses[i];
            if address >= memory.len() {
                return Err(PublicInputError::MemoryNotFound(address));
            }
            let value = match &memory[address] {
                Some(v) => Some(v.duplicate()),
                None => None,
            };
            public_memory.push(PublicMemoryEntry { address, page, value });
            i = i + 1;
        }
        let (rc_min, rc_max) = rc_limits;
        if trace.len() == 0 {
            return Err(PublicInputError::EmptyTrace);
        }
        let trace_first = trace[0];
        let trace_last = trace[trace.len() - 1];
        let mut memory_segments = memory_segment_addresses;
        segments_insert(&mut memory_segments, "program".to_owned(), (trace_first.pc, trace_last.pc));
        segments_insert(&mut memory_segments, "execution".to_owned(), (trace_first.ap, trace_last.ap));
        Ok(
            PublicInput {
                layout,
                layout_params: dyn_layout_params,
                rc_min,
                rc_max,
                n_steps: trace.len(),
                memory_segments,
                public_memory,
            },
        )
    }
}

/// The text the public input shows for a memory value: `0x` and its lower-case
/// hexadecimal digits; nothing for an unknown value.
pub open spec fn mem_value_view(value: Option<int>) -> Option<Seq<char>> {
    match value {
        Some(v) => Some("0x"@ + int_hex(v)),
        None => None,
    }
}

/// The text the public input shows for a memory value.
pub fn mem_value_text(value: &Option<BigInt>) -> (r: Option<String>)
    ensures
        match r {
            Some(s) => mem_value_view(opt_value(*value)) == Some(s@),
            None => mem_value_view(opt_value(*value)) is None,
        },
{
    match value {
        Some(v) => {
            let mut s = "0x".to_owned();
            let digits = v.to_hex_string();
            s.append(digits.as_str());
            Some(s)
        },
        None => None,
    }
}

/// The message of a public input error.
pub open spec fn public_input_error_message(e: PublicInputError) -> Seq<char> {
    match e {
        PublicInputError::EmptyTrace => "The trace slice provided is empty"@,
        PublicInputError::MemoryNotFound(a) => "The provided memory doesn't contain public address "@
            + int_decimal(a as int),
        PublicInputError::NoRangeCheckLimits => "Range check values are missing"@,
    }
}

impl PublicInputError {
    /// The message of the error.
    pub fn to_string(&self) -> (r: String)
        ensures
            r@ == public_input_error_message(*self),
    {
        let mut s = String::new();
        match self {
            PublicInputError::EmptyTrace => s.append("The trace slice provided is empty"),
            PublicInputError::MemoryNotFound(a) => {
                s.append("The provided memory doesn't contain public address ");
                push_usize(&mut s, *a);
            },
            PublicInputError::NoRangeCheckLimits => s.append("Range check values are missing"),
        }
        s
    }
}

} // verus!
