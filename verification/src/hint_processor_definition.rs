//! References to Cairo variables as hints see them, and the compilation of
//! a hint's data.
use vstd::prelude::*;
use crate::bigint::BigInt;
use crate::errors::{VirtualMachineError, VirtualMachineErrorValue};
use crate::vm::VirtualMachine;

verus! {

/// A register of the machine.
#[derive(Clone, Copy, Debug, PartialEq, Eq, Hash, Structural)]
pub enum Register {
    AP,
    FP,
}

/// The position of `ap` within a function: a group and an offset in it.
#[derive(Clone, Copy, Debug, PartialEq, Eq, Hash, Structural)]
pub struct ApTracking {
    pub group: usize,
    pub offset: usize,
}

/// One of the two terms whose sum is the address of a reference.
#[derive(Clone, Debug, PartialEq, Eq, Hash)]
pub enum OffsetValue {
    Immediate(BigInt),
    Value(i32),
    /// A register plus an offset, read from memory when the flag is set.
    Reference(Register, i32, bool),
}

pub ghost enum OffsetValueValue {
    Immediate(int),
    Value(i32),
    Reference(Register, i32, bool),
}

impl View for OffsetValue {
    type V = OffsetValueValue;

    open spec fn view(&self) -> OffsetValueValue {
        match self {
            OffsetValue::Immediate(n) => OffsetValueValue::Immediate(n@),
            OffsetValue::Value(v) => OffsetValueValue::Value(*v),
            OffsetValue::Reference(r, o, d) => OffsetValueValue::Reference(*r, *o, *d),
        }
    }
}

impl OffsetValue {
    pub fn duplicate(&self) -> (r: OffsetValue)
        ensures
            r@ == self@,
    {
        match self {
            OffsetValue::Immediate(n) => OffsetValue::Immediate(n.duplicate()),
            OffsetValue::Value(v) => OffsetValue::Value(*v),
            OffsetValue::Reference(r, o, d) => OffsetValue::Reference(*r, *o, *d),
        }
    }
}

/// How a hint finds a Cairo variable.
#[derive(Debug, PartialEq, Eq, Clone)]
pub struct HintReference {
    pub offset1: OffsetValue,
    pub offset2: OffsetValue,
    pub dereference: bool,
    pub ap_tracking_data: Option<ApTracking>,
    pub cairo_type: Option<String>,
}

pub ghost struct HintReferenceValue {
    pub offset1: OffsetValueValue,
    pub offset2: OffsetValueValue,
    pub dereference: bool,
    pub ap_tracking_data: Option<ApTracking>,
    pub cairo_type: Option<Seq<char>>,
}

impl View for HintReference {
    type V = HintReferenceValue;

    open spec fn view(&self) -> HintReferenceValue {
        HintReferenceValue {
            offset1: self.offset1@,
            offset2: self.offset2@,
            dereference: self.dereference,
            ap_tracking_data: self.ap_tracking_data,
            cairo_type: match self.cairo_type {
                Some(s) => Some(s@),
                None => None,
            },
        }
    }
}

impl HintReference {
    /// The variable at `fp + offset1`, read from memory.
    pub fn new_simple(offset1: i32) -> (r: Self)
        ensures
            r@ == (HintReferenceValue {
                offset1: OffsetValueValue::Reference(Register::FP, offset1, false),
                offset2: OffsetValueValue::Value(0),
                dereference: true,
                ap_tracking_data: None,
                cairo_type: None,
            }),
    {
        HintReference {
            offset1: OffsetValue::Reference(Register::FP, offset1, false),
            offset2: OffsetValue::Value(0),
            ap_tracking_data: None,
            dereference: true,
            cairo_type: None,
        }
    }

    /// The variable at `[fp + offset1] + offset2` (or `fp + offset1 + offset2`
    /// without the inner dereference), read from memory when `dereference`.
    pub fn new(offset1: i32, offset2: i32, inner_dereference: bool, dereference: bool) -> (r: Self)
        ensures
            r@ == (HintReferenceValue {
                offset1: OffsetValueValue::Reference(Register::FP, offset1, inner_dereference),
                offset2: OffsetValueValue::Value(offset2),
                dereference,
                ap_tracking_data: None,
                cairo_type: None,
            }),
    {
        HintReference {
            offset1: OffsetValue::Reference(Register::FP, offset1, inner_dereference),
            offset2: OffsetValue::Value(offset2),
            ap_tracking_data: None,
            dereference,
            cairo_type: None,
        }
    }

    pub fn duplicate(&self) -> (r: Self)
        ensures
            r@ == self@,
    {
        HintReference {
            offset1: self.offset1.duplicate(),
            offset2: self.offset2.duplicate(),
            dereference: self.dereference,
            ap_tracking_data: self.ap_tracking_data,
            cairo_type: match &self.cairo_type {
                Some(s) => Some(s.clone()),
                None => None,
            },
        }
    }
}

/// The address part of a reference in a compiled program.
#[derive(Debug, PartialEq, Eq, Clone)]
pub struct ValueAddress {
    pub offset1: OffsetValue,
    pub offset2: OffsetValue,
    pub dereference: bool,
    pub value_type: String,
}

/// A reference of a compiled program.
#[derive(Debug, PartialEq, Eq, Clone)]
pub struct Reference {
    pub ap_tracking_data: ApTracking,
    pub pc: Option<usize>,
    pub value_address: ValueAddress,
}

pub open spec fn is_ap_reference(o: OffsetValue) -> bool {
    o matches OffsetValue::Reference(Register::AP, _, _)
}

impl From<Reference> for HintReference {
    /// Keeps the `ap` tracking data only when one of the offsets refers to `ap`.
    fn from(reference: Reference) -> (r: HintReference) {
        let refers_to_ap = match (&reference.value_address.offset1, &reference.value_address.offset2) {
            (OffsetValue::Reference(Register::AP, _, _), _) => true,
            (_, OffsetValue::Reference(Register::AP, _, _)) => true,
            _ => false,
        };
        HintReference {
            offset1: reference.value_address.offset1,
            offset2: reference.value_address.offset2,
            dereference: reference.value_address.dereference,
            ap_tracking_data: if refers_to_ap {
                Some(reference.ap_tracking_data)
            } else {
                None
            },
            cairo_type: Some(reference.value_address.value_type),
        }
    }
}

impl vstd::std_specs::convert::FromSpecImpl<Reference> for HintReference {
    open spec fn obeys_from_spec() -> bool {
        true
    }

    open spec fn from_spec(reference: Reference) -> HintReference {
        HintReference {
            offset1: reference.value_address.offset1,
            offset2: reference.value_address.offset2,
            dereference: reference.value_address.dereference,
            ap_tracking_data: if is_ap_reference(reference.value_address.offset1) || is_ap_reference(
                reference.value_address.offset2,
            ) {
                Some(reference.ap_tracking_data)
            } else {
                None
            },
            cairo_type: Some(reference.value_address.value_type),
        }
    }
}

/// The entry for `key` in a list of pairs: the first one with that key.
pub open spec fn assoc_get<K, V>(s: Seq<(K, V)>, key: K) -> Option<V>
    decreases s.len(),
{
    if s.len() == 0 {
        None
    } else if s[0].0 == key {
        Some(s[0].1)
    } else {
        assoc_get(s.drop_first(), key)
    }
}

/// The names of variables, as views, mapped to the views of their references.
pub open spec fn ids_view(s: Seq<(String, HintReference)>) -> Seq<(Seq<char>, HintReferenceValue)> {
    s.map_values(|p: (String, HintReference)| (p.0@, p.1@))
}

pub open spec fn names_view(s: Seq<(String, usize)>) -> Seq<(Seq<char>, usize)> {
    s.map_values(|p: (String, usize)| (p.0@, p.1))
}

pub open spec fn references_view(s: Seq<(usize, HintReference)>) -> Seq<(usize, HintReferenceValue)> {
    s.map_values(|p: (usize, HintReference)| (p.0, p.1@))
}

/// The part of a dotted path after its last '.'.
pub open spec fn last_component(path: Seq<char>) -> Seq<char>
    decreases path.len(),
{
    if path.len() == 0 {
        path
    } else if path.last() == '.' {
        Seq::empty()
    } else {
        last_component(path.drop_last()).push(path.last())
    }
}

/// Whether every path's reference id is among the references.
pub open spec fn all_ids_known(
    reference_ids: Seq<(Seq<char>, usize)>,
    references: Seq<(usize, HintReferenceValue)>,
) -> bool {
    forall|i: int|
        0 <= i < reference_ids.len() ==> #[trigger] assoc_get(references, reference_ids[i].1) is Some
}

/// The map that inserting each path's last component with its reference
/// gives, from first to last path (a later path replaces an earlier one with
/// the same name).
pub open spec fn spec_ids_data(
    reference_ids: Seq<(Seq<char>, usize)>,
    references: Seq<(usize, HintReferenceValue)>,
) -> Map<Seq<char>, HintReferenceValue>
    decreases reference_ids.len(),
{
    if reference_ids.len() == 0 {
        Map::empty()
    } else {
        let last = reference_ids.last();
        spec_ids_data(reference_ids.drop_last(), references).insert(
            last_component(last.0),
            assoc_get(references, last.1)->0,
        )
    }
}

/// The map a list of pairs stands for (the first entry of a key counts).
pub open spec fn ids_map(s: Seq<(Seq<char>, HintReferenceValue)>) -> Map<Seq<char>, HintReferenceValue> {
    Map::new(|k: Seq<char>| assoc_get(s, k) is Some, |k: Seq<char>| assoc_get(s, k)->0)
}

/// The last component of a path after its last '.'.
fn last_path_component(path: &String) -> (r: String)
    ensures
        r@ == last_component(path@),
{
    let s = path.as_str();
    let n = s.unicode_len();
    let mut start: usize = n;
    assert(s@.subrange(0, n as int) =~= s@);
    assert(s@.subrange(n as int, n as int) =~= Seq::<char>::empty());
    assert(last_component(s@) =~= last_component(s@) + Seq::<char>::empty());
    while start > 0 && s.get_char(start - 1) != '.'
        invariant
            start <= n,
            n == s@.len(),
            last_component(s@) == last_component(s@.subrange(0, start as int)) + s@.subrange(
                start as int,
                n as int,
            ),
        decreases start,
    {
        proof {
            let p = s@.subrange(0, start as int);
            assert(p.drop_last() =~= s@.subrange(0, start - 1));
            assert(p.last() == s@[start - 1]);
            assert(s@.subrange(start - 1, n as int) =~= seq![s@[start - 1]] + s@.subrange(
                start as int,
                n as int,
            ));
            assert(last_component(s@.subrange(0, start - 1)).push(s@[start - 1]) + s@.subrange(
                start as int,
                n as int,
            ) =~= last_component(s@.subrange(0, start - 1)) + s@.subrange(start - 1, n as int));
        }
        start = start - 1;
    }
    proof {
        let p = s@.subrange(0, start as int);
        if start > 0 {
            assert(p.last() == '.');
        }
        assert(last_component(p) =~= Seq::<char>::empty());
        assert(last_component(s@) =~= s@.subrange(start as int, n as int));
    }
    let part = s.substring_char(start, n);
    part.to_owned()
}

/// Maps `name` to `r` in a list of pairs: replaces the first entry of `name`
/// or appends one.
fn assoc_insert(ids: &mut Vec<(String, HintReference)>, name: String, r: HintReference)
    ensures
        ids_map(ids_view(final(ids)@)) == ids_map(ids_view(old(ids)@)).insert(name@, r@),
{
    let ghost before = ids_view(ids@);
    let mut i: usize = 0;
    while i < ids.len()
        invariant
            i <= ids@.len(),
            ids_view(ids@) == before,
            before == ids_view(old(ids)@),
            forall|j: int| 0 <= j < i ==> (#[trigger] ids@[j]).0@ != name@,
        decreases ids@.len() - i,
    {
        if ids[i].0 == name {
            let ghost p = (name@, r@);
            proof {
                assert(before[i as int].0 == p.0);
                assert forall|j: int| 0 <= j < i implies (#[trigger] before[j]).0 != p.0 by {
                    assert(before[j].0 == ids@[j].0@);
                }
            }
            ids.set(i, (name, r));
            proof {
                assert(ids_view(ids@) =~= before.update(i as int, p));
                assert forall|k: Seq<char>| #[trigger] ids_map(ids_view(ids@)).contains_key(k)
                    == ids_map(before).insert(p.0, p.1).contains_key(k) && (ids_map(
                    ids_view(ids@),
                ).contains_key(k) ==> ids_map(ids_view(ids@))[k] == ids_map(before).insert(
                    p.0,
                    p.1,
                )[k]) by {
                    lemma_assoc_get_after_set(before, i as int, p, k);
                }
                assert(ids_map(ids_view(ids@)) =~= ids_map(before).insert(p.0, p.1));
            }
            return;
        }
        i = i + 1;
    }
    let ghost p = (name@, r@);
    proof {
        assert forall|j: int| 0 <= j < before.len() implies (#[trigger] before[j]).0 != p.0 by {
            assert(before[j].0 == ids@[j].0@);
        }
    }
    ids.push((name, r));
    proof {
        assert(ids_view(ids@) =~= before.push(p));
        assert forall|k: Seq<char>| #[trigger] ids_map(ids_view(ids@)).contains_key(k)
            == ids_map(before).insert(p.0, p.1).contains_key(k) && (ids_map(
            ids_view(ids@),
        ).contains_key(k) ==> ids_map(ids_view(ids@))[k] == ids_map(before).insert(p.0, p.1)[k]) by {
            lemma_assoc_get_after_push(before, p, k);
        }
        assert(ids_map(ids_view(ids@)) =~= ids_map(before).insert(p.0, p.1));
    }
}

proof fn lemma_assoc_get_after_set(
    s: Seq<(Seq<char>, HintReferenceValue)>,
    i: int,
    p: (Seq<char>, HintReferenceValue),
    k: Seq<char>,
)
    requires
        0 <= i < s.len(),
        s[i].0 == p.0,
        forall|j: int| 0 <= j < i ==> (#[trigger] s[j]).0 != p.0,
    ensures
        assoc_get(s.update(i, p), k) == if k == p.0 {
            Some(p.1)
        } else {
            assoc_get(s, k)
        },
    decreases s.len(),
{
    let u = s.update(i, p);
    if i == 0 {
        assert(u[0] == p);
        assert(u.drop_first() =~= s.drop_first());
    } else {
        assert(s[0].0 != p.0);
        assert(u[0] == s[0]);
        let t = s.drop_first();
        assert forall|j: int| 0 <= j < i - 1 implies (#[trigger] t[j]).0 != p.0 by {
            assert(t[j] == s[j + 1]);
        }
        lemma_assoc_get_after_set(t, i - 1, p, k);
        assert(u.drop_first() =~= t.update(i - 1, p));
    }
}

proof fn lemma_assoc_get_after_push(
    s: Seq<(Seq<char>, HintReferenceValue)>,
    p: (Seq<char>, HintReferenceValue),
    k: Seq<char>,
)
    requires
        forall|j: int| 0 <= j < s.len() ==> (#[trigger] s[j]).0 != p.0,
    ensures
        assoc_get(s.push(p), k) == if k == p.0 {
            Some(p.1)
        } else {
            assoc_get(s, k)
        },
    decreases s.len(),
{
    let u = s.push(p);
    if s.len() > 0 {
        assert(s[0].0 != p.0);
        assert(u[0] == s[0]);
        let t = s.drop_first();
        assert forall|j: int| 0 <= j < t.len() implies (#[trigger] t[j]).0 != p.0 by {
            assert(t[j] == s[j + 1]);
        }
        lemma_assoc_get_after_push(t, p, k);
        assert(u.drop_first() =~= t.push(p));
    } else {
        let e = Seq::<(Seq<char>, HintReferenceValue)>::empty();
        assert(u[0] == p);
        assert(u.drop_first() =~= e);
        assert(assoc_get(e, k) is None);
        assert(assoc_get(s, k) is None);
    }
}

/// The reference with id `id`, the first one in the list.
fn find_reference(references: &Vec<(usize, HintReference)>, id: usize) -> (r: Option<HintReference>)
    ensures
        match r {
            Some(x) => assoc_get(references_view(references@), id) == Some(x@),
            None => assoc_get(references_view(references@), id) is None,
        },
{
    let ghost v = references_view(references@);
    let mut i: usize = 0;
    assert(v.skip(0) =~= v);
    while i < references.len()
        invariant
            i <= references@.len(),
            v == references_view(references@),
            assoc_get(v, id) == assoc_get(v.skip(i as int), id),
        decreases references@.len() - i,
    {
        proof {
            assert(v.skip(i as int).drop_first() =~= v.skip(i + 1));
        }
        if references[i].0 == id {
            return Some(references[i].1.duplicate());
        }
        i = i + 1;
    }
    None
}

/// For each variable path, its last component mapped to the reference with
/// the path's id; `Unexpected` when an id has no reference.
pub fn get_ids_data(
    reference_ids: &Vec<(String, usize)>,
    references: &Vec<(usize, HintReference)>,
) -> (r: Result<Vec<(String, HintReference)>, VirtualMachineError>)
    ensures
        match r {
            Ok(ids) => all_ids_known(names_view(reference_ids@), references_view(references@))
                && ids_map(ids_view(ids@)) == spec_ids_data(
                names_view(reference_ids@),
                references_view(references@),
            ),
            Err(e) => !all_ids_known(names_view(reference_ids@), references_view(references@))
                && e@ == VirtualMachineErrorValue::Unexpected,
        },
{
    let ghost names = names_view(reference_ids@);
    let ghost refs = references_view(references@);
    let mut ids_data: Vec<(String, HintReference)> = Vec::new();
    let mut i: usize = 0;
    assert(ids_map(ids_view(ids_data@)) =~= Map::<Seq<char>, HintReferenceValue>::empty());
    while i < reference_ids.len()
        invariant
            i <= reference_ids@.len(),
            names == names_view(reference_ids@),
            refs == references_view(references@),
            all_ids_known(names.subrange(0, i as int), refs),
            ids_map(ids_view(ids_data@)) == spec_ids_data(names.subrange(0, i as int), refs),
        decreases reference_ids@.len() - i,
    {
        let name = last_path_component(&reference_ids[i].0);
        let reference = match find_reference(references, reference_ids[i].1) {
            Some(x) => x,
            None => {
                proof {
                    assert(names[i as int].1 == reference_ids@[i as int].1);
                    assert(assoc_get(refs, names[i as int].1) is None);
                }
                return Err(VirtualMachineError::Unexpected);
            },
        };
        assoc_insert(&mut ids_data, name, reference);
        proof {
            let s = names.subrange(0, i + 1);
            assert(s.drop_last() =~= names.subrange(0, i as int));
            assert(s.last() == names[i as int]);
            assert forall|j: int| 0 <= j < s.len() implies #[trigger] assoc_get(refs, s[j].1) is Some by {
                if j < i {
                    assert(s[j] == names.subrange(0, i as int)[j]);
                }
            }
        }
        i = i + 1;
    }
    assert(names.subrange(0, i as int) =~= names);
    Ok(ids_data)
}

/// What a hint carries from compilation to execution.
pub struct HintProcessorData {
    pub code: String,
    pub ap_tracking: ApTracking,
    pub ids_data: Vec<(String, HintReference)>,
}

/// Executes hints; `compile_hint` turns a hint's code and references into
/// the data that `execute_hint` receives.
pub trait HintProcessor {
    /// Executes the hint whose data `compile_hint` produced, with the
    /// program's constants.
    fn execute_hint(
        &mut self,
        vm: &mut VirtualMachine,
        hint_data: &HintProcessorData,
        constants: &Vec<(String, BigInt)>,
    ) -> Result<(), VirtualMachineError>;

    /// Collects the code, the `ap` tracking data and the variables of a hint.
    fn compile_hint(
        &self,
        hint_code: &str,
        ap_tracking_data: &ApTracking,
        reference_ids: &Vec<(String, usize)>,
        references: &Vec<(usize, HintReference)>,
    ) -> (r: Result<HintProcessorData, VirtualMachineError>)
        ensures
            match r {
                Ok(d) => d.code@ == hint_code@ && d.ap_tracking == *ap_tracking_data
                    && all_ids_known(names_view(reference_ids@), references_view(references@))
                    && ids_map(ids_view(d.ids_data@)) == spec_ids_data(
                    names_view(reference_ids@),
                    references_view(references@),
                ),
                Err(e) => !all_ids_known(names_view(reference_ids@), references_view(references@))
                    && e@ == VirtualMachineErrorValue::Unexpected,
            },
    {
        let ids_data = get_ids_data(reference_ids, references)?;
        Ok(HintProcessorData { code: hint_code.to_owned(), ap_tracking: *ap_tracking_data, ids_data })
    }
}

/// The name a path is stored under is the part after its last '.': no '.'
/// inside a name, a name with no '.' is its own, and a name after a '.' is
/// kept whatever precedes the '.'.
pub proof fn lemma_last_component(prefix: Seq<char>, name: Seq<char>)
    requires
        forall|i: int| 0 <= i < name.len() ==> name[i] != '.',
    ensures
        last_component(name) == name,
        last_component(prefix + seq!['.'] + name) == name,
    decreases name.len(),
{
    if name.len() > 0 {
        lemma_last_component(prefix, name.drop_last());
        assert(name.drop_last().push(name.last()) =~= name);
        let s = prefix + seq!['.'] + name;
        assert(s.drop_last() =~= prefix + seq!['.'] + name.drop_last());
        assert(s.last() == name.last());
    } else {
        assert(prefix + seq!['.'] + name =~= (prefix + seq!['.']));
        assert(name =~= Seq::<char>::empty());
    }
}

/// The name a path is stored under never holds a '.' and ends the path.
pub proof fn lemma_last_component_is_dotless_suffix(path: Seq<char>)
    ensures
        forall|i: int| 0 <= i < last_component(path).len() ==> last_component(path)[i] != '.',
        last_component(path).len() <= path.len(),
        path.subrange(path.len() - last_component(path).len(), path.len() as int) == last_component(
            path,
        ),
        last_component(path).len() < path.len() ==> path[path.len() - last_component(path).len() - 1]
            == '.',
    decreases path.len(),
{
    if path.len() > 0 && path.last() != '.' {
        let p = path.drop_last();
        lemma_last_component_is_dotless_suffix(p);
        let c = last_component(p);
        assert(path.subrange(path.len() - c.len() - 1, path.len() as int) =~= p.subrange(
            p.len() - c.len(),
            p.len() as int,
        ).push(path.last()));
        if c.len() < p.len() {
            assert(path[path.len() - c.len() - 2] == p[p.len() - c.len() - 1]);
        }
    } else if path.len() > 0 {
        assert(path.subrange(path.len() as int, path.len() as int) =~= Seq::<char>::empty());
    } else {
        assert(path.subrange(0, 0) =~= path);
    }
}

} // verus!
