//! Effects: the reflected parameter classes and types, the stable child
//! collections (annotations, parameters, passes, techniques) and how a
//! lookup in one is cross-checked with the runtime, and the small checks
//! around effect views, bytecode and value arrays.

#![allow(non_snake_case)]

use vstd::prelude::*;

use crate::error::{CnaError, InputError, NativeFault, Unsupported};
use crate::resource::INVALID_HANDLE;

verus! {

/// XNA `EffectParameterClass`.
#[derive(Clone, Copy, Debug, Eq, Hash, PartialEq, Structural)]
pub enum EffectParameterClass {
    Scalar,
    Vector,
    Matrix,
    Object,
    Struct,
}

impl EffectParameterClass {
    /// The number XNA gives the class.
    pub open spec fn spec_value(self) -> i32 {
        match self {
            EffectParameterClass::Scalar => 0,
            EffectParameterClass::Vector => 1,
            EffectParameterClass::Matrix => 2,
            EffectParameterClass::Object => 3,
            EffectParameterClass::Struct => 4,
        }
    }

    /// The number XNA gives the class.
    pub fn value(self) -> (r: i32)
        ensures
            r == self.spec_value(),
    {
        match self {
            EffectParameterClass::Scalar => 0,
            EffectParameterClass::Vector => 1,
            EffectParameterClass::Matrix => 2,
            EffectParameterClass::Object => 3,
            EffectParameterClass::Struct => 4,
        }
    }

    /// The class the runtime's number names; the runtime numbers classes as
    /// XNA does.
    pub fn from_native(value: u32) -> (r: Result<Self, CnaError>)
        ensures
            value <= 4 ==> r is Ok && r->Ok_0.spec_value() == value,
            value > 4 ==> r == Err::<Self, CnaError>(CnaError::Native(NativeFault::UnknownEffectParameterClass)),
    {
        match value {
            0 => Ok(EffectParameterClass::Scalar),
            1 => Ok(EffectParameterClass::Vector),
            2 => Ok(EffectParameterClass::Matrix),
            3 => Ok(EffectParameterClass::Object),
            4 => Ok(EffectParameterClass::Struct),
            _ => Err(CnaError::Native(NativeFault::UnknownEffectParameterClass)),
        }
    }
}

/// XNA `EffectParameterType`.
#[derive(Clone, Copy, Debug, Eq, Hash, PartialEq, Structural)]
pub enum EffectParameterType {
    Void,
    Bool,
    Int32,
    Single,
    String,
    Texture,
    Texture1D,
    Texture2D,
    Texture3D,
    TextureCube,
}

impl EffectParameterType {
    /// The number XNA gives the type.
    pub open spec fn spec_value(self) -> i32 {
        match self {
            EffectParameterType::Void => 0,
            EffectParameterType::Bool => 1,
            EffectParameterType::Int32 => 2,
            EffectParameterType::Single => 3,
            EffectParameterType::String => 4,
            EffectParameterType::Texture => 5,
            EffectParameterType::Texture1D => 6,
            EffectParameterType::Texture2D => 7,
            EffectParameterType::Texture3D => 8,
            EffectParameterType::TextureCube => 9,
        }
    }

    /// The number XNA gives the type.
    pub fn value(self) -> (r: i32)
        ensures
            r == self.spec_value(),
    {
        match self {
            EffectParameterType::Void => 0,
            EffectParameterType::Bool => 1,
            EffectParameterType::Int32 => 2,
            EffectParameterType::Single => 3,
            EffectParameterType::String => 4,
            EffectParameterType::Texture => 5,
            EffectParameterType::Texture1D => 6,
            EffectParameterType::Texture2D => 7,
            EffectParameterType::Texture3D => 8,
            EffectParameterType::TextureCube => 9,
        }
    }

    /// The type the runtime's number names; the runtime numbers types as XNA
    /// does.
    pub fn from_native(value: u32) -> (r: Result<Self, CnaError>)
        ensures
            value <= 9 ==> r is Ok && r->Ok_0.spec_value() == value,
            value > 9 ==> r == Err::<Self, CnaError>(CnaError::Native(NativeFault::UnknownEffectParameterType)),
    {
        match value {
            0 => Ok(EffectParameterType::Void),
            1 => Ok(EffectParameterType::Bool),
            2 => Ok(EffectParameterType::Int32),
            3 => Ok(EffectParameterType::Single),
            4 => Ok(EffectParameterType::String),
            5 => Ok(EffectParameterType::Texture),
            6 => Ok(EffectParameterType::Texture1D),
            7 => Ok(EffectParameterType::Texture2D),
            8 => Ok(EffectParameterType::Texture3D),
            9 => Ok(EffectParameterType::TextureCube),
            _ => Err(CnaError::Native(NativeFault::UnknownEffectParameterType)),
        }
    }
}

/// The descriptor of a reflected technique and its pass names.
#[derive(Clone, Debug)]
pub struct EffectTechniqueDescriptor {
    pub name: String,
    pub passes: Vec<String>,
}

/// Checks effect bytecode before it goes to the runtime: there must be some.
pub fn check_effect_code(length: usize) -> (r: Result<(), CnaError>)
    ensures
        length == 0 ==> r == Err::<(), CnaError>(CnaError::InvalidInput(InputError::EffectCodeEmpty)),
        length != 0 ==> r is Ok,
{
    if length == 0 {
        return Err(CnaError::InvalidInput(InputError::EffectCodeEmpty));
    }
    Ok(())
}

/// The handle of an effect child view: its effect must still be usable
/// (`owner` is the effect's answer) and the view must hold a handle.
pub fn effect_view_handle(owner: Result<u64, CnaError>, handle: u64) -> (r: Result<u64, CnaError>)
    ensures
        owner is Err ==> r == owner,
        owner is Ok && handle == INVALID_HANDLE ==> r == Err::<u64, CnaError>(CnaError::InvalidInput(InputError::EffectViewDisposed)),
        owner is Ok && handle != INVALID_HANDLE ==> r == Ok::<u64, CnaError>(handle),
{
    owner?;
    if handle == INVALID_HANDLE {
        Err(CnaError::InvalidInput(InputError::EffectViewDisposed))
    } else {
        Ok(handle)
    }
}

/// The element count a value-array read asks for, which cannot be negative.
pub fn effect_array_count(count: i32) -> (r: Result<usize, CnaError>)
    ensures
        count >= 0 ==> r == Ok::<usize, CnaError>(count as usize),
        count < 0 ==> r == Err::<usize, CnaError>(CnaError::InvalidInput(InputError::EffectArrayCountNegative)),
{
    if count < 0 {
        return Err(CnaError::InvalidInput(InputError::EffectArrayCountNegative));
    }
    Ok(count as usize)
}

/// The number of children the runtime reports for a collection, as a
/// length.
pub fn collection_count(count: u64) -> (r: Result<usize, CnaError>)
    ensures
        count <= usize::MAX ==> r == Ok::<usize, CnaError>(count as usize),
        count > usize::MAX ==> r == Err::<usize, CnaError>(CnaError::Native(NativeFault::EffectCollectionTooLarge)),
{
    if count > usize::MAX as u64 {
        return Err(CnaError::Native(NativeFault::EffectCollectionTooLarge));
    }
    Ok(count as usize)
}

/// A collection's length as XNA's `Count`.
pub fn checked_count(count: usize) -> (r: Result<i32, CnaError>)
    ensures
        count <= i32::MAX ==> r == Ok::<i32, CnaError>(count as i32),
        count > i32::MAX ==> r == Err::<i32, CnaError>(CnaError::Native(NativeFault::EffectCountExceedsInt32)),
{
    if count > 0x7fff_ffff {
        return Err(CnaError::Native(NativeFault::EffectCountExceedsInt32));
    }
    Ok(count as i32)
}

/// The answer of a lookup in a stable collection, cross-checked with the
/// runtime's own search: they must agree on whether the child exists.
pub fn verified_cached_lookup<T>(found: bool, cached: Option<T>) -> (r: Result<Option<T>, CnaError>)
    ensures
        found == cached is Some ==> r == Ok::<Option<T>, CnaError>(cached),
        found != cached is Some ==> r == Err::<Option<T>, CnaError>(CnaError::Native(NativeFault::EffectLookupDisagrees)),
{
    if found == cached.is_some() {
        Ok(cached)
    } else {
        Err(CnaError::Native(NativeFault::EffectLookupDisagrees))
    }
}

/// One child of an effect collection: its name, its semantic (empty for
/// kinds without one) and the child itself.
pub struct EffectChild<T> {
    pub name: String,
    pub semantic: String,
    pub value: T,
}

/// The children of one effect collection, in the order the runtime
/// enumerated them, kept stable for the collection's life.
pub struct EffectCollection<T> {
    items: Vec<EffectChild<T>>,
}

/// What a collection holds: each child's name, semantic and value.
pub open spec fn child_view<T>(child: EffectChild<T>) -> (Seq<char>, Seq<char>, T) {
    (child.name@, child.semantic@, child.value)
}

impl<T> View for EffectCollection<T> {
    type V = Seq<(Seq<char>, Seq<char>, T)>;

    closed spec fn view(&self) -> Seq<(Seq<char>, Seq<char>, T)> {
        Seq::new(self.items@.len(), |i: int| child_view(self.items@[i]))
    }
}

/// Whether the `k`-th child is the first whose name (or semantic) is `key`.
pub open spec fn is_first_child<T>(items: Seq<(Seq<char>, Seq<char>, T)>, key: Seq<char>, by_semantic: bool, k: int) -> bool {
    &&& 0 <= k < items.len()
    &&& (if by_semantic { items[k].1 } else { items[k].0 }) == key
    &&& forall|j: int| 0 <= j < k ==> (if by_semantic { (#[trigger] items[j]).1 } else { items[j].0 }) != key
}

/// Whether no child's name (or semantic) is `key`.
pub open spec fn no_child<T>(items: Seq<(Seq<char>, Seq<char>, T)>, key: Seq<char>, by_semantic: bool) -> bool {
    forall|j: int| 0 <= j < items.len() ==> (if by_semantic { (#[trigger] items[j]).1 } else { items[j].0 }) != key
}

impl<T: Clone> EffectCollection<T> {
    /// A collection of the children the runtime enumerated.
    pub fn new(items: Vec<EffectChild<T>>) -> (r: Self)
        ensures
            r@ == Seq::new(items@.len(), |i: int| child_view(items@[i])),
    {
        EffectCollection { items }
    }

    fn find(&self, key: &str, by_semantic: bool) -> (r: Option<usize>)
        ensures
            r matches Some(k) ==> is_first_child(self@, key@, by_semantic, k as int),
            r is None <==> no_child(self@, key@, by_semantic),
    {
        let wanted = String::from_str(key);
        let mut k: usize = 0;
        while k < self.items.len()
            invariant
                k <= self.items@.len(),
                wanted@ == key@,
                forall|j: int| 0 <= j < k ==> (if by_semantic { (#[trigger] self@[j]).1 } else { self@[j].0 }) != key@,
            decreases self.items@.len() - k,
        {
            let matches_key: bool = if by_semantic {
                self.items[k].semantic == wanted
            } else {
                self.items[k].name == wanted
            };
            assert(self@[k as int] == child_view(self.items@[k as int]));
            if matches_key {
                return Some(k);
            }
            k = k + 1;
        }
        None
    }

    /// XNA `this[name]` on an effect collection: the first child of that
    /// name, cloned, or `None`, cross-checked with the runtime's own search
    /// (`found`).
    pub fn Item(&self, name: &str, found: bool) -> (r: Result<Option<T>, CnaError>)
        ensures
            found == !no_child(self@, name@, false) ==> r is Ok,
            found != !no_child(self@, name@, false) ==> r == Err::<Option<T>, CnaError>(
                CnaError::Native(NativeFault::EffectLookupDisagrees),
            ),
            r matches Ok(Some(v)) ==> exists|k: int| is_first_child(self@, name@, false, k) && cloned(self@[k].2, v),
            r matches Ok(None) ==> no_child(self@, name@, false),
    {
        let cached = match self.find(name, false) {
            Some(k) => {
                let value = self.items[k].value.clone();
                assert(self@[k as int].2 == self.items@[k as int].value);
                Some(value)
            },
            None => None,
        };
        verified_cached_lookup(found, cached)
    }

    /// XNA `EffectParameterCollection.GetParameterBySemantic`: as `Item`,
    /// by semantic.
    pub fn GetParameterBySemantic(&self, semantic: &str, found: bool) -> (r: Result<Option<T>, CnaError>)
        ensures
            found == !no_child(self@, semantic@, true) ==> r is Ok,
            found != !no_child(self@, semantic@, true) ==> r == Err::<Option<T>, CnaError>(
                CnaError::Native(NativeFault::EffectLookupDisagrees),
            ),
            r matches Ok(Some(v)) ==> exists|k: int| is_first_child(self@, semantic@, true, k) && cloned(self@[k].2, v),
            r matches Ok(None) ==> no_child(self@, semantic@, true),
    {
        let cached = match self.find(semantic, true) {
            Some(k) => {
                let value = self.items[k].value.clone();
                assert(self@[k as int].2 == self.items@[k as int].value);
                Some(value)
            },
            None => None,
        };
        verified_cached_lookup(found, cached)
    }

    /// XNA `Count`, once the collection's view handle is checked.
    pub fn Count(&self, view: Result<u64, CnaError>) -> (r: Result<i32, CnaError>)
        ensures
            view is Err ==> r == Err::<i32, CnaError>(view->Err_0),
            view is Ok && self@.len() <= i32::MAX ==> r == Ok::<i32, CnaError>(self@.len() as i32),
            view is Ok && self@.len() > i32::MAX ==> r == Err::<i32, CnaError>(CnaError::Native(NativeFault::EffectCountExceedsInt32)),
    {
        match view {
            Err(e) => Err(e),
            Ok(_) => checked_count(self.items.len()),
        }
    }

    /// The child at `index`, cloned, once the view handle is checked.
    pub fn item_at(&self, view: Result<u64, CnaError>, index: i32) -> (r: Result<T, CnaError>)
        ensures
            view is Err ==> r == Err::<T, CnaError>(view->Err_0),
            view is Ok && index < 0 ==> r == Err::<T, CnaError>(CnaError::InvalidInput(InputError::EffectIndexNegative)),
            view is Ok && 0 <= index < self@.len() ==> r is Ok && cloned(self@[index as int].2, r->Ok_0),
            view is Ok && index >= 0 && index >= self@.len() ==> r == Err::<T, CnaError>(
                CnaError::InvalidInput(InputError::EffectIndexOutOfRange),
            ),
    {
        match view {
            Err(e) => return Err(e),
            Ok(_) => {},
        }
        if index < 0 {
            return Err(CnaError::InvalidInput(InputError::EffectIndexNegative));
        }
        let position: usize = index as usize;
        if position >= self.items.len() {
            return Err(CnaError::InvalidInput(InputError::EffectIndexOutOfRange));
        }
        let value = self.items[position].value.clone();
        assert(self@[index as int].2 == self.items@[index as int].value);
        Ok(value)
    }

    /// XNA `GetEnumerator`: every child, cloned, in order, once the view
    /// handle is checked.
    pub fn GetEnumerator(&self, view: Result<u64, CnaError>) -> (r: Result<Vec<T>, CnaError>)
        ensures
            view is Err ==> r == Err::<Vec<T>, CnaError>(view->Err_0),
            view is Ok ==> r is Ok && r->Ok_0@.len() == self@.len() && forall|k: int|
                0 <= k < self@.len() ==> cloned(self@[k].2, #[trigger] r->Ok_0@[k]),
    {
        match view {
            Err(e) => return Err(e),
            Ok(_) => {},
        }
        let mut out: Vec<T> = Vec::new();
        let mut i: usize = 0;
        while i < self.items.len()
            invariant
                i <= self.items@.len(),
                out@.len() == i,
                forall|k: int| 0 <= k < i ==> cloned(self@[k].2, #[trigger] out@[k]),
            decreases self.items@.len() - i,
        {
            out.push(self.items[i].value.clone());
            assert(self@[i as int].2 == self.items@[i as int].value);
            i = i + 1;
        }
        Ok(out)
    }
}

/// The technique the runtime reports as current: there must be one.
pub fn current_technique_handle(handle: u64) -> (r: Result<u64, CnaError>)
    ensures
        handle == INVALID_HANDLE ==> r == Err::<u64, CnaError>(CnaError::InvalidInput(InputError::NoCurrentTechnique)),
        handle != INVALID_HANDLE ==> r == Ok::<u64, CnaError>(handle),
{
    if handle == INVALID_HANDLE {
        return Err(CnaError::InvalidInput(InputError::NoCurrentTechnique));
    }
    Ok(handle)
}

/// The current technique, found by name among the effect's techniques; the
/// runtime's current technique must be one of them.
pub fn current_technique_from_lookup<T>(lookup: Result<Option<T>, CnaError>) -> (r: Result<T, CnaError>)
    ensures
        lookup matches Err(e) ==> r == Err::<T, CnaError>(e),
        lookup matches Ok(None) ==> r == Err::<T, CnaError>(CnaError::Native(NativeFault::CurrentTechniqueMissing)),
        lookup matches Ok(Some(t)) ==> r == Ok::<T, CnaError>(t),
{
    match lookup {
        Err(e) => Err(e),
        Ok(None) => Err(CnaError::Native(NativeFault::CurrentTechniqueMissing)),
        Ok(Some(technique)) => Ok(technique),
    }
}

/// The check before making a technique current: it must belong to this
/// effect.
pub fn check_technique_owner(same_effect: bool) -> (r: Result<(), CnaError>)
    ensures
        same_effect ==> r is Ok,
        !same_effect ==> r == Err::<(), CnaError>(CnaError::InvalidInput(InputError::TechniqueOfOtherEffect)),
{
    if !same_effect {
        return Err(CnaError::InvalidInput(InputError::TechniqueOfOtherEffect));
    }
    Ok(())
}

/// What cloning a reflected effect asks of the clone once the runtime
/// reports how many parameters and techniques the clone already holds.
#[derive(Clone, Copy, Debug, PartialEq, Eq, Structural)]
pub enum ReflectionCloneStep {
    /// The clone holds only its default technique: build the reflected
    /// graph again from the source's descriptors.
    Rebuild,
    /// The runtime already copied the whole reflected graph.
    Keep,
}

/// The verdict on a clone of a reflected effect: a clone with no parameter
/// and only the default technique is rebuilt from the descriptors; one
/// that holds every described parameter and every described technique
/// besides the default one is kept; any other is a partial copy.
pub fn reflection_clone_step(
    parameter_count: usize,
    technique_count: usize,
    described_parameters: usize,
    described_techniques: usize,
) -> (r: Result<ReflectionCloneStep, CnaError>)
    ensures
        parameter_count == 0 && technique_count == 1 ==> r == Ok::<ReflectionCloneStep, CnaError>(ReflectionCloneStep::Rebuild),
        !(parameter_count == 0 && technique_count == 1) && parameter_count == described_parameters && technique_count
            == (if described_techniques == usize::MAX { usize::MAX as int } else { described_techniques + 1 })
            ==> r == Ok::<ReflectionCloneStep, CnaError>(ReflectionCloneStep::Keep),
        !(parameter_count == 0 && technique_count == 1) && !(parameter_count == described_parameters && technique_count
            == (if described_techniques == usize::MAX { usize::MAX as int } else { described_techniques + 1 }))
            ==> r == Err::<ReflectionCloneStep, CnaError>(CnaError::Native(NativeFault::ReflectionClonedPartially)),
{
    let expected_techniques: usize = described_techniques.saturating_add(1);
    if parameter_count == 0 && technique_count == 1 {
        Ok(ReflectionCloneStep::Rebuild)
    } else if parameter_count != described_parameters || technique_count != expected_techniques {
        Err(CnaError::Native(NativeFault::ReflectionClonedPartially))
    } else {
        Ok(ReflectionCloneStep::Keep)
    }
}

/// One native step of building an effect's reflected graph.
#[derive(Clone, Copy, Debug, PartialEq, Eq, Structural)]
pub enum ReflectionStep {
    /// Open the effect's parameter collection.
    OpenParameters,
    /// Add the described parameter.
    AddParameter { parameter: usize },
    /// Open that parameter's annotation collection.
    OpenAnnotations { parameter: usize },
    /// Create the described annotation and add it to its parameter.
    AddAnnotation { parameter: usize, annotation: usize },
    /// Open the effect's technique collection.
    OpenTechniques,
    /// Add the described technique.
    AddTechnique { technique: usize },
    /// Open that technique's pass collection.
    OpenPasses { technique: usize },
    /// Add the described pass.
    AddPass { technique: usize, pass: usize },
    /// Make the technique the effect's current one.
    MakeCurrent { technique: usize },
}

/// The steps that build parameter `i` with `n` annotations.
pub open spec fn parameter_steps(i: usize, n: usize) -> Seq<ReflectionStep> {
    seq![ReflectionStep::AddParameter { parameter: i }, ReflectionStep::OpenAnnotations { parameter: i }]
        + Seq::new(n as nat, |a: int| ReflectionStep::AddAnnotation { parameter: i, annotation: a as usize })
}

/// The steps that build technique `t` with `n` passes; the first technique
/// becomes the current one once its passes are in place.
pub open spec fn technique_steps(t: usize, n: usize) -> Seq<ReflectionStep> {
    seq![ReflectionStep::AddTechnique { technique: t }, ReflectionStep::OpenPasses { technique: t }]
        + Seq::new(n as nat, |p: int| ReflectionStep::AddPass { technique: t, pass: p as usize })
        + if t == 0 { seq![ReflectionStep::MakeCurrent { technique: 0 }] } else { Seq::empty() }
}

/// The steps that build the first `k` parameters.
pub open spec fn parameters_steps(annotation_counts: Seq<usize>, k: nat) -> Seq<ReflectionStep>
    decreases k,
{
    if k == 0 {
        Seq::empty()
    } else {
        parameters_steps(annotation_counts, (k - 1) as nat) + parameter_steps((k - 1) as usize, annotation_counts[k - 1])
    }
}

/// The steps that build the first `k` techniques.
pub open spec fn techniques_steps(pass_counts: Seq<usize>, k: nat) -> Seq<ReflectionStep>
    decreases k,
{
    if k == 0 {
        Seq::empty()
    } else {
        techniques_steps(pass_counts, (k - 1) as nat) + technique_steps((k - 1) as usize, pass_counts[k - 1])
    }
}

/// The steps that build a reflected graph: the parameters in order, each
/// with its annotations, then the techniques in order, each with its
/// passes.
pub open spec fn spec_reflection_steps(annotation_counts: Seq<usize>, pass_counts: Seq<usize>) -> Seq<ReflectionStep> {
    seq![ReflectionStep::OpenParameters] + parameters_steps(annotation_counts, annotation_counts.len())
        + seq![ReflectionStep::OpenTechniques] + techniques_steps(pass_counts, pass_counts.len())
}

/// Plans the native steps that build an effect's reflected graph from its
/// descriptors, given each parameter's annotation count and each
/// technique's pass count. The caller performs them in order, moving on
/// as `advance_reflection` says, so the first refusal stops the build.
pub fn reflection_steps(annotation_counts: &Vec<usize>, pass_counts: &Vec<usize>) -> (r: Vec<ReflectionStep>)
    ensures
        r@ == spec_reflection_steps(annotation_counts@, pass_counts@),
{
    let mut steps: Vec<ReflectionStep> = Vec::new();
    steps.push(ReflectionStep::OpenParameters);
    let mut i: usize = 0;
    while i < annotation_counts.len()
        invariant
            i <= annotation_counts@.len(),
            steps@ == seq![ReflectionStep::OpenParameters] + parameters_steps(annotation_counts@, i as nat),
        decreases annotation_counts@.len() - i,
    {
        let ghost before = steps@;
        steps.push(ReflectionStep::AddParameter { parameter: i });
        steps.push(ReflectionStep::OpenAnnotations { parameter: i });
        let n = annotation_counts[i];
        let mut a: usize = 0;
        while a < n
            invariant
                a <= n,
                steps@ == before + seq![ReflectionStep::AddParameter { parameter: i }, ReflectionStep::OpenAnnotations { parameter: i }]
                    + Seq::new(a as nat, |b: int| ReflectionStep::AddAnnotation { parameter: i, annotation: b as usize }),
            decreases n - a,
        {
            steps.push(ReflectionStep::AddAnnotation { parameter: i, annotation: a });
            a = a + 1;
            assert(steps@ =~= before + seq![ReflectionStep::AddParameter { parameter: i }, ReflectionStep::OpenAnnotations { parameter: i }]
                + Seq::new(a as nat, |b: int| ReflectionStep::AddAnnotation { parameter: i, annotation: b as usize }));
        }
        assert(steps@ =~= seq![ReflectionStep::OpenParameters] + parameters_steps(annotation_counts@, i as nat + 1));
        i = i + 1;
    }
    steps.push(ReflectionStep::OpenTechniques);
    let ghost head = steps@;
    assert(head =~= seq![ReflectionStep::OpenParameters] + parameters_steps(annotation_counts@, annotation_counts@.len())
        + seq![ReflectionStep::OpenTechniques]);
    let mut t: usize = 0;
    while t < pass_counts.len()
        invariant
            t <= pass_counts@.len(),
            steps@ == head + techniques_steps(pass_counts@, t as nat),
        decreases pass_counts@.len() - t,
    {
        let ghost before = steps@;
        steps.push(ReflectionStep::AddTechnique { technique: t });
        steps.push(ReflectionStep::OpenPasses { technique: t });
        let n = pass_counts[t];
        let mut p: usize = 0;
        while p < n
            invariant
                p <= n,
                steps@ == before + seq![ReflectionStep::AddTechnique { technique: t }, ReflectionStep::OpenPasses { technique: t }]
                    + Seq::new(p as nat, |q: int| ReflectionStep::AddPass { technique: t, pass: q as usize }),
            decreases n - p,
        {
            steps.push(ReflectionStep::AddPass { technique: t, pass: p });
            p = p + 1;
            assert(steps@ =~= before + seq![ReflectionStep::AddTechnique { technique: t }, ReflectionStep::OpenPasses { technique: t }]
                + Seq::new(p as nat, |q: int| ReflectionStep::AddPass { technique: t, pass: q as usize }));
        }
        if t == 0 {
            steps.push(ReflectionStep::MakeCurrent { technique: 0 });
        }
        assert(steps@ =~= head + techniques_steps(pass_counts@, t as nat + 1));
        t = t + 1;
    }
    steps
}

/// The next move of building a reflected graph, after the runtime answered
/// the step at `position` of a plan of `step_count` steps: a refusal stops
/// the build and is answered, and no later step is made; otherwise the
/// next step follows, until the plan is done.
pub fn advance_reflection(step_count: usize, position: usize, answer: Result<(), CnaError>) -> (r: Result<Option<usize>, CnaError>)
    requires
        position < step_count,
    ensures
        answer matches Err(e) ==> r == Err::<Option<usize>, CnaError>(e),
        answer is Ok && position + 1 < step_count ==> r == Ok::<Option<usize>, CnaError>(Some((position + 1) as usize)),
        answer is Ok && position + 1 == step_count ==> r == Ok::<Option<usize>, CnaError>(None),
{
    match answer {
        Err(error) => Err(error),
        Ok(_) => if position + 1 < step_count {
            Ok(Some(position + 1))
        } else {
            Ok(None)
        },
    }
}

/// The element count of an annotation's data, which the runtime takes as
/// a 64-bit count.
pub fn annotation_data_count(length: usize) -> (r: Result<u64, CnaError>)
    ensures
        length <= u64::MAX ==> r == Ok::<u64, CnaError>(length as u64),
        length > u64::MAX ==> r == Err::<u64, CnaError>(CnaError::InvalidInput(InputError::AnnotationDataTooLarge)),
{
    if length as u128 > u64::MAX as u128 {
        return Err(CnaError::InvalidInput(InputError::AnnotationDataTooLarge));
    }
    Ok(length as u64)
}

/// XNA `EffectParameter.GetValueTexture*`, after the runtime reported the
/// handle bound to the parameter: no texture for the invalid handle;
/// otherwise the texture this parameter was given, with that texture's own
/// answer for its handle, which must be the runtime's.
pub fn effect_texture_outcome<T>(native_handle: u64, retained: Option<(T, Result<u64, CnaError>)>) -> (r: Result<Option<T>, CnaError>)
    ensures
        native_handle == INVALID_HANDLE ==> r == Ok::<Option<T>, CnaError>(None),
        native_handle != INVALID_HANDLE && retained is None ==> r == Err::<Option<T>, CnaError>(
            CnaError::UnsupportedRuntime(Unsupported::EffectTextureNotAssigned),
        ),
        native_handle != INVALID_HANDLE ==> (retained matches Some((t, answer)) ==> r == match answer {
            Err(e) => Err::<Option<T>, CnaError>(e),
            Ok(handle) => if handle == native_handle {
                Ok::<Option<T>, CnaError>(Some(t))
            } else {
                Err(CnaError::Native(NativeFault::EffectTextureChangedOutside))
            },
        }),
{
    if native_handle == INVALID_HANDLE {
        return Ok(None);
    }
    match retained {
        None => Err(CnaError::UnsupportedRuntime(Unsupported::EffectTextureNotAssigned)),
        Some((texture, answer)) => match answer {
            Err(e) => Err(e),
            Ok(handle) => {
                if handle == native_handle {
                    Ok(Some(texture))
                } else {
                    Err(CnaError::Native(NativeFault::EffectTextureChangedOutside))
                }
            },
        },
    }
}

/// Each `EffectParameterClass` member carries the value XNA declares for it.
pub proof fn law_effect_parameter_class_values()
    ensures
        EffectParameterClass::Scalar.spec_value() == 0,
        EffectParameterClass::Vector.spec_value() == 1,
        EffectParameterClass::Matrix.spec_value() == 2,
        EffectParameterClass::Object.spec_value() == 3,
        EffectParameterClass::Struct.spec_value() == 4,
{
}

/// Each `EffectParameterType` member carries the value XNA declares for it.
pub proof fn law_effect_parameter_type_values()
    ensures
        EffectParameterType::Void.spec_value() == 0,
        EffectParameterType::Bool.spec_value() == 1,
        EffectParameterType::Int32.spec_value() == 2,
        EffectParameterType::Single.spec_value() == 3,
        EffectParameterType::String.spec_value() == 4,
        EffectParameterType::Texture.spec_value() == 5,
        EffectParameterType::Texture1D.spec_value() == 6,
        EffectParameterType::Texture2D.spec_value() == 7,
        EffectParameterType::Texture3D.spec_value() == 8,
        EffectParameterType::TextureCube.spec_value() == 9,
{
}

} // verus!
