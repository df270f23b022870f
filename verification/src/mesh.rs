//! The meshes of a model: each mesh's parts, the distinct effects its parts
//! draw with, and how that list follows a part that changes effect.
//!
//! The resources a part draws from, its tag and a mesh's bounding sphere are
//! carried through unchanged; the native identity of an effect is asked of
//! the runtime by the caller and handed in as an answer.

#![allow(non_snake_case)]

use vstd::prelude::*;

use crate::error::{CnaError, InputError};
use crate::model::{
    enumerator_current, enumerator_move_next, position_after_move, spec_current, spec_ensure_live, spec_move_next,
    validate_model_name, EnumeratorView, ModelLifetime,
};

verus! {

/// The check a pending part passes before its mesh is built: it must have
/// a vertex buffer, an index buffer and an effect, checked in that order.
pub fn check_pending_part(has_vertex_buffer: bool, has_index_buffer: bool, has_effect: bool) -> (r: Result<(), CnaError>)
    ensures
        !has_vertex_buffer ==> r == Err::<(), CnaError>(CnaError::InvalidInput(InputError::MeshPartNoVertexBuffer)),
        has_vertex_buffer && !has_index_buffer ==> r == Err::<(), CnaError>(
            CnaError::InvalidInput(InputError::MeshPartNoIndexBuffer),
        ),
        has_vertex_buffer && has_index_buffer && !has_effect ==> r == Err::<(), CnaError>(
            CnaError::InvalidInput(InputError::MeshPartNoEffect),
        ),
        has_vertex_buffer && has_index_buffer && has_effect ==> r == Ok::<(), CnaError>(()),
{
    if !has_vertex_buffer {
        return Err(CnaError::InvalidInput(InputError::MeshPartNoVertexBuffer));
    }
    if !has_index_buffer {
        return Err(CnaError::InvalidInput(InputError::MeshPartNoIndexBuffer));
    }
    if !has_effect {
        return Err(CnaError::InvalidInput(InputError::MeshPartNoEffect));
    }
    Ok(())
}

/// One mesh part as the content reader describes it: the buffers it draws
/// from, its tag, its effect and its ranges.
pub struct ModelMeshPartSpec<T, V, I, E> {
    pub vertex_buffer: V,
    pub index_buffer: I,
    pub tag: T,
    pub effect: Option<E>,
    pub vertex_offset: i32,
    pub num_vertices: i32,
    pub start_index: i32,
    pub primitive_count: i32,
}

/// One mesh as the content reader describes it.
pub struct ModelMeshSpec<S, T, V, I, E> {
    pub name: String,
    pub parent_bone: usize,
    pub bounding_sphere: S,
    pub tag: T,
    pub parts: Vec<ModelMeshPartSpec<T, V, I, E>>,
}

/// What the runtime answered about one part before its mesh is built:
/// whether its buffers and effect belong to the model's device, and the
/// native identity of its effect (`None` for a part without one).
#[derive(Clone, Copy, Debug)]
pub struct PartAnswers {
    pub same_device: bool,
    pub effect_identity: Option<Result<u64, CnaError>>,
}

/// Whether any of a part's ranges is negative.
pub open spec fn ranges_negative<T, V, I, E>(part: ModelMeshPartSpec<T, V, I, E>) -> bool {
    part.vertex_offset < 0 || part.num_vertices < 0 || part.start_index < 0 || part.primitive_count < 0
}

/// The verdict on one part: its resources must belong to the model's
/// device, its ranges must not be negative, and its effect must report
/// an identity.
pub open spec fn spec_part_outcome<T, V, I, E>(part: ModelMeshPartSpec<T, V, I, E>, answers: PartAnswers) -> Result<
    (),
    CnaError,
> {
    if !answers.same_device {
        Err(CnaError::InvalidInput(InputError::MeshResourcesOtherDevice))
    } else if ranges_negative(part) {
        Err(CnaError::InvalidInput(InputError::MeshPartRangeNegative))
    } else {
        match answers.effect_identity {
            Some(Err(e)) => Err(e),
            _ => Ok(()),
        }
    }
}

/// The first failing verdict among the first `n` parts.
pub open spec fn spec_parts_outcome<T, V, I, E>(
    parts: Seq<ModelMeshPartSpec<T, V, I, E>>,
    answers: Seq<PartAnswers>,
    n: nat,
) -> Result<(), CnaError>
    decreases n,
{
    if n == 0 {
        Ok(())
    } else {
        match spec_parts_outcome(parts, answers, (n - 1) as nat) {
            Err(e) => Err(e),
            Ok(_) => spec_part_outcome(parts[n - 1], answers[n - 1]),
        }
    }
}

/// The verdict on one mesh: its parent bone must lie inside the bone table,
/// then every part is checked in order.
pub open spec fn spec_mesh_outcome<S, T, V, I, E>(
    bone_count: usize,
    mesh: ModelMeshSpec<S, T, V, I, E>,
    answers: Seq<PartAnswers>,
) -> Result<(), CnaError> {
    if mesh.parent_bone >= bone_count {
        Err(CnaError::InvalidInput(InputError::MeshParentBoneOutOfRange))
    } else {
        spec_parts_outcome(mesh.parts@, answers, mesh.parts@.len())
    }
}

/// The first failing verdict among the first `n` meshes.
pub open spec fn spec_meshes_outcome<S, T, V, I, E>(
    bone_count: usize,
    meshes: Seq<ModelMeshSpec<S, T, V, I, E>>,
    answers: Seq<Vec<PartAnswers>>,
    n: nat,
) -> Result<(), CnaError>
    decreases n,
{
    if n == 0 {
        Ok(())
    } else {
        match spec_meshes_outcome(bone_count, meshes, answers, (n - 1) as nat) {
            Err(e) => Err(e),
            Ok(_) => spec_mesh_outcome(bone_count, meshes[n - 1], answers[n - 1]@),
        }
    }
}

/// The answers describe the parts: one answer per part, with an identity
/// exactly for the parts that have an effect.
pub open spec fn answers_describe<T, V, I, E>(parts: Seq<ModelMeshPartSpec<T, V, I, E>>, answers: Seq<PartAnswers>) -> bool {
    &&& answers.len() == parts.len()
    &&& forall|k: int| 0 <= k < parts.len() ==> ((#[trigger] parts[k]).effect is Some <==> answers[k].effect_identity is Some)
}

/// Once a prefix of the parts fails, every longer prefix fails the same way.
proof fn lemma_parts_outcome_settles<T, V, I, E>(
    parts: Seq<ModelMeshPartSpec<T, V, I, E>>,
    answers: Seq<PartAnswers>,
    n: nat,
    m: nat,
)
    requires
        n <= m,
        spec_parts_outcome(parts, answers, n) is Err,
    ensures
        spec_parts_outcome(parts, answers, m) == spec_parts_outcome(parts, answers, n),
    decreases m,
{
    if m > n {
        lemma_parts_outcome_settles(parts, answers, n, (m - 1) as nat);
    }
}

/// Once a prefix of the meshes fails, every longer prefix fails the same way.
proof fn lemma_meshes_outcome_settles<S, T, V, I, E>(
    bone_count: usize,
    meshes: Seq<ModelMeshSpec<S, T, V, I, E>>,
    answers: Seq<Vec<PartAnswers>>,
    n: nat,
    m: nat,
)
    requires
        n <= m,
        spec_meshes_outcome(bone_count, meshes, answers, n) is Err,
    ensures
        spec_meshes_outcome(bone_count, meshes, answers, m) == spec_meshes_outcome(bone_count, meshes, answers, n),
    decreases m,
{
    if m > n {
        lemma_meshes_outcome_settles(bone_count, meshes, answers, n, (m - 1) as nat);
    }
}

/// Checks the parts of a mesh in order.
fn validate_parts<T, V, I, E>(parts: &Vec<ModelMeshPartSpec<T, V, I, E>>, answers: &Vec<PartAnswers>) -> (r: Result<(), CnaError>)
    requires
        answers@.len() == parts@.len(),
    ensures
        r == spec_parts_outcome(parts@, answers@, parts@.len()),
{
    let mut k: usize = 0;
    while k < parts.len()
        invariant
            k <= parts@.len(),
            answers@.len() == parts@.len(),
            spec_parts_outcome(parts@, answers@, k as nat) == Ok::<(), CnaError>(()),
        decreases parts@.len() - k,
    {
        let part = &parts[k];
        let answer = answers[k];
        let verdict: Result<(), CnaError> = if !answer.same_device {
            Err(CnaError::InvalidInput(InputError::MeshResourcesOtherDevice))
        } else if part.vertex_offset < 0 || part.num_vertices < 0 || part.start_index < 0 || part.primitive_count < 0 {
            Err(CnaError::InvalidInput(InputError::MeshPartRangeNegative))
        } else {
            match answer.effect_identity {
                Some(Err(e)) => Err(e),
                _ => Ok(()),
            }
        };
        if verdict.is_err() {
            proof {
                lemma_parts_outcome_settles(parts@, answers@, (k + 1) as nat, parts@.len());
            }
            return verdict;
        }
        k = k + 1;
    }
    Ok(())
}

/// Checks every mesh of a model in order, as the model reader does before
/// it builds any: the first failure is reported.
pub fn validate_meshes<S, T, V, I, E>(
    bone_count: usize,
    meshes: &Vec<ModelMeshSpec<S, T, V, I, E>>,
    answers: &Vec<Vec<PartAnswers>>,
) -> (r: Result<(), CnaError>)
    requires
        answers@.len() == meshes@.len(),
        forall|i: int| 0 <= i < meshes@.len() ==> (#[trigger] answers@[i])@.len() == meshes@[i].parts@.len(),
    ensures
        r == spec_meshes_outcome(bone_count, meshes@, answers@, meshes@.len()),
{
    let mut i: usize = 0;
    while i < meshes.len()
        invariant
            i <= meshes@.len(),
            answers@.len() == meshes@.len(),
            forall|j: int| 0 <= j < meshes@.len() ==> (#[trigger] answers@[j])@.len() == meshes@[j].parts@.len(),
            spec_meshes_outcome(bone_count, meshes@, answers@, i as nat) == Ok::<(), CnaError>(()),
        decreases meshes@.len() - i,
    {
        let mesh = &meshes[i];
        assert(answers@[i as int]@.len() == meshes@[i as int].parts@.len());
        let verdict = if mesh.parent_bone >= bone_count {
            Err(CnaError::InvalidInput(InputError::MeshParentBoneOutOfRange))
        } else {
            validate_parts(&mesh.parts, &answers[i])
        };
        if verdict.is_err() {
            proof {
                lemma_meshes_outcome_settles(bone_count, meshes@, answers@, (i + 1) as nat, meshes@.len());
            }
            return verdict;
        }
        i = i + 1;
    }
    Ok(())
}

/// What a mesh part holds.
pub struct ModelMeshPartView<T, V, I, E> {
    pub vertex_buffer: V,
    pub index_buffer: I,
    pub tag: T,
    pub effect: Option<E>,
    pub vertex_offset: i32,
    pub num_vertices: i32,
    pub start_index: i32,
    pub primitive_count: i32,
}

/// One part of a mesh: the buffers it draws from, its tag, its effect and
/// its ranges.
pub struct ModelMeshPart<T, V, I, E> {
    vertex_buffer: V,
    index_buffer: I,
    tag: T,
    effect: Option<E>,
    vertex_offset: i32,
    num_vertices: i32,
    start_index: i32,
    primitive_count: i32,
}

impl<T, V, I, E> View for ModelMeshPart<T, V, I, E> {
    type V = ModelMeshPartView<T, V, I, E>;

    closed spec fn view(&self) -> ModelMeshPartView<T, V, I, E> {
        ModelMeshPartView {
            vertex_buffer: self.vertex_buffer,
            index_buffer: self.index_buffer,
            tag: self.tag,
            effect: self.effect,
            vertex_offset: self.vertex_offset,
            num_vertices: self.num_vertices,
            start_index: self.start_index,
            primitive_count: self.primitive_count,
        }
    }
}

/// The part a description becomes.
pub open spec fn part_from_spec<T, V, I, E>(part: ModelMeshPartSpec<T, V, I, E>) -> ModelMeshPartView<T, V, I, E> {
    ModelMeshPartView {
        vertex_buffer: part.vertex_buffer,
        index_buffer: part.index_buffer,
        tag: part.tag,
        effect: part.effect,
        vertex_offset: part.vertex_offset,
        num_vertices: part.num_vertices,
        start_index: part.start_index,
        primitive_count: part.primitive_count,
    }
}

/// The identity an answer reports, when it reports one.
pub open spec fn identity_of(answer: Option<Result<u64, CnaError>>) -> Option<u64> {
    match answer {
        Some(Ok(identity)) => Some(identity),
        _ => None,
    }
}

/// The identities of a list of carriers.
pub open spec fn carrier_ids(carriers: Seq<(usize, u64)>) -> Seq<u64> {
    Seq::new(carriers.len(), |k: int| carriers[k].1)
}

/// Among the first `n` parts, the first part to carry each distinct effect
/// identity, with that identity, in part order. `identities` answers, part
/// by part, the identity of the part's effect (`None` for no effect).
pub open spec fn distinct_carriers(identities: Seq<Option<Result<u64, CnaError>>>, n: nat) -> Seq<(usize, u64)>
    decreases n,
{
    if n == 0 {
        Seq::empty()
    } else {
        let earlier = distinct_carriers(identities, (n - 1) as nat);
        match identity_of(identities[n - 1]) {
            Some(identity) => if carrier_ids(earlier).contains(identity) {
                earlier
            } else {
                earlier.push(((n - 1) as usize, identity))
            },
            None => earlier,
        }
    }
}

/// `effects` lists, in order, a clone of the effect of each part the
/// carriers name.
pub open spec fn lists_carried_effects<T, V, I, E: Clone>(
    effects: Seq<E>,
    parts: Seq<ModelMeshPartView<T, V, I, E>>,
    carriers: Seq<(usize, u64)>,
) -> bool {
    &&& effects.len() == carriers.len()
    &&& forall|k: int|
        #![trigger effects[k]]
        #![trigger carriers[k]]
        0 <= k < carriers.len() ==> {
            &&& carriers[k].0 < parts.len()
            &&& parts[carriers[k].0 as int].effect is Some
            &&& cloned(parts[carriers[k].0 as int].effect->0, effects[k])
        }
}

/// The identity answers of a mesh's parts.
pub open spec fn answer_identities(answers: Seq<PartAnswers>) -> Seq<Option<Result<u64, CnaError>>> {
    Seq::new(answers.len(), |k: int| answers[k].effect_identity)
}

/// What a mesh holds.
pub struct ModelMeshView<S, T, V, I, E> {
    pub name: Seq<char>,
    pub parent_bone: usize,
    pub bounding_sphere: S,
    pub tag: T,
    pub parts: Seq<ModelMeshPartView<T, V, I, E>>,
    pub effects: Seq<E>,
}

/// One mesh of a model: its name, its parent bone's place in the bone
/// table, its bounding sphere and tag, its parts, and the distinct effects
/// its parts draw with.
pub struct ModelMesh<S, T, V, I, E> {
    name: String,
    parent_bone: usize,
    bounding_sphere: S,
    tag: T,
    parts: Vec<ModelMeshPart<T, V, I, E>>,
    effects: Vec<E>,
}

impl<S, T, V, I, E> View for ModelMesh<S, T, V, I, E> {
    type V = ModelMeshView<S, T, V, I, E>;

    closed spec fn view(&self) -> ModelMeshView<S, T, V, I, E> {
        ModelMeshView {
            name: self.name@,
            parent_bone: self.parent_bone,
            bounding_sphere: self.bounding_sphere,
            tag: self.tag,
            parts: Seq::new(self.parts@.len(), |k: int| self.parts@[k]@),
            effects: self.effects@,
        }
    }
}

/// Whether `identity` is among `identities`.
fn contains_identity(identities: &Vec<u64>, identity: u64) -> (r: bool)
    ensures
        r == identities@.contains(identity),
{
    let mut i: usize = 0;
    while i < identities.len()
        invariant
            i <= identities@.len(),
            forall|j: int| 0 <= j < i ==> identities@[j] != identity,
        decreases identities@.len() - i,
    {
        if identities[i] == identity {
            return true;
        }
        i = i + 1;
    }
    false
}

/// Builds one mesh from its description, which passed its checks: its parts
/// in order, and a clone of the effect of the first part to carry each
/// distinct identity.
fn build_mesh<S, T, V, I, E: Clone>(mesh: ModelMeshSpec<S, T, V, I, E>, answers: &Vec<PartAnswers>) -> (r: ModelMesh<S, T, V, I, E>)
    requires
        answers_describe(mesh.parts@, answers@),
    ensures
        builds_mesh(r@, mesh, answers@),
{
    let ModelMeshSpec { name, parent_bone, bounding_sphere, tag, parts: mut rest } = mesh;
    let ghost initial_rest = rest@;
    let ghost identities = answer_identities(answers@);
    let n: usize = rest.len();
    let mut parts: Vec<ModelMeshPart<T, V, I, E>> = Vec::new();
    let mut effects: Vec<E> = Vec::new();
    let mut ids: Vec<u64> = Vec::new();
    let mut k: usize = 0;
    while k < n
        invariant
            n == initial_rest.len(),
            k <= n,
            answers_describe(initial_rest, answers@),
            identities == answer_identities(answers@),
            rest@ == initial_rest.skip(k as int),
            parts@.len() == k,
            forall|j: int| 0 <= j < k ==> (#[trigger] parts@[j])@ == part_from_spec(initial_rest[j]),
            ids@ == carrier_ids(distinct_carriers(identities, k as nat)),
            lists_carried_effects(
                effects@,
                Seq::new(k as nat, |j: int| part_from_spec(initial_rest[j])),
                distinct_carriers(identities, k as nat),
            ),
        decreases n - k,
    {
        let ghost old_effects = effects@;
        let part = rest.remove(0);
        assert(part == initial_rest[k as int]);
        assert(rest@ =~= initial_rest.skip(k as int + 1));
        let ghost carriers = distinct_carriers(identities, k as nat);
        let ghost grown = Seq::new(k as nat + 1, |j: int| part_from_spec(initial_rest[j]));
        match answers[k].effect_identity {
            Some(Ok(identity)) => {
                if !contains_identity(&ids, identity) {
                    match &part.effect {
                        Some(e) => {
                            effects.push(e.clone());
                            ids.push(identity);
                        },
                        None => {},
                    }
                }
            },
            _ => {},
        }
        parts.push(
            ModelMeshPart {
                vertex_buffer: part.vertex_buffer,
                index_buffer: part.index_buffer,
                tag: part.tag,
                effect: part.effect,
                vertex_offset: part.vertex_offset,
                num_vertices: part.num_vertices,
                start_index: part.start_index,
                primitive_count: part.primitive_count,
            },
        );
        proof {
            assert(identities[k as int] == answers@[k as int].effect_identity);
            let next = distinct_carriers(identities, k as nat + 1);
            assert(carrier_ids(next) =~= ids@);
            assert forall|c: int| 0 <= c < next.len() implies {
                &&& next[c].0 < grown.len()
                &&& grown[next[c].0 as int].effect is Some
                &&& cloned(grown[next[c].0 as int].effect->0, #[trigger] effects@[c])
            } by {
                if c < carriers.len() {
                    let old_parts = Seq::new(k as nat, |j: int| part_from_spec(initial_rest[j]));
                    assert(next[c] == carriers[c]);
                    assert(cloned(old_parts[carriers[c].0 as int].effect->0, old_effects[c]));
                    assert(old_parts[carriers[c].0 as int] == grown[carriers[c].0 as int]);
                }
            }
            assert(effects@.len() == next.len());
            assert(lists_carried_effects(effects@, grown, next));
        }
        k = k + 1;
    }
    let built = ModelMesh { name, parent_bone, bounding_sphere, tag, parts, effects };
    assert(built@.parts =~= Seq::new(initial_rest.len(), |j: int| part_from_spec(initial_rest[j])));
    built
}

/// What a description and its answers build into, once they pass their
/// checks: the described parts in order, and clones of the effects of the
/// first part to carry each distinct identity.
pub open spec fn builds_mesh<S, T, V, I, E: Clone>(
    built: ModelMeshView<S, T, V, I, E>,
    mesh: ModelMeshSpec<S, T, V, I, E>,
    answers: Seq<PartAnswers>,
) -> bool {
    &&& built.name == mesh.name@
    &&& built.parent_bone == mesh.parent_bone
    &&& built.bounding_sphere == mesh.bounding_sphere
    &&& built.tag == mesh.tag
    &&& built.parts == Seq::new(mesh.parts@.len(), |k: int| part_from_spec(mesh.parts@[k]))
    &&& lists_carried_effects(built.effects, built.parts, distinct_carriers(answer_identities(answers), mesh.parts@.len()))
}

/// The meshes of a model, in the order the content reader listed them.
pub struct ModelMeshCollection<S, T, V, I, E> {
    items: Vec<ModelMesh<S, T, V, I, E>>,
}

impl<S, T, V, I, E> View for ModelMeshCollection<S, T, V, I, E> {
    type V = Seq<ModelMeshView<S, T, V, I, E>>;

    closed spec fn view(&self) -> Seq<ModelMeshView<S, T, V, I, E>> {
        Seq::new(self.items@.len(), |i: int| self.items@[i]@)
    }
}

/// Builds a model's meshes: every mesh is checked first, in order, and the
/// first failure is reported; otherwise each mesh is built from its
/// description. `answers` holds, mesh by mesh and part by part, what the
/// runtime answered about the part.
pub fn build_meshes<S, T, V, I, E: Clone>(
    bone_count: usize,
    meshes: Vec<ModelMeshSpec<S, T, V, I, E>>,
    answers: &Vec<Vec<PartAnswers>>,
) -> (r: Result<ModelMeshCollection<S, T, V, I, E>, CnaError>)
    requires
        answers@.len() == meshes@.len(),
        forall|i: int| 0 <= i < meshes@.len() ==> answers_describe((#[trigger] meshes@[i]).parts@, answers@[i]@),
    ensures
        r is Err <==> spec_meshes_outcome(bone_count, meshes@, answers@, meshes@.len()) is Err,
        r matches Err(e) ==> spec_meshes_outcome(bone_count, meshes@, answers@, meshes@.len()) == Err::<(), CnaError>(e),
        r matches Ok(c) ==> c@.len() == meshes@.len() && forall|i: int|
            0 <= i < meshes@.len() ==> builds_mesh(#[trigger] c@[i], meshes@[i], answers@[i]@),
{
    proof {
        assert forall|i: int| 0 <= i < meshes@.len() implies (#[trigger] answers@[i])@.len() == meshes@[i].parts@.len() by {
            assert(answers_describe(meshes@[i].parts@, answers@[i]@));
        }
    }
    validate_meshes(bone_count, &meshes, answers)?;
    let ghost initial_rest = meshes@;
    let n: usize = meshes.len();
    let mut rest = meshes;
    let mut items: Vec<ModelMesh<S, T, V, I, E>> = Vec::new();
    let mut i: usize = 0;
    while i < n
        invariant
            n == initial_rest.len(),
            i <= n,
            answers@.len() == n,
            forall|j: int| 0 <= j < initial_rest.len() ==> answers_describe((#[trigger] initial_rest[j]).parts@, answers@[j]@),
            rest@ == initial_rest.skip(i as int),
            items@.len() == i,
            forall|j: int| 0 <= j < i ==> builds_mesh((#[trigger] items@[j])@, initial_rest[j], answers@[j]@),
        decreases n - i,
    {
        let mesh = rest.remove(0);
        assert(mesh == initial_rest[i as int]);
        assert(rest@ =~= initial_rest.skip(i as int + 1));
        let built = build_mesh(mesh, &answers[i]);
        items.push(built);
        i = i + 1;
    }
    let collection = ModelMeshCollection { items };
    assert forall|j: int| 0 <= j < initial_rest.len() implies builds_mesh(#[trigger] collection@[j], initial_rest[j], answers@[j]@) by {
        assert(collection@[j] == collection.items@[j]@);
    }
    Ok(collection)
}

/// The verdict of a read that only needs the graph to be live.
pub open spec fn live_read<A>(alive: bool, value: A) -> Result<A, CnaError> {
    match spec_ensure_live(alive) {
        Ok(_) => Ok(value),
        Err(e) => Err(e),
    }
}

impl<T: Clone, V, I, E: Clone> ModelMeshPart<T, V, I, E> {
    /// XNA `ModelMeshPart.Effect`: the part's effect, cloned.
    pub fn Effect(&self, lifetime: &ModelLifetime) -> (r: Result<Option<E>, CnaError>)
        ensures
            !lifetime@ ==> r == Err::<Option<E>, CnaError>(CnaError::InvalidInput(InputError::ModelGraphNotLive)),
            lifetime@ ==> r is Ok && (r->Ok_0 is Some <==> self@.effect is Some),
            r matches Ok(Some(e)) ==> cloned(self@.effect->0, e),
    {
        lifetime.ensure()?;
        match &self.effect {
            Some(effect) => Ok(Some(effect.clone())),
            None => Ok(None),
        }
    }

    /// XNA `ModelMeshPart.VertexBuffer`.
    pub fn VertexBuffer(&self, lifetime: &ModelLifetime) -> (r: Result<&V, CnaError>)
        ensures
            r == live_read(lifetime@, &self@.vertex_buffer),
    {
        lifetime.ensure()?;
        Ok(&self.vertex_buffer)
    }

    /// XNA `ModelMeshPart.IndexBuffer`.
    pub fn IndexBuffer(&self, lifetime: &ModelLifetime) -> (r: Result<&I, CnaError>)
        ensures
            r == live_read(lifetime@, &self@.index_buffer),
    {
        lifetime.ensure()?;
        Ok(&self.index_buffer)
    }

    /// XNA `ModelMeshPart.NumVertices`.
    pub fn NumVertices(&self, lifetime: &ModelLifetime) -> (r: Result<i32, CnaError>)
        ensures
            r == live_read(lifetime@, self@.num_vertices),
    {
        lifetime.ensure()?;
        Ok(self.num_vertices)
    }

    /// XNA `ModelMeshPart.PrimitiveCount`.
    pub fn PrimitiveCount(&self, lifetime: &ModelLifetime) -> (r: Result<i32, CnaError>)
        ensures
            r == live_read(lifetime@, self@.primitive_count),
    {
        lifetime.ensure()?;
        Ok(self.primitive_count)
    }

    /// XNA `ModelMeshPart.StartIndex`.
    pub fn StartIndex(&self, lifetime: &ModelLifetime) -> (r: Result<i32, CnaError>)
        ensures
            r == live_read(lifetime@, self@.start_index),
    {
        lifetime.ensure()?;
        Ok(self.start_index)
    }

    /// XNA `ModelMeshPart.VertexOffset`.
    pub fn VertexOffset(&self, lifetime: &ModelLifetime) -> (r: Result<i32, CnaError>)
        ensures
            r == live_read(lifetime@, self@.vertex_offset),
    {
        lifetime.ensure()?;
        Ok(self.vertex_offset)
    }

    /// XNA `ModelMeshPart.Tag`, cloned.
    pub fn Tag(&self, lifetime: &ModelLifetime) -> (r: Result<T, CnaError>)
        ensures
            !lifetime@ ==> r == Err::<T, CnaError>(CnaError::InvalidInput(InputError::ModelGraphNotLive)),
            lifetime@ ==> r is Ok && cloned(self@.tag, r->Ok_0),
    {
        lifetime.ensure()?;
        Ok(self.tag.clone())
    }

    /// XNA `ModelMeshPart.Tag` assignment; a dead graph is left unchanged.
    pub fn SetTag(&mut self, lifetime: &ModelLifetime, value: T) -> (r: Result<(), CnaError>)
        ensures
            r == spec_ensure_live(lifetime@),
            lifetime@ ==> final(self)@ == (ModelMeshPartView { tag: value, ..old(self)@ }),
            !lifetime@ ==> final(self)@ == old(self)@,
    {
        lifetime.ensure()?;
        self.tag = value;
        Ok(())
    }
}

/// Whether a part draws: it needs primitives and an effect.
pub open spec fn part_draws<T, V, I, E>(part: ModelMeshPartView<T, V, I, E>) -> bool {
    part.primitive_count > 0 && part.effect is Some
}

/// The places of the first `n` parts that draw, in order.
pub open spec fn drawn_parts<T, V, I, E>(parts: Seq<ModelMeshPartView<T, V, I, E>>, n: nat) -> Seq<usize>
    decreases n,
{
    if n == 0 {
        Seq::empty()
    } else if part_draws(parts[n - 1]) {
        drawn_parts(parts, (n - 1) as nat).push((n - 1) as usize)
    } else {
        drawn_parts(parts, (n - 1) as nat)
    }
}

impl<S: Copy, T: Clone, V, I, E: Clone> ModelMesh<S, T, V, I, E> {
    /// XNA `ModelMesh.Name`.
    pub fn Name(&self, lifetime: &ModelLifetime) -> (r: Result<String, CnaError>)
        ensures
            lifetime@ <==> r is Ok,
            !lifetime@ ==> r == Err::<String, CnaError>(CnaError::InvalidInput(InputError::ModelGraphNotLive)),
            r matches Ok(name) ==> name@ == self@.name,
    {
        lifetime.ensure()?;
        Ok(self.name.clone())
    }

    /// XNA `ModelMesh.ParentBone`: the parent bone's place in the bone table.
    pub fn ParentBone(&self, lifetime: &ModelLifetime) -> (r: Result<usize, CnaError>)
        ensures
            r == live_read(lifetime@, self@.parent_bone),
    {
        lifetime.ensure()?;
        Ok(self.parent_bone)
    }

    /// XNA `ModelMesh.BoundingSphere`.
    pub fn BoundingSphere(&self, lifetime: &ModelLifetime) -> (r: Result<S, CnaError>)
        ensures
            r == live_read(lifetime@, self@.bounding_sphere),
    {
        lifetime.ensure()?;
        Ok(self.bounding_sphere)
    }

    /// XNA `ModelMesh.Tag`, cloned.
    pub fn Tag(&self, lifetime: &ModelLifetime) -> (r: Result<T, CnaError>)
        ensures
            !lifetime@ ==> r == Err::<T, CnaError>(CnaError::InvalidInput(InputError::ModelGraphNotLive)),
            lifetime@ ==> r is Ok && cloned(self@.tag, r->Ok_0),
    {
        lifetime.ensure()?;
        Ok(self.tag.clone())
    }

    /// XNA `ModelMesh.Tag` assignment; a dead graph is left unchanged.
    pub fn SetTag(&mut self, lifetime: &ModelLifetime, value: T) -> (r: Result<(), CnaError>)
        ensures
            r == spec_ensure_live(lifetime@),
            lifetime@ ==> final(self)@ == (ModelMeshView { tag: value, ..old(self)@ }),
            !lifetime@ ==> final(self)@ == old(self)@,
    {
        lifetime.ensure()?;
        self.tag = value;
        Ok(())
    }

    /// XNA `ModelMesh.MeshParts`: every part, in order.
    pub fn MeshParts(&self, lifetime: &ModelLifetime) -> (r: Result<&[ModelMeshPart<T, V, I, E>], CnaError>)
        ensures
            lifetime@ <==> r is Ok,
            !lifetime@ ==> r is Err && r->Err_0 == CnaError::InvalidInput(InputError::ModelGraphNotLive),
            r matches Ok(parts) ==> parts@.len() == self@.parts.len() && forall|k: int|
                0 <= k < parts@.len() ==> (#[trigger] parts@[k])@ == self@.parts[k],
    {
        lifetime.ensure()?;
        Ok(self.parts.as_slice())
    }

    /// The number of parts.
    pub fn part_count(&self) -> (r: usize)
        ensures
            r == self@.parts.len(),
    {
        self.parts.len()
    }

    /// The part at `index`.
    pub fn part_at(&self, lifetime: &ModelLifetime, index: usize) -> (r: Result<&ModelMeshPart<T, V, I, E>, CnaError>)
        ensures
            !lifetime@ ==> r is Err && r->Err_0 == CnaError::InvalidInput(InputError::ModelGraphNotLive),
            lifetime@ && index >= self@.parts.len() ==> r is Err && r->Err_0 == CnaError::InvalidInput(
                InputError::MeshPartIndexOutOfRange,
            ),
            lifetime@ && index < self@.parts.len() ==> r is Ok && r->Ok_0@ == self@.parts[index as int],
    {
        lifetime.ensure()?;
        if index < self.parts.len() {
            Ok(&self.parts[index])
        } else {
            Err(CnaError::InvalidInput(InputError::MeshPartIndexOutOfRange))
        }
    }

    /// XNA `ModelMeshPartCollection.GetEnumerator`: an enumerator over the
    /// parts' places, before the first.
    pub fn MeshPartsEnumerator(&self, lifetime: &ModelLifetime) -> (r: Result<ModelMeshPartCollectionEnumerator, CnaError>)
        ensures
            lifetime@ <==> r is Ok,
            !lifetime@ ==> r is Err && r->Err_0 == CnaError::InvalidInput(InputError::ModelGraphNotLive),
            r matches Ok(e) ==> e@ == (EnumeratorView {
                items: Seq::new(self@.parts.len(), |k: int| k as usize),
                position: None,
                disposed: false,
            }),
    {
        lifetime.ensure()?;
        Ok(ModelMeshPartCollectionEnumerator::new(positions(self.parts.len())))
    }

    /// XNA `ModelMesh.Effects`, as its enumerator sees it: a snapshot of the
    /// distinct effects, each cloned, in order.
    pub fn Effects(&self, lifetime: &ModelLifetime) -> (r: Result<Vec<E>, CnaError>)
        ensures
            lifetime@ <==> r is Ok,
            !lifetime@ ==> r is Err && r->Err_0 == CnaError::InvalidInput(InputError::ModelGraphNotLive),
            r matches Ok(v) ==> v@.len() == self@.effects.len() && forall|k: int|
                0 <= k < v@.len() ==> cloned(self@.effects[k], #[trigger] v@[k]),
    {
        lifetime.ensure()?;
        let mut out: Vec<E> = Vec::new();
        let mut k: usize = 0;
        while k < self.effects.len()
            invariant
                k <= self.effects@.len(),
                out@.len() == k,
                forall|j: int| 0 <= j < k ==> cloned(self.effects@[j], #[trigger] out@[j]),
            decreases self.effects@.len() - k,
        {
            out.push(self.effects[k].clone());
            k = k + 1;
        }
        Ok(out)
    }

    /// The number of distinct effects.
    pub fn effect_count(&self, lifetime: &ModelLifetime) -> (r: Result<usize, CnaError>)
        ensures
            r == live_read(lifetime@, self@.effects.len() as usize),
    {
        lifetime.ensure()?;
        Ok(self.effects.len())
    }

    /// The distinct effect at `index`, cloned.
    pub fn effect_at(&self, lifetime: &ModelLifetime, index: usize) -> (r: Result<E, CnaError>)
        ensures
            !lifetime@ ==> r == Err::<E, CnaError>(CnaError::InvalidInput(InputError::ModelGraphNotLive)),
            lifetime@ && index >= self@.effects.len() ==> r == Err::<E, CnaError>(
                CnaError::InvalidInput(InputError::ModelEffectIndexOutOfRange),
            ),
            lifetime@ && index < self@.effects.len() ==> r is Ok && cloned(self@.effects[index as int], r->Ok_0),
    {
        lifetime.ensure()?;
        if index < self.effects.len() {
            Ok(self.effects[index].clone())
        } else {
            Err(CnaError::InvalidInput(InputError::ModelEffectIndexOutOfRange))
        }
    }

    /// The decision of XNA `ModelMesh.Draw`: the places of the parts that
    /// draw, in order; a part without primitives or effect is passed over.
    pub fn DrawParts(&self, lifetime: &ModelLifetime) -> (r: Result<Vec<usize>, CnaError>)
        ensures
            !lifetime@ ==> r is Err && r->Err_0 == CnaError::InvalidInput(InputError::ModelGraphNotLive),
            lifetime@ ==> r is Ok && r->Ok_0@ == drawn_parts(self@.parts, self@.parts.len()),
    {
        lifetime.ensure()?;
        let ghost parts = self@.parts;
        let mut out: Vec<usize> = Vec::new();
        let mut k: usize = 0;
        while k < self.parts.len()
            invariant
                k <= self.parts@.len(),
                parts == self@.parts,
                out@ == drawn_parts(parts, k as nat),
            decreases self.parts@.len() - k,
        {
            let part = &self.parts[k];
            assert(parts[k as int] == part@);
            let draws = match &part.effect {
                Some(_) => part.primitive_count > 0,
                None => false,
            };
            if draws {
                out.push(k);
            }
            k = k + 1;
        }
        Ok(out)
    }
}

/// The places `0..n`, in order.
fn positions(n: usize) -> (r: Vec<usize>)
    ensures
        r@ == Seq::new(n as nat, |k: int| k as usize),
{
    let mut out: Vec<usize> = Vec::new();
    let mut k: usize = 0;
    while k < n
        invariant
            k <= n,
            out@ == Seq::new(k as nat, |j: int| j as usize),
        decreases n - k,
    {
        out.push(k);
        k = k + 1;
        assert(out@ =~= Seq::new(k as nat, |j: int| j as usize));
    }
    out
}

/// XNA's positioned enumerator over a mesh's parts, by their places.
pub struct ModelMeshPartCollectionEnumerator {
    items: Vec<usize>,
    position: Option<usize>,
    disposed: bool,
}

impl View for ModelMeshPartCollectionEnumerator {
    type V = EnumeratorView;

    closed spec fn view(&self) -> EnumeratorView {
        EnumeratorView { items: self.items@, position: self.position, disposed: self.disposed }
    }
}

impl ModelMeshPartCollectionEnumerator {
    /// An enumerator over `items`, before the first.
    pub fn new(items: Vec<usize>) -> (r: Self)
        ensures
            r@ == (EnumeratorView { items: items@, position: None, disposed: false }),
    {
        ModelMeshPartCollectionEnumerator { items, position: None, disposed: false }
    }

    /// XNA `IEnumerator.MoveNext`.
    pub fn MoveNext(&mut self, lifetime: &ModelLifetime) -> (r: Result<bool, CnaError>)
        ensures
            r == spec_move_next(lifetime@, old(self)@.items.len() as usize, old(self)@.position, old(self)@.disposed),
            final(self)@ == (EnumeratorView {
                position: position_after_move(
                    lifetime@,
                    old(self)@.items.len() as usize,
                    old(self)@.position,
                    old(self)@.disposed,
                ),
                ..old(self)@
            }),
    {
        let length = self.items.len();
        enumerator_move_next(lifetime, length, &mut self.position, self.disposed)
    }

    /// XNA `IEnumerator.Current`: the place of the part the enumerator
    /// stands on.
    pub fn Current(&self, lifetime: &ModelLifetime) -> (r: Result<usize, CnaError>)
        ensures
            r == spec_current(lifetime@, self@.items, self@.position, self@.disposed),
    {
        enumerator_current(lifetime, &self.items, self.position, self.disposed)
    }

    /// XNA `IDisposable.Dispose`: later moves and reads fail.
    pub fn Dispose(&mut self) -> (r: Result<(), CnaError>)
        ensures
            r is Ok,
            final(self)@ == (EnumeratorView { position: None, disposed: true, ..old(self)@ }),
    {
        self.disposed = true;
        self.position = None;
        Ok(())
    }
}

/// Whether the `k`-th mesh is the first one named `name`.
pub open spec fn is_first_mesh_named<S, T, V, I, E>(meshes: Seq<ModelMeshView<S, T, V, I, E>>, name: Seq<char>, k: int) -> bool {
    &&& 0 <= k < meshes.len()
    &&& meshes[k].name == name
    &&& forall|j: int| 0 <= j < k ==> (#[trigger] meshes[j]).name != name
}

/// Whether no mesh is named `name`.
pub open spec fn no_mesh_named<S, T, V, I, E>(meshes: Seq<ModelMeshView<S, T, V, I, E>>, name: Seq<char>) -> bool {
    forall|j: int| 0 <= j < meshes.len() ==> (#[trigger] meshes[j]).name != name
}

impl<S, T, V, I, E> ModelMeshCollection<S, T, V, I, E> {
    /// The place of the first mesh named `key`.
    fn find_named(&self, key: &String) -> (r: Option<usize>)
        ensures
            r matches Some(k) ==> is_first_mesh_named(self@, key@, k as int),
            r is None <==> no_mesh_named(self@, key@),
    {
        let mut k: usize = 0;
        while k < self.items.len()
            invariant
                k <= self.items@.len(),
                forall|j: int| 0 <= j < k ==> (#[trigger] self@[j]).name != key@,
            decreases self.items@.len() - k,
        {
            assert(self@[k as int] == self.items@[k as int]@);
            if self.items[k].name == *key {
                return Some(k);
            }
            k = k + 1;
        }
        None
    }

    /// XNA `ModelMeshCollection[meshName]`: the first mesh of that name.
    pub fn Item(&self, lifetime: &ModelLifetime, meshName: &str) -> (r: Result<&ModelMesh<S, T, V, I, E>, CnaError>)
        ensures
            !lifetime@ ==> r is Err && r->Err_0 == CnaError::InvalidInput(InputError::ModelGraphNotLive),
            lifetime@ && meshName@.len() == 0 ==> r is Err && r->Err_0 == CnaError::InvalidInput(InputError::ModelNameEmpty),
            lifetime@ && meshName@.len() != 0 && no_mesh_named(self@, meshName@) ==> r is Err && r->Err_0
                == CnaError::InvalidInput(InputError::MeshNameNotFound),
            lifetime@ && meshName@.len() != 0 && !no_mesh_named(self@, meshName@) ==> r is Ok,
            r matches Ok(m) ==> exists|k: int| is_first_mesh_named(self@, meshName@, k) && #[trigger] self@[k] == m@,
    {
        lifetime.ensure()?;
        validate_model_name(meshName)?;
        let key = String::from_str(meshName);
        match self.find_named(&key) {
            Some(k) => {
                assert(self@[k as int] == self.items@[k as int]@);
                Ok(&self.items[k])
            },
            None => Err(CnaError::InvalidInput(InputError::MeshNameNotFound)),
        }
    }

    /// XNA `ModelMeshCollection.TryGetValue`: stores the place of the first
    /// mesh of that name, or `None`, and answers whether one was found.
    pub fn TryGetValue(&self, lifetime: &ModelLifetime, meshName: &str, value: &mut Option<usize>) -> (r: Result<bool, CnaError>)
        ensures
            !lifetime@ ==> r == Err::<bool, CnaError>(CnaError::InvalidInput(InputError::ModelGraphNotLive))
                && *final(value) == *old(value),
            lifetime@ && meshName@.len() == 0 ==> r == Err::<bool, CnaError>(CnaError::InvalidInput(InputError::ModelNameEmpty))
                && *final(value) == *old(value),
            lifetime@ && meshName@.len() != 0 ==> r == Ok::<bool, CnaError>(!no_mesh_named(self@, meshName@))
                && ((*final(value)) is None <==> no_mesh_named(self@, meshName@)),
            lifetime@ && meshName@.len() != 0 && (*final(value)) is Some ==> is_first_mesh_named(
                self@,
                meshName@,
                final(value)->0 as int,
            ),
    {
        lifetime.ensure()?;
        validate_model_name(meshName)?;
        let key = String::from_str(meshName);
        *value = self.find_named(&key);
        Ok(value.is_some())
    }

    /// XNA `ModelMeshCollection.GetEnumerator`: an enumerator over the
    /// meshes' places, before the first.
    pub fn GetEnumerator(&self, lifetime: &ModelLifetime) -> (r: Result<ModelMeshCollectionEnumerator, CnaError>)
        ensures
            lifetime@ <==> r is Ok,
            !lifetime@ ==> r is Err && r->Err_0 == CnaError::InvalidInput(InputError::ModelGraphNotLive),
            r matches Ok(e) ==> e@ == (EnumeratorView {
                items: Seq::new(self@.len(), |k: int| k as usize),
                position: None,
                disposed: false,
            }),
    {
        lifetime.ensure()?;
        Ok(ModelMeshCollectionEnumerator::new(positions(self.items.len())))
    }

    /// The number of meshes.
    pub fn count(&self) -> (r: usize)
        ensures
            r == self@.len(),
    {
        self.items.len()
    }

    /// The mesh at `index`.
    pub fn item_at(&self, lifetime: &ModelLifetime, index: usize) -> (r: Result<&ModelMesh<S, T, V, I, E>, CnaError>)
        ensures
            !lifetime@ ==> r is Err && r->Err_0 == CnaError::InvalidInput(InputError::ModelGraphNotLive),
            lifetime@ && index >= self@.len() ==> r is Err && r->Err_0 == CnaError::InvalidInput(InputError::MeshIndexOutOfRange),
            lifetime@ && index < self@.len() ==> r is Ok && r->Ok_0@ == self@[index as int],
    {
        lifetime.ensure()?;
        if index < self.items.len() {
            Ok(&self.items[index])
        } else {
            Err(CnaError::InvalidInput(InputError::MeshIndexOutOfRange))
        }
    }

    /// The mesh at `index`, to change its tag or a part's effect or tag.
    pub fn item_at_mut(&mut self, index: usize) -> (r: &mut ModelMesh<S, T, V, I, E>)
        requires
            index < old(self)@.len(),
        ensures
            r@ == old(self)@[index as int],
            final(self)@ == old(self)@.update(index as int, final(r)@),
    {
        &mut self.items[index]
    }
}

/// XNA's positioned enumerator over a model's meshes, by their places.
pub struct ModelMeshCollectionEnumerator {
    items: Vec<usize>,
    position: Option<usize>,
    disposed: bool,
}

impl View for ModelMeshCollectionEnumerator {
    type V = EnumeratorView;

    closed spec fn view(&self) -> EnumeratorView {
        EnumeratorView { items: self.items@, position: self.position, disposed: self.disposed }
    }
}

impl ModelMeshCollectionEnumerator {
    /// An enumerator over `items`, before the first.
    pub fn new(items: Vec<usize>) -> (r: Self)
        ensures
            r@ == (EnumeratorView { items: items@, position: None, disposed: false }),
    {
        ModelMeshCollectionEnumerator { items, position: None, disposed: false }
    }

    /// XNA `IEnumerator.MoveNext`.
    pub fn MoveNext(&mut self, lifetime: &ModelLifetime) -> (r: Result<bool, CnaError>)
        ensures
            r == spec_move_next(lifetime@, old(self)@.items.len() as usize, old(self)@.position, old(self)@.disposed),
            final(self)@ == (EnumeratorView {
                position: position_after_move(
                    lifetime@,
                    old(self)@.items.len() as usize,
                    old(self)@.position,
                    old(self)@.disposed,
                ),
                ..old(self)@
            }),
    {
        let length = self.items.len();
        enumerator_move_next(lifetime, length, &mut self.position, self.disposed)
    }

    /// XNA `IEnumerator.Current`: the place of the mesh the enumerator
    /// stands on.
    pub fn Current(&self, lifetime: &ModelLifetime) -> (r: Result<usize, CnaError>)
        ensures
            r == spec_current(lifetime@, self@.items, self@.position, self@.disposed),
    {
        enumerator_current(lifetime, &self.items, self.position, self.disposed)
    }

    /// XNA `IDisposable.Dispose`: later moves and reads fail.
    pub fn Dispose(&mut self) -> (r: Result<(), CnaError>)
        ensures
            r is Ok,
            final(self)@ == (EnumeratorView { position: None, disposed: true, ..old(self)@ }),
    {
        self.disposed = true;
        self.position = None;
        Ok(())
    }
}

/// The verdict on giving a part a new effect, before anything changes: the
/// graph must be live, a new effect must belong to the part's device, and
/// the current and the new effect must report identities. `Ok(false)` when
/// the identities are the same, so that nothing changes.
pub open spec fn spec_effect_change(
    alive: bool,
    has_value: bool,
    same_device: bool,
    previous: Option<Result<u64, CnaError>>,
    next: Option<Result<u64, CnaError>>,
) -> Result<bool, CnaError> {
    if !alive {
        Err(CnaError::InvalidInput(InputError::ModelGraphNotLive))
    } else if has_value && !same_device {
        Err(CnaError::InvalidInput(InputError::MeshPartEffectOtherDevice))
    } else {
        match previous {
            Some(Err(e)) => Err(e),
            _ => match next {
                Some(Err(e)) => Err(e),
                _ => Ok(identity_of(previous) != identity_of(next)),
            },
        }
    }
}

/// The first identity error among the first `n` answers, if any.
pub open spec fn first_identity_error(identities: Seq<Option<Result<u64, CnaError>>>, n: nat) -> Option<CnaError>
    decreases n,
{
    if n == 0 {
        None
    } else {
        match first_identity_error(identities, (n - 1) as nat) {
            Some(e) => Some(e),
            None => match identities[n - 1] {
                Some(Err(e)) => Some(e),
                _ => None,
            },
        }
    }
}

/// The parts after part `part` takes `value` as its effect.
pub open spec fn parts_with_effect<T, V, I, E>(
    parts: Seq<ModelMeshPartView<T, V, I, E>>,
    part: int,
    value: Option<E>,
) -> Seq<ModelMeshPartView<T, V, I, E>> {
    parts.update(part, ModelMeshPartView { effect: value, ..parts[part] })
}

/// Once a prefix of the answers holds an error, every longer prefix holds
/// the same first error.
proof fn lemma_first_identity_error_settles(identities: Seq<Option<Result<u64, CnaError>>>, n: nat, m: nat)
    requires
        n <= m,
        first_identity_error(identities, n) is Some,
    ensures
        first_identity_error(identities, m) == first_identity_error(identities, n),
    decreases m,
{
    if m > n {
        lemma_first_identity_error_settles(identities, n, (m - 1) as nat);
    }
}

impl<S, T, V, I, E: Clone> ModelMesh<S, T, V, I, E> {
    /// XNA `ModelMeshPart.Tag` assignment for the part at `part`; a dead
    /// graph, or a place past the parts, is left unchanged.
    pub fn SetPartTag(&mut self, lifetime: &ModelLifetime, part: usize, value: T) -> (r: Result<(), CnaError>)
        ensures
            !lifetime@ ==> r == Err::<(), CnaError>(CnaError::InvalidInput(InputError::ModelGraphNotLive))
                && final(self)@ == old(self)@,
            lifetime@ && part >= old(self)@.parts.len() ==> r == Err::<(), CnaError>(
                CnaError::InvalidInput(InputError::MeshPartIndexOutOfRange),
            ) && final(self)@ == old(self)@,
            lifetime@ && part < old(self)@.parts.len() ==> r == Ok::<(), CnaError>(()) && final(self)@ == (ModelMeshView {
                parts: old(self)@.parts.update(part as int, ModelMeshPartView { tag: value, ..old(self)@.parts[part as int] }),
                ..old(self)@
            }),
    {
        lifetime.ensure()?;
        if part >= self.parts.len() {
            return Err(CnaError::InvalidInput(InputError::MeshPartIndexOutOfRange));
        }
        let current = self.parts.remove(part);
        self.parts.insert(part, ModelMeshPart { tag: value, ..current });
        assert(self@.parts =~= old(self)@.parts.update(part as int, ModelMeshPartView { tag: value, ..old(self)@.parts[part as int] }));
        Ok(())
    }

    /// XNA `ModelMeshPart.Effect` assignment for the part at `part`, and the
    /// mesh's list of distinct effects rebuilt to follow it.
    ///
    /// `same_device` answers whether a new effect belongs to the part's
    /// device; `previous` and `next` are the identities the current and the
    /// new effect report, and `identities` those of every part's effect
    /// (the entry for `part` itself is not consulted: its identity is
    /// `next`). When the identities are the same nothing changes. Otherwise
    /// the part takes the new effect, then the list is rebuilt from the
    /// parts in order; an identity error met while rebuilding is reported
    /// and leaves the earlier list in place.
    #[verifier::loop_isolation(false)]
    pub fn SetPartEffect(
        &mut self,
        lifetime: &ModelLifetime,
        part: usize,
        value: Option<E>,
        same_device: bool,
        previous: Option<Result<u64, CnaError>>,
        next: Option<Result<u64, CnaError>>,
        identities: &Vec<Option<Result<u64, CnaError>>>,
    ) -> (r: Result<(), CnaError>)
        requires
            part < old(self)@.parts.len(),
            identities@.len() == old(self)@.parts.len(),
            (previous is Some) == (old(self)@.parts[part as int].effect is Some),
            (next is Some) == (value is Some),
            forall|k: int|
                0 <= k < old(self)@.parts.len() && k != part ==> ((#[trigger] identities@[k]) is Some
                    == old(self)@.parts[k].effect is Some),
        ensures
            spec_effect_change(lifetime@, value is Some, same_device, previous, next) matches Err(e) ==> r == Err::<(), CnaError>(e)
                && final(self)@ == old(self)@,
            spec_effect_change(lifetime@, value is Some, same_device, previous, next) == Ok::<bool, CnaError>(false)
                ==> r == Ok::<(), CnaError>(()) && final(self)@ == old(self)@,
            spec_effect_change(lifetime@, value is Some, same_device, previous, next) == Ok::<bool, CnaError>(true) ==> {
                &&& final(self)@ == (ModelMeshView {
                    parts: parts_with_effect(old(self)@.parts, part as int, value),
                    effects: final(self)@.effects,
                    ..old(self)@
                })
                &&& match first_identity_error(identities@.update(part as int, next), identities@.len()) {
                    Some(e) => r == Err::<(), CnaError>(e) && final(self)@.effects == old(self)@.effects,
                    None => r == Ok::<(), CnaError>(()) && lists_carried_effects(
                        final(self)@.effects,
                        final(self)@.parts,
                        distinct_carriers(identities@.update(part as int, next), identities@.len()),
                    ),
                }
            },
    {
        lifetime.ensure()?;
        if value.is_some() && !same_device {
            return Err(CnaError::InvalidInput(InputError::MeshPartEffectOtherDevice));
        }
        let previous_identity: Option<u64> = match previous {
            Some(Err(e)) => return Err(e),
            Some(Ok(identity)) => Some(identity),
            None => None,
        };
        let next_identity: Option<u64> = match next {
            Some(Err(e)) => return Err(e),
            Some(Ok(identity)) => Some(identity),
            None => None,
        };
        let unchanged: bool = match (previous_identity, next_identity) {
            (Some(a), Some(b)) => a == b,
            (None, None) => true,
            _ => false,
        };
        if unchanged {
            return Ok(());
        }
        let current = self.parts.remove(part);
        self.parts.insert(part, ModelMeshPart { effect: value, ..current });
        let ghost parts = parts_with_effect(old(self)@.parts, part as int, value);
        assert(self@.parts =~= parts);
        let ghost answers = identities@.update(part as int, next);
        let n: usize = self.parts.len();
        let mut rebuilt: Vec<E> = Vec::new();
        let mut ids: Vec<u64> = Vec::new();
        let mut k: usize = 0;
        while k < n
            invariant
                n == parts.len(),
                k <= n,
                part < n,
                identities@.len() == n,
                answers == identities@.update(part as int, next),
                answers.len() == n,
                self@.parts == parts,
                self@ == (ModelMeshView { parts, effects: old(self)@.effects, ..old(self)@ }),
                forall|j: int| 0 <= j < n ==> ((#[trigger] answers[j]) is Some == parts[j].effect is Some),
                first_identity_error(answers, k as nat) is None,
                ids@ == carrier_ids(distinct_carriers(answers, k as nat)),
                lists_carried_effects(rebuilt@, parts, distinct_carriers(answers, k as nat)),
                forall|c: int| 0 <= c < distinct_carriers(answers, k as nat).len() ==> (#[trigger] distinct_carriers(answers, k as nat)[c]).0 < k,
            decreases n - k,
        {
            let answer = if k == part {
                next
            } else {
                identities[k]
            };
            assert(answer == answers[k as int]);
            let ghost carriers = distinct_carriers(answers, k as nat);
            let ghost old_rebuilt = rebuilt@;
            match answer {
                Some(Err(e)) => {
                    proof {
                        assert(first_identity_error(answers, k as nat + 1) == Some(e));
                        lemma_first_identity_error_settles(answers, k as nat + 1, n as nat);
                    }
                    return Err(e);
                },
                Some(Ok(identity)) => {
                    if !contains_identity(&ids, identity) {
                        assert(self.parts@[k as int]@ == parts[k as int]);
                        match &self.parts[k].effect {
                            Some(effect) => {
                                rebuilt.push(effect.clone());
                                ids.push(identity);
                            },
                            None => {},
                        }
                    }
                },
                None => {},
            }
            proof {
                let grown = distinct_carriers(answers, k as nat + 1);
                assert(carrier_ids(grown) =~= ids@);
                assert forall|c: int| 0 <= c < grown.len() implies {
                    &&& grown[c].0 < parts.len()
                    &&& parts[grown[c].0 as int].effect is Some
                    &&& cloned(parts[grown[c].0 as int].effect->0, #[trigger] rebuilt@[c])
                } by {
                    if c < carriers.len() {
                        assert(grown[c] == carriers[c]);
                        assert(cloned(parts[carriers[c].0 as int].effect->0, old_rebuilt[c]));
                    }
                }
                assert(lists_carried_effects(rebuilt@, parts, grown));
                assert forall|c: int| 0 <= c < grown.len() implies (#[trigger] grown[c]).0 < k + 1 by {
                    if c < carriers.len() {
                        assert(grown[c] == carriers[c]);
                    }
                }
            }
            k = k + 1;
        }
        self.effects = rebuilt;
        Ok(())
    }
}

/// A mesh's effect list names each distinct effect identity of its parts
/// exactly once, at the first part that carries it, in part order.
pub proof fn law_effect_list_names_each_identity_once(identities: Seq<Option<Result<u64, CnaError>>>, n: nat)
    requires
        n <= identities.len() <= usize::MAX,
    ensures
        forall|a: int, b: int|
            0 <= a < b < distinct_carriers(identities, n).len() ==> #[trigger] distinct_carriers(identities, n)[a].1
                != #[trigger] distinct_carriers(identities, n)[b].1 && distinct_carriers(identities, n)[a].0
                < distinct_carriers(identities, n)[b].0,
        forall|k: int|
            0 <= k < n && #[trigger] identity_of(identities[k]) is Some ==> carrier_ids(distinct_carriers(identities, n)).contains(
                identity_of(identities[k])->0,
            ),
        forall|c: int|
            0 <= c < distinct_carriers(identities, n).len() ==> {
                let (position, identity) = #[trigger] distinct_carriers(identities, n)[c];
                &&& position < n
                &&& identity_of(identities[position as int]) == Some(identity)
                &&& forall|k: int| 0 <= k < position ==> identity_of(#[trigger] identities[k]) != Some(identity)
            },
    decreases n,
{
    if n > 0 {
        law_effect_list_names_each_identity_once(identities, (n - 1) as nat);
        let earlier = distinct_carriers(identities, (n - 1) as nat);
        let now = distinct_carriers(identities, n);
        match identity_of(identities[n - 1]) {
            Some(identity) => {
                if carrier_ids(earlier).contains(identity) {
                    assert(now == earlier);
                } else {
                    assert(now == earlier.push(((n - 1) as usize, identity)));
                    assert forall|a: int, b: int| 0 <= a < b < now.len() implies #[trigger] now[a].1 != #[trigger] now[b].1
                        && now[a].0 < now[b].0 by {
                        if b == earlier.len() {
                            assert(carrier_ids(earlier)[a] == earlier[a].1);
                            let (position, id) = earlier[a];
                            assert(position < n - 1);
                        }
                    }
                    assert forall|k: int| 0 <= k < n && #[trigger] identity_of(identities[k]) is Some implies carrier_ids(
                        now,
                    ).contains(identity_of(identities[k])->0) by {
                        if k < n - 1 {
                            let id = identity_of(identities[k])->0;
                            let w = choose|w: int| 0 <= w < carrier_ids(earlier).len() && carrier_ids(earlier)[w] == id;
                            assert(carrier_ids(now)[w] == id);
                        } else {
                            assert(carrier_ids(now)[earlier.len() as int] == identity);
                        }
                    }
                    assert forall|c: int| 0 <= c < now.len() implies {
                        let (position, id) = #[trigger] now[c];
                        &&& position < n
                        &&& identity_of(identities[position as int]) == Some(id)
                        &&& forall|k: int| 0 <= k < position ==> identity_of(#[trigger] identities[k]) != Some(id)
                    } by {
                        if c < earlier.len() {
                            assert(now[c] == earlier[c]);
                        } else {
                            assert forall|k: int| 0 <= k < n - 1 implies identity_of(#[trigger] identities[k]) != Some(identity) by {
                                if identity_of(identities[k]) == Some(identity) {
                                    assert(carrier_ids(earlier).contains(identity));
                                }
                            }
                        }
                    }
                }
            },
            None => {
                assert(now == earlier);
            },
        }
    }
}

} // verus!
