//! The model graph's bones: the shape a bone table must have, the children
//! each bone gets, lookup by name, the positioned enumerator XNA exposes,
//! copying transforms in and out, and the absolute transforms built by
//! composing each bone with its parent's.
//!
//! Bones live in one table per model; collections and parents name bones by
//! their position in that table. A model's liveness is one flag that every
//! accessor consults.

#![allow(non_snake_case)]

use vstd::prelude::*;

use crate::error::{CnaError, InputError};

verus! {

/// The liveness of one model graph, consulted by every accessor of its
/// bones, collections and enumerators.
pub struct ModelLifetime {
    alive: bool,
}

impl View for ModelLifetime {
    type V = bool;

    closed spec fn view(&self) -> bool {
        self.alive
    }
}

/// The verdict of a liveness check.
pub open spec fn spec_ensure_live(alive: bool) -> Result<(), CnaError> {
    if alive {
        Ok(())
    } else {
        Err(CnaError::InvalidInput(InputError::ModelGraphNotLive))
    }
}

impl ModelLifetime {
    /// A live graph.
    pub fn new() -> (r: Self)
        ensures
            r@,
    {
        ModelLifetime { alive: true }
    }

    /// `Ok` while the graph is live.
    pub fn ensure(&self) -> (r: Result<(), CnaError>)
        ensures
            r == spec_ensure_live(self@),
    {
        if self.alive {
            Ok(())
        } else {
            Err(CnaError::InvalidInput(InputError::ModelGraphNotLive))
        }
    }

    /// Ends the graph's life; every later access fails.
    pub fn invalidate(&mut self)
        ensures
            !final(self)@,
    {
        self.alive = false;
    }
}

/// One bone as the content reader describes it.
pub struct ModelBoneSpec<M> {
    pub name: String,
    pub transform: M,
    pub parent: Option<usize>,
}

/// The parent of each described bone.
pub open spec fn bone_parents<M>(specs: Seq<ModelBoneSpec<M>>) -> Seq<Option<usize>> {
    Seq::new(specs.len(), |i: int| specs[i].parent)
}

/// Whether a bone at position `i` with parent `parent` comes after it.
pub open spec fn parent_precedes(parent: Option<usize>, i: int) -> bool {
    match parent {
        Some(p) => p < i,
        None => true,
    }
}

/// Whether every parent precedes its child.
pub open spec fn parents_precede(parents: Seq<Option<usize>>) -> bool {
    forall|i: int| 0 <= i < parents.len() ==> parent_precedes(#[trigger] parents[i], i)
}

/// The verdict on a bone table: it must hold a bone, name a root inside it,
/// and list every parent before its children.
pub open spec fn spec_bone_graph_outcome(parents: Seq<Option<usize>>, root_index: usize) -> Result<(), CnaError> {
    if parents.len() == 0 {
        Err(CnaError::InvalidInput(InputError::ModelHasNoBones))
    } else if root_index >= parents.len() {
        Err(CnaError::InvalidInput(InputError::RootBoneOutOfRange))
    } else if !parents_precede(parents) {
        Err(CnaError::InvalidInput(InputError::BoneParentOrder))
    } else {
        Ok(())
    }
}

/// Checks the shape of a bone table.
pub fn validate_bone_graph<M>(bone_specs: &Vec<ModelBoneSpec<M>>, root_index: usize) -> (r: Result<(), CnaError>)
    ensures
        r == spec_bone_graph_outcome(bone_parents(bone_specs@), root_index),
{
    let ghost parents = bone_parents(bone_specs@);
    if bone_specs.len() == 0 {
        return Err(CnaError::InvalidInput(InputError::ModelHasNoBones));
    }
    if root_index >= bone_specs.len() {
        return Err(CnaError::InvalidInput(InputError::RootBoneOutOfRange));
    }
    let mut index: usize = 0;
    while index < bone_specs.len()
        invariant
            index <= bone_specs@.len(),
            parents == bone_parents(bone_specs@),
            root_index < bone_specs@.len(),
            forall|i: int| 0 <= i < index ==> parent_precedes(#[trigger] parents[i], i),
        decreases bone_specs@.len() - index,
    {
        match bone_specs[index].parent {
            Some(parent) => {
                if parent >= index {
                    assert(!parent_precedes(parents[index as int], index as int));
                    return Err(CnaError::InvalidInput(InputError::BoneParentOrder));
                }
            },
            None => {},
        }
        index = index + 1;
    }
    Ok(())
}

/// Checks a name used to look up a bone or mesh: it must not be empty.
pub fn validate_model_name(value: &str) -> (r: Result<(), CnaError>)
    ensures
        value@.len() == 0 ==> r == Err::<(), CnaError>(CnaError::InvalidInput(InputError::ModelNameEmpty)),
        value@.len() != 0 ==> r == Ok::<(), CnaError>(()),
{
    if value.is_empty() {
        Err(CnaError::InvalidInput(InputError::ModelNameEmpty))
    } else {
        Ok(())
    }
}

/// The children of `parent` among the first `n` bones, in table order.
pub open spec fn children_within(parents: Seq<Option<usize>>, parent: usize, n: nat) -> Seq<usize>
    decreases n,
{
    if n == 0 {
        Seq::empty()
    } else {
        let rest = children_within(parents, parent, (n - 1) as nat);
        if parents[n - 1] == Some(parent) {
            rest.push((n - 1) as usize)
        } else {
            rest
        }
    }
}

/// The children of `parent`, in table order.
pub open spec fn children_of(parents: Seq<Option<usize>>, parent: usize) -> Seq<usize> {
    children_within(parents, parent, parents.len())
}

/// A collection of bones, named by their positions in the model's table.
#[derive(Clone)]
pub struct ModelBoneCollection {
    items: Vec<usize>,
}

impl View for ModelBoneCollection {
    type V = Seq<usize>;

    closed spec fn view(&self) -> Seq<usize> {
        self.items@
    }
}

/// What a bone holds.
pub struct ModelBoneView<M> {
    pub index: int,
    pub name: Seq<char>,
    pub transform: M,
    pub parent: Option<usize>,
    pub children: Seq<usize>,
}

/// One bone of a model's table. Its accessors take the lifetime of the
/// model that holds it; the `Model::bone_*` accessors read through the
/// model's own lifetime.
pub struct ModelBone<M> {
    index: i32,
    name: String,
    transform: M,
    parent: Option<usize>,
    children: ModelBoneCollection,
}

impl<M> View for ModelBone<M> {
    type V = ModelBoneView<M>;

    closed spec fn view(&self) -> ModelBoneView<M> {
        ModelBoneView {
            index: self.index as int,
            name: self.name@,
            transform: self.transform,
            parent: self.parent,
            children: self.children@,
        }
    }
}

/// The bone a description becomes at position `i` of its table.
pub open spec fn bone_from_spec<M>(specs: Seq<ModelBoneSpec<M>>, i: int) -> ModelBoneView<M> {
    ModelBoneView {
        index: i,
        name: specs[i].name@,
        transform: specs[i].transform,
        parent: specs[i].parent,
        children: children_of(bone_parents(specs), i as usize),
    }
}

/// The largest table whose positions all fit XNA's signed bone index.
pub const MAX_BONES: usize = 0x8000_0000;

/// The children of bone `parent`, scanning the whole table.
fn children_for<M>(bone_specs: &Vec<ModelBoneSpec<M>>, parent: usize) -> (r: Vec<usize>)
    ensures
        r@ == children_of(bone_parents(bone_specs@), parent),
{
    let ghost parents = bone_parents(bone_specs@);
    let mut result: Vec<usize> = Vec::new();
    let mut j: usize = 0;
    while j < bone_specs.len()
        invariant
            j <= bone_specs@.len(),
            parents == bone_parents(bone_specs@),
            result@ == children_within(parents, parent, j as nat),
        decreases bone_specs@.len() - j,
    {
        if bone_specs[j].parent == Some(parent) {
            result.push(j);
        }
        j = j + 1;
    }
    result
}

/// Builds a model's bone table from its description: the table is checked
/// as `validate_bone_graph` checks it and must fit XNA's signed index; each
/// bone gets its position as index, its description's name, transform and
/// parent, and its children in table order.
pub fn build_bones<M: Copy>(bone_specs: &Vec<ModelBoneSpec<M>>, root_index: usize) -> (r: Result<Vec<ModelBone<M>>, CnaError>)
    ensures
        spec_bone_graph_outcome(bone_parents(bone_specs@), root_index) is Err ==> r == Err::<Vec<ModelBone<M>>, CnaError>(
            spec_bone_graph_outcome(bone_parents(bone_specs@), root_index)->Err_0,
        ),
        spec_bone_graph_outcome(bone_parents(bone_specs@), root_index) is Ok && bone_specs@.len() > MAX_BONES
            ==> r == Err::<Vec<ModelBone<M>>, CnaError>(CnaError::InvalidInput(InputError::TooManyBones)),
        spec_bone_graph_outcome(bone_parents(bone_specs@), root_index) is Ok && bone_specs@.len() <= MAX_BONES ==> r is Ok,
        r matches Ok(bones) ==> bones@.len() == bone_specs@.len() && forall|i: int|
            0 <= i < bones@.len() ==> (#[trigger] bones@[i])@ == bone_from_spec(bone_specs@, i),
{
    validate_bone_graph(bone_specs, root_index)?;
    if bone_specs.len() > MAX_BONES {
        return Err(CnaError::InvalidInput(InputError::TooManyBones));
    }
    let mut bones: Vec<ModelBone<M>> = Vec::new();
    let mut index: usize = 0;
    while index < bone_specs.len()
        invariant
            index <= bone_specs@.len(),
            bone_specs@.len() <= MAX_BONES,
            bones@.len() == index,
            forall|i: int| 0 <= i < index ==> (#[trigger] bones@[i])@ == bone_from_spec(bone_specs@, i),
        decreases bone_specs@.len() - index,
    {
        let spec = &bone_specs[index];
        let children = children_for(bone_specs, index);
        bones.push(
            ModelBone {
                index: index as i32,
                name: spec.name.clone(),
                transform: spec.transform,
                parent: spec.parent,
                children: ModelBoneCollection { items: children },
            },
        );
        index = index + 1;
    }
    Ok(bones)
}

impl<M: Copy> ModelBone<M> {
    /// XNA `ModelBone.Children`.
    pub fn Children(&self, lifetime: &ModelLifetime) -> (r: Result<&ModelBoneCollection, CnaError>)
        ensures
            lifetime@ <==> r is Ok,
            !lifetime@ ==> r == Err::<&ModelBoneCollection, CnaError>(CnaError::InvalidInput(InputError::ModelGraphNotLive)),
            r matches Ok(c) ==> c@ == self@.children,
    {
        lifetime.ensure()?;
        Ok(&self.children)
    }

    /// XNA `ModelBone.Index`.
    pub fn Index(&self, lifetime: &ModelLifetime) -> (r: Result<i32, CnaError>)
        ensures
            r == match spec_ensure_live(lifetime@) {
                Ok(_) => Ok::<i32, CnaError>(self@.index as i32),
                Err(e) => Err(e),
            },
    {
        lifetime.ensure()?;
        Ok(self.index)
    }

    /// XNA `ModelBone.Name`.
    pub fn Name(&self, lifetime: &ModelLifetime) -> (r: Result<String, CnaError>)
        ensures
            lifetime@ <==> r is Ok,
            !lifetime@ ==> r == Err::<String, CnaError>(CnaError::InvalidInput(InputError::ModelGraphNotLive)),
            r matches Ok(name) ==> name@ == self@.name,
    {
        lifetime.ensure()?;
        Ok(self.name.clone())
    }

    /// XNA `ModelBone.Parent`: the parent's position in the table, if any.
    pub fn Parent(&self, lifetime: &ModelLifetime) -> (r: Result<Option<usize>, CnaError>)
        ensures
            r == match spec_ensure_live(lifetime@) {
                Ok(_) => Ok::<Option<usize>, CnaError>(self@.parent),
                Err(e) => Err(e),
            },
    {
        lifetime.ensure()?;
        Ok(self.parent)
    }

    /// XNA `ModelBone.Transform`.
    pub fn Transform(&self, lifetime: &ModelLifetime) -> (r: Result<M, CnaError>)
        ensures
            r == match spec_ensure_live(lifetime@) {
                Ok(_) => Ok::<M, CnaError>(self@.transform),
                Err(e) => Err(e),
            },
    {
        lifetime.ensure()?;
        Ok(self.transform)
    }

    /// XNA `ModelBone.Transform` assignment; a dead graph is left unchanged.
    pub fn SetTransform(&mut self, lifetime: &ModelLifetime, value: M) -> (r: Result<(), CnaError>)
        ensures
            r == spec_ensure_live(lifetime@),
            lifetime@ ==> final(self)@ == (ModelBoneView { transform: value, ..old(self)@ }),
            !lifetime@ ==> final(self)@ == old(self)@,
    {
        lifetime.ensure()?;
        self.transform = value;
        Ok(())
    }
}

/// Whether the bone at `position` of the table is named `name`.
pub open spec fn bone_named<M>(bones: Seq<ModelBone<M>>, position: usize, name: Seq<char>) -> bool {
    bones[position as int]@.name == name
}

/// Whether the `k`-th bone of a collection is the first one named `name`.
pub open spec fn is_first_named<M>(items: Seq<usize>, bones: Seq<ModelBone<M>>, name: Seq<char>, k: int) -> bool {
    &&& 0 <= k < items.len()
    &&& bone_named(bones, items[k], name)
    &&& forall|j: int| 0 <= j < k ==> !bone_named(bones, #[trigger] items[j], name)
}

/// Whether no bone of a collection is named `name`.
pub open spec fn none_named<M>(items: Seq<usize>, bones: Seq<ModelBone<M>>, name: Seq<char>) -> bool {
    forall|j: int| 0 <= j < items.len() ==> !bone_named(bones, #[trigger] items[j], name)
}

/// Whether every position a collection names lies inside the table.
pub open spec fn names_bones_of<M>(items: Seq<usize>, bones: Seq<ModelBone<M>>) -> bool {
    forall|k: int| 0 <= k < items.len() ==> (#[trigger] items[k]) < bones.len()
}

impl ModelBoneCollection {
    /// The place in the collection of its first bone named `key`.
    fn find_named<M>(&self, bones: &Vec<ModelBone<M>>, key: &String) -> (r: Option<usize>)
        requires
            names_bones_of(self@, bones@),
        ensures
            r matches Some(k) ==> is_first_named(self@, bones@, key@, k as int),
            r is None <==> none_named(self@, bones@, key@),
    {
        let mut k: usize = 0;
        while k < self.items.len()
            invariant
                k <= self.items@.len(),
                names_bones_of(self.items@, bones@),
                forall|j: int| 0 <= j < k ==> !bone_named(bones@, #[trigger] self.items@[j], key@),
            decreases self.items@.len() - k,
        {
            let position = self.items[k];
            if bones[position].name == *key {
                return Some(k);
            }
            k = k + 1;
        }
        None
    }

    /// XNA `ModelBoneCollection[boneName]`: the first bone of that name.
    pub fn Item<M>(&self, lifetime: &ModelLifetime, bones: &Vec<ModelBone<M>>, boneName: &str) -> (r: Result<usize, CnaError>)
        requires
            names_bones_of(self@, bones@),
        ensures
            !lifetime@ ==> r == Err::<usize, CnaError>(CnaError::InvalidInput(InputError::ModelGraphNotLive)),
            lifetime@ && boneName@.len() == 0 ==> r == Err::<usize, CnaError>(CnaError::InvalidInput(InputError::ModelNameEmpty)),
            lifetime@ && boneName@.len() != 0 && none_named(self@, bones@, boneName@) ==> r == Err::<usize, CnaError>(
                CnaError::InvalidInput(InputError::BoneNameNotFound),
            ),
            lifetime@ && boneName@.len() != 0 && !none_named(self@, bones@, boneName@) ==> r is Ok,
            r matches Ok(p) ==> exists|k: int| is_first_named(self@, bones@, boneName@, k) && self@[k] == p,
    {
        lifetime.ensure()?;
        validate_model_name(boneName)?;
        let key = String::from_str(boneName);
        match self.find_named(bones, &key) {
            Some(k) => Ok(self.items[k]),
            None => Err(CnaError::InvalidInput(InputError::BoneNameNotFound)),
        }
    }

    /// XNA `ModelBoneCollection.TryGetValue`: stores the first bone of that
    /// name, or `None`, and answers whether one was found.
    pub fn TryGetValue<M>(
        &self,
        lifetime: &ModelLifetime,
        bones: &Vec<ModelBone<M>>,
        boneName: &str,
        value: &mut Option<usize>,
    ) -> (r: Result<bool, CnaError>)
        requires
            names_bones_of(self@, bones@),
        ensures
            !lifetime@ ==> r == Err::<bool, CnaError>(CnaError::InvalidInput(InputError::ModelGraphNotLive))
                && *final(value) == *old(value),
            lifetime@ && boneName@.len() == 0 ==> r == Err::<bool, CnaError>(CnaError::InvalidInput(InputError::ModelNameEmpty))
                && *final(value) == *old(value),
            lifetime@ && boneName@.len() != 0 ==> r == Ok::<bool, CnaError>(!none_named(self@, bones@, boneName@))
                && ((*final(value)) is None <==> none_named(self@, bones@, boneName@)),
            lifetime@ && boneName@.len() != 0 && (*final(value)) is Some ==> exists|k: int|
                is_first_named(self@, bones@, boneName@, k) && self@[k] == final(value)->0,
    {
        lifetime.ensure()?;
        validate_model_name(boneName)?;
        let key = String::from_str(boneName);
        *value = match self.find_named(bones, &key) {
            Some(k) => Some(self.items[k]),
            None => None,
        };
        Ok(value.is_some())
    }

    /// XNA `ModelBoneCollection.GetEnumerator`: an enumerator before the
    /// first bone.
    pub fn GetEnumerator(&self, lifetime: &ModelLifetime) -> (r: Result<ModelBoneCollectionEnumerator, CnaError>)
        ensures
            lifetime@ <==> r is Ok,
            !lifetime@ ==> r is Err && r->Err_0 == CnaError::InvalidInput(InputError::ModelGraphNotLive),
            r matches Ok(e) ==> e@ == (EnumeratorView { items: self@, position: None, disposed: false }),
    {
        lifetime.ensure()?;
        Ok(ModelBoneCollectionEnumerator::new(self.items.clone()))
    }

    /// The number of bones in the collection.
    pub fn count(&self) -> (r: usize)
        ensures
            r == self@.len(),
    {
        self.items.len()
    }

    /// The bone at `index` of the collection.
    pub fn item_at(&self, lifetime: &ModelLifetime, index: usize) -> (r: Result<usize, CnaError>)
        ensures
            !lifetime@ ==> r == Err::<usize, CnaError>(CnaError::InvalidInput(InputError::ModelGraphNotLive)),
            lifetime@ && index < self@.len() ==> r == Ok::<usize, CnaError>(self@[index as int]),
            lifetime@ && index >= self@.len() ==> r == Err::<usize, CnaError>(CnaError::InvalidInput(InputError::BoneIndexOutOfRange)),
    {
        lifetime.ensure()?;
        if index < self.items.len() {
            Ok(self.items[index])
        } else {
            Err(CnaError::InvalidInput(InputError::BoneIndexOutOfRange))
        }
    }
}

/// What a model's bone table holds.
pub struct ModelView<M> {
    pub alive: bool,
    pub bones: Seq<ModelBoneView<M>>,
    pub root: usize,
}

/// The bone table of a model, with its root and its liveness.
pub struct Model<M> {
    lifetime: ModelLifetime,
    bones: Vec<ModelBone<M>>,
    all: ModelBoneCollection,
    root: usize,
}

/// The transforms a table of bones holds, in table order.
pub open spec fn bone_transforms<M>(bones: Seq<ModelBoneView<M>>) -> Seq<M> {
    Seq::new(bones.len(), |i: int| bones[i].transform)
}

impl<M> View for Model<M> {
    type V = ModelView<M>;

    closed spec fn view(&self) -> ModelView<M> {
        ModelView {
            alive: self.lifetime@,
            bones: Seq::new(self.bones@.len(), |i: int| self.bones@[i]@),
            root: self.root,
        }
    }
}

impl<M: Copy> Model<M> {
    /// The table is consistent: every bone sits at its own index after its
    /// parent, every collection names bones of the table, and the table's
    /// own collection lists every bone in order.
    pub closed spec fn wf(&self) -> bool {
        &&& 0 < self.bones@.len() <= MAX_BONES
        &&& self.root < self.bones@.len()
        &&& self.all@ == Seq::new(self.bones@.len(), |i: int| i as usize)
        &&& forall|i: int| 0 <= i < self.bones@.len() ==> {
            &&& (#[trigger] self.bones@[i])@.index == i
            &&& parent_precedes(self.bones@[i]@.parent, i)
            &&& names_bones_of(self.bones@[i]@.children, self.bones@)
        }
    }

    /// Builds a live model's bone table from its description, checked as
    /// `build_bones` checks it.
    pub fn from_bone_specs(bone_specs: &Vec<ModelBoneSpec<M>>, root_index: usize) -> (r: Result<Self, CnaError>)
        ensures
            spec_bone_graph_outcome(bone_parents(bone_specs@), root_index) is Err ==> r is Err && r->Err_0
                == spec_bone_graph_outcome(bone_parents(bone_specs@), root_index)->Err_0,
            spec_bone_graph_outcome(bone_parents(bone_specs@), root_index) is Ok && bone_specs@.len() > MAX_BONES
                ==> r is Err && r->Err_0 == CnaError::InvalidInput(InputError::TooManyBones),
            spec_bone_graph_outcome(bone_parents(bone_specs@), root_index) is Ok && bone_specs@.len() <= MAX_BONES ==> r is Ok,
            r matches Ok(m) ==> m.wf() && m@.alive && m@.root == root_index && m@.bones.len() == bone_specs@.len()
                && forall|i: int| 0 <= i < bone_specs@.len() ==> #[trigger] m@.bones[i] == bone_from_spec(bone_specs@, i),
    {
        let bones = build_bones(bone_specs, root_index)?;
        let ghost parents = bone_parents(bone_specs@);
        let mut all: Vec<usize> = Vec::new();
        let mut i: usize = 0;
        while i < bones.len()
            invariant
                i <= bones@.len(),
                all@ == Seq::new(i as nat, |j: int| j as usize),
            decreases bones@.len() - i,
        {
            all.push(i);
            i = i + 1;
            assert(all@ =~= Seq::new(i as nat, |j: int| j as usize));
        }
        proof {
            assert(parents_precede(parents));
            assert forall|b: int| 0 <= b < bones@.len() implies {
                &&& (#[trigger] bones@[b])@.index == b
                &&& parent_precedes(bones@[b]@.parent, b)
                &&& names_bones_of(bones@[b]@.children, bones@)
            } by {
                assert(bones@[b]@ == bone_from_spec(bone_specs@, b));
                assert(parents[b] == bone_specs@[b].parent);
                lemma_children_within_bounded(parents, b as usize, parents.len());
            }
            assert(all@ =~= Seq::new(bones@.len(), |j: int| j as usize));
        }
        let model = Model { lifetime: ModelLifetime::new(), bones, all: ModelBoneCollection { items: all }, root: root_index };
        assert forall|i: int| 0 <= i < bone_specs@.len() implies #[trigger] model@.bones[i] == bone_from_spec(bone_specs@, i) by {
            assert(model.bones@[i]@ == bone_from_spec(bone_specs@, i));
        }
        Ok(model)
    }

    /// XNA `Model.Bones`: every bone, in table order.
    pub fn Bones(&self) -> (r: Result<&ModelBoneCollection, CnaError>)
        requires
            self.wf(),
        ensures
            self@.alive <==> r is Ok,
            !self@.alive ==> r is Err && r->Err_0 == CnaError::InvalidInput(InputError::ModelGraphNotLive),
            r matches Ok(c) ==> c@ == Seq::new(self@.bones.len(), |i: int| i as usize),
    {
        self.lifetime.ensure()?;
        Ok(&self.all)
    }

    /// XNA `Model.Root`: the root bone's place in the table.
    pub fn Root(&self) -> (r: Result<usize, CnaError>)
        ensures
            r == match spec_ensure_live(self@.alive) {
                Ok(_) => Ok::<usize, CnaError>(self@.root),
                Err(e) => Err(e),
            },
    {
        self.lifetime.ensure()?;
        Ok(self.root)
    }

    /// The bone at `position` of the table.
    pub fn bone(&self, position: usize) -> (r: &ModelBone<M>)
        requires
            position < self@.bones.len(),
        ensures
            r@ == self@.bones[position as int],
    {
        &self.bones[position]
    }

    /// XNA `model.Bones[position].Index`, read through the model's own
    /// liveness: a disposed model's bones refuse it.
    pub fn bone_index(&self, position: usize) -> (r: Result<i32, CnaError>)
        requires
            position < self@.bones.len(),
        ensures
            r == match spec_ensure_live(self@.alive) {
                Ok(_) => Ok::<i32, CnaError>(self@.bones[position as int].index as i32),
                Err(e) => Err(e),
            },
    {
        self.bones[position].Index(&self.lifetime)
    }

    /// XNA `model.Bones[position].Name`, read through the model's own
    /// liveness.
    pub fn bone_name(&self, position: usize) -> (r: Result<String, CnaError>)
        requires
            position < self@.bones.len(),
        ensures
            self@.alive <==> r is Ok,
            !self@.alive ==> r == Err::<String, CnaError>(CnaError::InvalidInput(InputError::ModelGraphNotLive)),
            r matches Ok(name) ==> name@ == self@.bones[position as int].name,
    {
        self.bones[position].Name(&self.lifetime)
    }

    /// XNA `model.Bones[position].Parent`, read through the model's own
    /// liveness.
    pub fn bone_parent(&self, position: usize) -> (r: Result<Option<usize>, CnaError>)
        requires
            position < self@.bones.len(),
        ensures
            r == match spec_ensure_live(self@.alive) {
                Ok(_) => Ok::<Option<usize>, CnaError>(self@.bones[position as int].parent),
                Err(e) => Err(e),
            },
    {
        self.bones[position].Parent(&self.lifetime)
    }

    /// XNA `model.Bones[position].Children`, read through the model's own
    /// liveness.
    pub fn bone_children(&self, position: usize) -> (r: Result<&ModelBoneCollection, CnaError>)
        requires
            position < self@.bones.len(),
        ensures
            self@.alive <==> r is Ok,
            !self@.alive ==> r == Err::<&ModelBoneCollection, CnaError>(CnaError::InvalidInput(InputError::ModelGraphNotLive)),
            r matches Ok(c) ==> c@ == self@.bones[position as int].children,
    {
        self.bones[position].Children(&self.lifetime)
    }

    /// XNA `model.Bones[position].Transform`, read through the model's own
    /// liveness.
    pub fn bone_transform(&self, position: usize) -> (r: Result<M, CnaError>)
        requires
            position < self@.bones.len(),
        ensures
            r == match spec_ensure_live(self@.alive) {
                Ok(_) => Ok::<M, CnaError>(self@.bones[position as int].transform),
                Err(e) => Err(e),
            },
    {
        self.bones[position].Transform(&self.lifetime)
    }

    /// XNA `model.Bones[position].Transform` assignment: gives the bone at
    /// `position` of the table a new transform, leaving every other bone
    /// and every other field as it was; a dead graph is left unchanged.
    pub fn set_bone_transform(&mut self, position: usize, value: M) -> (r: Result<(), CnaError>)
        requires
            old(self).wf(),
            position < old(self)@.bones.len(),
        ensures
            final(self).wf(),
            r == spec_ensure_live(old(self)@.alive),
            old(self)@.alive ==> final(self)@ == (ModelView {
                bones: old(self)@.bones.update(
                    position as int,
                    ModelBoneView { transform: value, ..old(self)@.bones[position as int] },
                ),
                ..old(self)@
            }),
            !old(self)@.alive ==> final(self)@ == old(self)@,
    {
        self.lifetime.ensure()?;
        let ghost before = self.bones@;
        let bone = &mut self.bones[position];
        bone.transform = value;
        proof {
            assert(self@.bones =~= old(self)@.bones.update(
                position as int,
                ModelBoneView { transform: value, ..old(self)@.bones[position as int] },
            ));
            assert forall|b: int| 0 <= b < self.bones@.len() implies names_bones_of((#[trigger] self.bones@[b])@.children, self.bones@) by {
                assert(names_bones_of(before[b]@.children, before));
            }
        }
        Ok(())
    }

    /// The model's liveness flag, which the bones' accessors consult.
    pub fn lifetime(&self) -> (r: &ModelLifetime)
        ensures
            r@ == self@.alive,
    {
        &self.lifetime
    }

    /// Ends the model's life; every later access fails.
    pub fn invalidate(&mut self)
        ensures
            final(self)@ == (ModelView { alive: false, ..old(self)@ }),
            old(self).wf() ==> final(self).wf(),
    {
        self.lifetime.invalidate();
        assert(self@.bones =~= old(self)@.bones);
    }

    /// XNA `Model.CopyBoneTransformsTo`: writes each bone's transform to the
    /// same place of `destination`, which must hold at least one place per
    /// bone; places past the bones keep their values.
    pub fn CopyBoneTransformsTo(&self, destination: &mut Vec<M>) -> (r: Result<(), CnaError>)
        requires
            self.wf(),
        ensures
            !self@.alive ==> r is Err && r->Err_0 == CnaError::InvalidInput(InputError::ModelGraphNotLive)
                && final(destination)@ == old(destination)@,
            self@.alive && old(destination)@.len() < self@.bones.len() ==> r is Err && r->Err_0
                == CnaError::InvalidInput(InputError::DestinationTransformsTooSmall) && final(destination)@ == old(destination)@,
            self@.alive && old(destination)@.len() >= self@.bones.len() ==> r is Ok
                && final(destination)@ == bone_transforms(self@.bones) + old(destination)@.skip(self@.bones.len() as int),
    {
        self.lifetime.ensure()?;
        if destination.len() < self.bones.len() {
            return Err(CnaError::InvalidInput(InputError::DestinationTransformsTooSmall));
        }
        let ghost before = destination@;
        let mut i: usize = 0;
        while i < self.bones.len()
            invariant
                i <= self.bones@.len() <= before.len(),
                destination@.len() == before.len(),
                forall|j: int| 0 <= j < i ==> destination@[j] == self.bones@[j]@.transform,
                forall|j: int| i <= j < before.len() ==> destination@[j] == before[j],
            decreases self.bones@.len() - i,
        {
            let value = self.bones[i].transform;
            destination.set(i, value);
            i = i + 1;
        }
        assert(destination@ =~= bone_transforms(self@.bones) + before.skip(self@.bones.len() as int));
        Ok(())
    }

    /// XNA `Model.CopyBoneTransformsFrom`: gives each bone the transform at
    /// its place of `source`, which must hold at least one place per bone.
    pub fn CopyBoneTransformsFrom(&mut self, source: &Vec<M>) -> (r: Result<(), CnaError>)
        requires
            old(self).wf(),
        ensures
            final(self).wf(),
            final(self)@.alive == old(self)@.alive,
            final(self)@.root == old(self)@.root,
            !old(self)@.alive ==> r is Err && r->Err_0 == CnaError::InvalidInput(InputError::ModelGraphNotLive)
                && final(self)@ == old(self)@,
            old(self)@.alive && source@.len() < old(self)@.bones.len() ==> r is Err && r->Err_0
                == CnaError::InvalidInput(InputError::SourceTransformsTooSmall) && final(self)@ == old(self)@,
            old(self)@.alive && source@.len() >= old(self)@.bones.len() ==> r is Ok
                && final(self)@.bones.len() == old(self)@.bones.len()
                && forall|i: int| 0 <= i < old(self)@.bones.len() ==> #[trigger] final(self)@.bones[i]
                    == (ModelBoneView { transform: source@[i], ..old(self)@.bones[i] }),
    {
        self.lifetime.ensure()?;
        if source.len() < self.bones.len() {
            return Err(CnaError::InvalidInput(InputError::SourceTransformsTooSmall));
        }
        let ghost before = self.bones@;
        let mut bones: Vec<ModelBone<M>> = Vec::new();
        std::mem::swap(&mut bones, &mut self.bones);
        let mut result: Vec<ModelBone<M>> = Vec::new();
        let mut i: usize = 0;
        while i < bones.len()
            invariant
                bones@ == before,
                i <= before.len() <= source@.len(),
                result@.len() == i,
                forall|j: int| 0 <= j < i ==> (#[trigger] result@[j])@ == (ModelBoneView {
                    transform: source@[j],
                    ..before[j]@
                }),
            decreases before.len() - i,
        {
            let bone = &bones[i];
            result.push(ModelBone {
                index: bone.index,
                name: bone.name.clone(),
                transform: source[i],
                parent: bone.parent,
                children: ModelBoneCollection { items: bone.children.items.clone() },
            });
            i = i + 1;
        }
        self.bones = result;
        proof {
            assert forall|b: int| 0 <= b < self.bones@.len() implies names_bones_of((#[trigger] self.bones@[b])@.children, self.bones@) by {
                assert(names_bones_of(before[b]@.children, before));
            }
        }
        Ok(())
    }

    /// XNA `Model.CopyAbsoluteBoneTransformsTo`: writes, at each bone's place
    /// of `destination`, the bone's transform composed with its parent's
    /// absolute transform; a root bone's is its own. `destination` must hold
    /// at least one place per bone; places past the bones keep their values.
    pub fn CopyAbsoluteBoneTransformsTo<F: Fn(M, M) -> M>(&self, destination: &mut Vec<M>, compose: F) -> (r: Result<(), CnaError>)
        requires
            self.wf(),
            forall|a: M, b: M| #[trigger] compose.requires((a, b)),
        ensures
            !self@.alive ==> r is Err && r->Err_0 == CnaError::InvalidInput(InputError::ModelGraphNotLive)
                && final(destination)@ == old(destination)@,
            self@.alive && old(destination)@.len() < self@.bones.len() ==> r is Err && r->Err_0
                == CnaError::InvalidInput(InputError::DestinationTransformsTooSmall) && final(destination)@ == old(destination)@,
            self@.alive && old(destination)@.len() >= self@.bones.len() ==> r is Ok
                && final(destination)@.len() == old(destination)@.len()
                && (forall|i: int| 0 <= i < self@.bones.len() ==> is_absolute_transform(
                    self@.bones,
                    final(destination)@,
                    compose,
                    i,
                ))
                && forall|i: int| self@.bones.len() <= i < old(destination)@.len() ==> #[trigger] final(destination)@[i]
                    == old(destination)@[i],
    {
        self.lifetime.ensure()?;
        if destination.len() < self.bones.len() {
            return Err(CnaError::InvalidInput(InputError::DestinationTransformsTooSmall));
        }
        let ghost before = destination@;
        let mut i: usize = 0;
        while i < self.bones.len()
            invariant
                self.wf(),
                forall|a: M, b: M| #[trigger] compose.requires((a, b)),
                i <= self.bones@.len() <= before.len(),
                destination@.len() == before.len(),
                forall|j: int| 0 <= j < i ==> is_absolute_transform(self@.bones, destination@, compose, j),
                forall|j: int| i <= j < before.len() ==> #[trigger] destination@[j] == before[j],
            decreases self.bones@.len() - i,
        {
            let bone = &self.bones[i];
            assert(self@.bones[i as int] == bone@);
            let value = match bone.parent {
                Some(parent) => {
                    let parent_absolute = destination[parent];
                    compose(bone.transform, parent_absolute)
                },
                None => bone.transform,
            };
            let ghost previous = destination@;
            destination.set(i, value);
            proof {
                assert forall|j: int| 0 <= j < i + 1 implies is_absolute_transform(self@.bones, destination@, compose, j) by {
                    if j < i {
                        assert(is_absolute_transform(self@.bones, previous, compose, j));
                        assert(self@.bones[j] == self.bones@[j]@);
                    }
                }
            }
            i = i + 1;
        }
        Ok(())
    }
}

/// Whether `absolute[i]` is bone `i`'s transform composed with its parent's
/// absolute transform, or the bone's own transform at a root.
pub open spec fn is_absolute_transform<M, F: Fn(M, M) -> M>(bones: Seq<ModelBoneView<M>>, absolute: Seq<M>, compose: F, i: int) -> bool {
    match bones[i].parent {
        Some(p) => compose.ensures((bones[i].transform, absolute[p as int]), absolute[i]),
        None => absolute[i] == bones[i].transform,
    }
}

proof fn lemma_children_within_bounded(parents: Seq<Option<usize>>, parent: usize, n: nat)
    requires
        n <= parents.len(),
    ensures
        forall|k: int| 0 <= k < children_within(parents, parent, n).len() ==> (#[trigger] children_within(parents, parent, n)[k]) < n,
    decreases n,
{
    if n > 0 {
        lemma_children_within_bounded(parents, parent, (n - 1) as nat);
        let rest = children_within(parents, parent, (n - 1) as nat);
        if parents[n - 1] == Some(parent) {
            assert forall|k: int| 0 <= k < rest.push((n - 1) as usize).len() implies (#[trigger] rest.push((n - 1) as usize)[k]) < n by {
                if k < rest.len() {
                    assert(rest[k] < n - 1);
                }
            }
        }
    }
}

/// The place of a mesh's parent bone, which must lie inside the table.
pub fn mesh_parent_bone(bone_count: usize, parent_bone: usize) -> (r: Result<usize, CnaError>)
    ensures
        parent_bone < bone_count ==> r == Ok::<usize, CnaError>(parent_bone),
        parent_bone >= bone_count ==> r == Err::<usize, CnaError>(CnaError::InvalidInput(InputError::MeshParentBoneOutOfRange)),
{
    if parent_bone < bone_count {
        Ok(parent_bone)
    } else {
        Err(CnaError::InvalidInput(InputError::MeshParentBoneOutOfRange))
    }
}

/// Checks a mesh part as the model reader does: its buffers and effect must
/// belong to the model's device, and none of its ranges may be negative.
pub fn validate_mesh_part(
    same_device: bool,
    vertex_offset: i32,
    num_vertices: i32,
    start_index: i32,
    primitive_count: i32,
) -> (r: Result<(), CnaError>)
    ensures
        !same_device ==> r == Err::<(), CnaError>(CnaError::InvalidInput(InputError::MeshResourcesOtherDevice)),
        same_device && (vertex_offset < 0 || num_vertices < 0 || start_index < 0 || primitive_count < 0)
            ==> r == Err::<(), CnaError>(CnaError::InvalidInput(InputError::MeshPartRangeNegative)),
        same_device && vertex_offset >= 0 && num_vertices >= 0 && start_index >= 0 && primitive_count >= 0
            ==> r == Ok::<(), CnaError>(()),
{
    if !same_device {
        return Err(CnaError::InvalidInput(InputError::MeshResourcesOtherDevice));
    }
    if vertex_offset < 0 || num_vertices < 0 || start_index < 0 || primitive_count < 0 {
        return Err(CnaError::InvalidInput(InputError::MeshPartRangeNegative));
    }
    Ok(())
}

/// Whether a mesh part draws: it needs primitives and an effect.
pub fn mesh_part_draws(primitive_count: i32, has_effect: bool) -> (r: bool)
    ensures
        r == (primitive_count > 0 && has_effect),
{
    primitive_count > 0 && has_effect
}

/// Adds an effect to a mesh's effect list unless an effect with the same
/// native identity is already there. `identities` holds, for each listed
/// effect, the identity it reports now, if it reports one.
pub fn add_unique_effect<E>(items: &mut Vec<E>, identities: &Vec<Option<u64>>, identity: u64, value: E) -> (r: bool)
    requires
        identities@.len() == old(items)@.len(),
    ensures
        r == forall|i: int| 0 <= i < identities@.len() ==> #[trigger] identities@[i] != Some(identity),
        r ==> final(items)@ == old(items)@.push(value),
        !r ==> final(items)@ == old(items)@,
{
    let mut i: usize = 0;
    while i < identities.len()
        invariant
            i <= identities@.len(),
            forall|j: int| 0 <= j < i ==> #[trigger] identities@[j] != Some(identity),
        decreases identities@.len() - i,
    {
        if identities[i] == Some(identity) {
            return false;
        }
        i = i + 1;
    }
    items.push(value);
    true
}

/// Where an enumerator stands.
pub struct EnumeratorView {
    pub items: Seq<usize>,
    pub position: Option<usize>,
    pub disposed: bool,
}

/// The position after the one given: the first, or the next one up.
pub open spec fn next_position(position: Option<usize>) -> usize {
    match position {
        None => 0,
        Some(p) => if p == usize::MAX { p } else { (p + 1) as usize },
    }
}

/// The verdict of moving on: fails on a dead graph or a disposed
/// enumerator; otherwise whether a bone is there.
pub open spec fn spec_move_next(alive: bool, length: usize, position: Option<usize>, disposed: bool) -> Result<bool, CnaError> {
    if !alive {
        Err(CnaError::InvalidInput(InputError::ModelGraphNotLive))
    } else if disposed {
        Err(CnaError::InvalidInput(InputError::EnumeratorDisposed))
    } else {
        Ok(next_position(position) < length)
    }
}

/// The position after moving on: the next position, or the end.
pub open spec fn position_after_move(alive: bool, length: usize, position: Option<usize>, disposed: bool) -> Option<usize> {
    if !alive || disposed {
        position
    } else if next_position(position) < length {
        Some(next_position(position))
    } else {
        Some(length)
    }
}

/// Moves an enumerator's position on by one.
pub fn enumerator_move_next(lifetime: &ModelLifetime, length: usize, position: &mut Option<usize>, disposed: bool) -> (r: Result<bool, CnaError>)
    ensures
        r == spec_move_next(lifetime@, length, *old(position), disposed),
        *final(position) == position_after_move(lifetime@, length, *old(position), disposed),
{
    lifetime.ensure()?;
    if disposed {
        return Err(CnaError::InvalidInput(InputError::EnumeratorDisposed));
    }
    let next: usize = match *position {
        None => 0,
        Some(value) => value.saturating_add(1),
    };
    if next < length {
        *position = Some(next);
        Ok(true)
    } else {
        *position = Some(length);
        Ok(false)
    }
}

/// The verdict of reading the current item.
pub open spec fn spec_current<T>(alive: bool, items: Seq<T>, position: Option<usize>, disposed: bool) -> Result<T, CnaError> {
    if !alive {
        Err(CnaError::InvalidInput(InputError::ModelGraphNotLive))
    } else if disposed {
        Err(CnaError::InvalidInput(InputError::EnumeratorDisposed))
    } else {
        match position {
            None => Err(CnaError::InvalidInput(InputError::EnumeratorNotPositioned)),
            Some(p) => if p < items.len() {
                Ok(items[p as int])
            } else {
                Err(CnaError::InvalidInput(InputError::EnumeratorPastEnd))
            },
        }
    }
}

/// The item an enumerator stands on.
pub fn enumerator_current<T: Copy>(lifetime: &ModelLifetime, items: &Vec<T>, position: Option<usize>, disposed: bool) -> (r: Result<T, CnaError>)
    ensures
        r == spec_current(lifetime@, items@, position, disposed),
{
    lifetime.ensure()?;
    if disposed {
        return Err(CnaError::InvalidInput(InputError::EnumeratorDisposed));
    }
    let index = match position {
        Some(index) => index,
        None => return Err(CnaError::InvalidInput(InputError::EnumeratorNotPositioned)),
    };
    if index < items.len() {
        Ok(items[index])
    } else {
        Err(CnaError::InvalidInput(InputError::EnumeratorPastEnd))
    }
}

/// XNA's positioned enumerator over a bone collection.
#[derive(Clone)]
pub struct ModelBoneCollectionEnumerator {
    items: Vec<usize>,
    position: Option<usize>,
    disposed: bool,
}

impl View for ModelBoneCollectionEnumerator {
    type V = EnumeratorView;

    closed spec fn view(&self) -> EnumeratorView {
        EnumeratorView { items: self.items@, position: self.position, disposed: self.disposed }
    }
}

impl ModelBoneCollectionEnumerator {
    /// An enumerator over `items`, before the first.
    pub fn new(items: Vec<usize>) -> (r: Self)
        ensures
            r@ == (EnumeratorView { items: items@, position: None, disposed: false }),
    {
        ModelBoneCollectionEnumerator { items, position: None, disposed: false }
    }

    /// XNA `IEnumerator.MoveNext`.
    pub fn MoveNext(&mut self, lifetime: &ModelLifetime) -> (r: Result<bool, CnaError>)
        ensures
            r == spec_move_next(lifetime@, old(self)@.items.len() as usize, old(self)@.position, old(self)@.disposed),
            final(self)@ == (EnumeratorView {
                position: position_after_move(
                    lifetime@,
                    old(self)@.items.len() as usize,
                    old(self)@.position,
                    old(self)@.disposed,
                ),
                ..old(self)@
            }),
    {
        let length = self.items.len();
        enumerator_move_next(lifetime, length, &mut self.position, self.disposed)
    }

    /// XNA `IEnumerator.Current`: the bone the enumerator stands on.
    pub fn Current(&self, lifetime: &ModelLifetime) -> (r: Result<usize, CnaError>)
        ensures
            r == spec_current(lifetime@, self@.items, self@.position, self@.disposed),
    {
        enumerator_current(lifetime, &self.items, self.position, self.disposed)
    }

    /// XNA `IDisposable.Dispose`: later moves and reads fail.
    pub fn Dispose(&mut self) -> (r: Result<(), CnaError>)
        ensures
            r is Ok,
            final(self)@ == (EnumeratorView { position: None, disposed: true, ..old(self)@ }),
    {
        self.disposed = true;
        self.position = None;
        Ok(())
    }
}

/// On a live graph, moving a fresh enumerator on `k + 1` times lands on the
/// `k`-th item, for every item of the collection.
pub proof fn law_enumerator_visits_items_in_order(length: usize, k: usize)
    requires
        k < length,
    ensures
        spec_move_next(true, length, if k == 0 { None } else { Some((k - 1) as usize) }, false) == Ok::<bool, CnaError>(true),
        position_after_move(true, length, if k == 0 { None } else { Some((k - 1) as usize) }, false) == Some(k),
{
}

/// Once past the last item, moving on answers `false` and stays at the end.
pub proof fn law_enumerator_stops_at_end(length: usize)
    ensures
        spec_move_next(true, length, if length == 0 { None } else { Some((length - 1) as usize) }, false) == Ok::<bool, CnaError>(false),
        position_after_move(true, length, if length == 0 { None } else { Some((length - 1) as usize) }, false) == Some(length),
        length < usize::MAX ==> spec_move_next(true, length, Some(length), false) == Ok::<bool, CnaError>(false),
        length < usize::MAX ==> position_after_move(true, length, Some(length), false) == Some(length),
{
}

} // verus!
