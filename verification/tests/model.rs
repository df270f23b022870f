use cna::async_result::{begin_completed, finish_begin, GamerAsyncResult};
use cna::error::{CallbackFault, CnaError, InputError};
use cna::model::{
    add_unique_effect, build_bones, enumerator_current, enumerator_move_next, mesh_parent_bone, mesh_part_draws,
    validate_bone_graph, validate_mesh_part, validate_model_name, Model, ModelBoneCollectionEnumerator, ModelBoneSpec,
    ModelLifetime,
};

fn spec(name: &str, transform: i64, parent: Option<usize>) -> ModelBoneSpec<i64> {
    ModelBoneSpec { name: name.to_string(), transform, parent }
}

fn skeleton() -> Vec<ModelBoneSpec<i64>> {
    vec![spec("root", 1, None), spec("arm", 10, Some(0)), spec("hand", 100, Some(1)), spec("leg", 1000, Some(0))]
}

#[test]
fn bone_tables_must_list_parents_first() {
    let empty: Vec<ModelBoneSpec<i64>> = Vec::new();
    assert_eq!(validate_bone_graph(&empty, 0), Err(CnaError::InvalidInput(InputError::ModelHasNoBones)));
    assert_eq!(validate_bone_graph(&skeleton(), 4), Err(CnaError::InvalidInput(InputError::RootBoneOutOfRange)));
    let backwards = vec![spec("a", 0, Some(1)), spec("b", 0, None)];
    assert_eq!(validate_bone_graph(&backwards, 1), Err(CnaError::InvalidInput(InputError::BoneParentOrder)));
    let own_parent = vec![spec("a", 0, Some(0))];
    assert_eq!(validate_bone_graph(&own_parent, 0), Err(CnaError::InvalidInput(InputError::BoneParentOrder)));
    assert_eq!(validate_bone_graph(&skeleton(), 0), Ok(()));
    assert_eq!(validate_model_name(""), Err(CnaError::InvalidInput(InputError::ModelNameEmpty)));
    assert_eq!(validate_model_name("Bone01"), Ok(()));
}

#[test]
fn built_bones_know_their_parents_and_children() {
    let model = Model::from_bone_specs(&skeleton(), 0).expect("valid table");
    let life = model.lifetime();
    assert_eq!(model.Root(), Ok(0));
    assert_eq!(model.bone(2).Index(life), Ok(2));
    assert_eq!(model.bone(2).Name(life), Ok("hand".to_string()));
    assert_eq!(model.bone(2).Parent(life), Ok(Some(1)));
    assert_eq!(model.bone(0).Parent(life), Ok(None));
    let children = model.bone(0).Children(life).expect("live");
    assert_eq!(children.count(), 2);
    assert_eq!(children.item_at(life, 0), Ok(1));
    assert_eq!(children.item_at(life, 1), Ok(3));
    assert_eq!(children.item_at(life, 2), Err(CnaError::InvalidInput(InputError::BoneIndexOutOfRange)));
    let all = model.Bones().expect("live");
    assert_eq!(all.count(), 4);
}

#[test]
fn bone_lookup_by_name_finds_the_first_match() {
    let specs = vec![spec("root", 0, None), spec("twin", 1, Some(0)), spec("twin", 2, Some(0))];
    let bones = build_bones(&specs, 0).expect("valid table");
    let model = Model::from_bone_specs(&specs, 0).expect("valid table");
    let life = model.lifetime();
    let all = model.Bones().expect("live");
    assert_eq!(all.Item(life, &bones, "twin"), Ok(1));
    assert_eq!(all.Item(life, &bones, "nobody"), Err(CnaError::InvalidInput(InputError::BoneNameNotFound)));
    assert_eq!(all.Item(life, &bones, ""), Err(CnaError::InvalidInput(InputError::ModelNameEmpty)));
    let mut found = None;
    assert_eq!(all.TryGetValue(life, &bones, "root", &mut found), Ok(true));
    assert_eq!(found, Some(0));
    assert_eq!(all.TryGetValue(life, &bones, "missing", &mut found), Ok(false));
    assert_eq!(found, None);
}

#[test]
fn a_dead_model_refuses_every_access() {
    let mut model = Model::from_bone_specs(&skeleton(), 0).expect("valid table");
    model.invalidate();
    let dead = CnaError::InvalidInput(InputError::ModelGraphNotLive);
    assert_eq!(model.Root(), Err(dead));
    assert!(model.Bones().is_err());
    assert_eq!(model.bone(1).Transform(model.lifetime()), Err(dead));
    let mut out = vec![0i64; 4];
    assert_eq!(model.CopyBoneTransformsTo(&mut out), Err(dead));
    assert_eq!(out, vec![0, 0, 0, 0]);
}

#[test]
fn bone_transforms_copy_in_and_out() {
    let mut model = Model::from_bone_specs(&skeleton(), 0).expect("valid table");
    let mut out = vec![-1i64; 5];
    assert_eq!(model.CopyBoneTransformsTo(&mut out), Ok(()));
    assert_eq!(out, vec![1, 10, 100, 1000, -1]);
    let mut short = vec![0i64; 3];
    assert_eq!(model.CopyBoneTransformsTo(&mut short), Err(CnaError::InvalidInput(InputError::DestinationTransformsTooSmall)));
    assert_eq!(model.CopyBoneTransformsFrom(&vec![2, 3]), Err(CnaError::InvalidInput(InputError::SourceTransformsTooSmall)));
    assert_eq!(model.CopyBoneTransformsFrom(&vec![2, 3, 4, 5]), Ok(()));
    assert_eq!(model.bone(3).Transform(model.lifetime()), Ok(5));
}

#[test]
fn absolute_transforms_compose_down_the_hierarchy() {
    let model = Model::from_bone_specs(&skeleton(), 0).expect("valid table");
    let mut absolute = vec![0i64; 4];
    assert_eq!(model.CopyAbsoluteBoneTransformsTo(&mut absolute, |own: i64, parent: i64| own.wrapping_add(parent)), Ok(()));
    assert_eq!(absolute, vec![1, 11, 111, 1001]);
}

#[test]
fn a_bone_transform_can_be_set_while_the_model_lives() {
    let specs = skeleton();
    let mut bones = build_bones(&specs, 0).expect("valid table");
    let life = ModelLifetime::new();
    assert_eq!(bones[1].SetTransform(&life, 42), Ok(()));
    assert_eq!(bones[1].Transform(&life), Ok(42));
    let mut dead = ModelLifetime::new();
    dead.invalidate();
    assert_eq!(dead.ensure(), Err(CnaError::InvalidInput(InputError::ModelGraphNotLive)));
    assert_eq!(bones[1].SetTransform(&dead, 7), Err(CnaError::InvalidInput(InputError::ModelGraphNotLive)));
    assert_eq!(bones[1].Transform(&life), Ok(42));
}

#[test]
fn bone_enumerator_walks_the_collection_once() {
    let life = ModelLifetime::new();
    let mut e = ModelBoneCollectionEnumerator::new(vec![4, 7]);
    assert_eq!(e.Current(&life), Err(CnaError::InvalidInput(InputError::EnumeratorNotPositioned)));
    assert_eq!(e.MoveNext(&life), Ok(true));
    assert_eq!(e.Current(&life), Ok(4));
    assert_eq!(e.MoveNext(&life), Ok(true));
    assert_eq!(e.Current(&life), Ok(7));
    assert_eq!(e.MoveNext(&life), Ok(false));
    assert_eq!(e.Current(&life), Err(CnaError::InvalidInput(InputError::EnumeratorPastEnd)));
    assert_eq!(e.MoveNext(&life), Ok(false));
    assert_eq!(e.Dispose(), Ok(()));
    assert_eq!(e.MoveNext(&life), Err(CnaError::InvalidInput(InputError::EnumeratorDisposed)));
}

#[test]
fn enumerator_steps_on_raw_positions() {
    let life = ModelLifetime::new();
    let mut position = None;
    assert_eq!(enumerator_move_next(&life, 1, &mut position, false), Ok(true));
    assert_eq!(position, Some(0));
    assert_eq!(enumerator_current(&life, &vec!['x'], position, false), Ok('x'));
    assert_eq!(enumerator_move_next(&life, 1, &mut position, false), Ok(false));
    assert_eq!(position, Some(1));
}

#[test]
fn mesh_parts_are_checked_before_drawing() {
    assert_eq!(mesh_parent_bone(3, 2), Ok(2));
    assert_eq!(mesh_parent_bone(3, 3), Err(CnaError::InvalidInput(InputError::MeshParentBoneOutOfRange)));
    assert_eq!(validate_mesh_part(false, 0, 0, 0, 0), Err(CnaError::InvalidInput(InputError::MeshResourcesOtherDevice)));
    assert_eq!(validate_mesh_part(true, 0, -1, 0, 0), Err(CnaError::InvalidInput(InputError::MeshPartRangeNegative)));
    assert_eq!(validate_mesh_part(true, 0, 3, 0, 1), Ok(()));
    assert!(mesh_part_draws(1, true));
    assert!(!mesh_part_draws(0, true));
    assert!(!mesh_part_draws(2, false));
}

#[test]
fn mesh_effects_are_listed_once_per_identity() {
    let mut effects: Vec<&str> = vec!["basic"];
    assert!(add_unique_effect(&mut effects, &vec![Some(9)], 11, "skinned"));
    assert_eq!(effects, vec!["basic", "skinned"]);
    assert!(!add_unique_effect(&mut effects, &vec![Some(9), Some(11)], 9, "basic again"));
    assert_eq!(effects, vec!["basic", "skinned"]);
}

#[test]
fn an_async_result_answers_its_end_once() {
    let mut result: GamerAsyncResult<&str, u32> = GamerAsyncResult::completed("state", 17);
    assert!(result.IsCompleted());
    assert!(result.CompletedSynchronously());
    assert_eq!(result.AsyncState(), "state");
    assert_eq!(result.origin(), 17);
    result.store(3, 99);
    assert_eq!(result.end_once(3), Ok(99));
    assert_eq!(result.end_once(3), Err(CnaError::InvalidInput(InputError::EndCalledTwice)));
    assert!(result.IsCompleted());
}

#[test]
fn an_async_result_refuses_the_end_of_another_operation() {
    let mut result: GamerAsyncResult<(), u32> = GamerAsyncResult::completed((), 1);
    result.store(3, 99);
    assert_eq!(result.end_once(4), Err(CnaError::InvalidInput(InputError::AsyncResultOfOtherOperation)));
    assert_eq!(result.end_once(3), Err(CnaError::InvalidInput(InputError::EndCalledTwice)));
    let mut empty: GamerAsyncResult<(), u32> = GamerAsyncResult::completed((), 2);
    assert_eq!(empty.end_once(1), Err(CnaError::InvalidInput(InputError::AsyncResultHasNoValue)));
}

#[test]
fn a_begin_skips_the_callback_on_refusal_and_stores_the_value_first() {
    let refused = CnaError::InvalidInput(InputError::GamerObjectDisposed);
    assert!(matches!(begin_completed::<u8, u32>(7, 1, 3, Err(refused)), Err(e) if e == refused));
    let mut result = begin_completed::<u8, u32>(7, 1, 3, Ok(40)).expect("completed");
    assert!(result.IsCompleted());
    assert_eq!(result.AsyncState(), 7);
    let (mut kept, fired) = finish_begin(result, false, 1).expect("no panic");
    assert_eq!(fired, 1);
    assert_eq!(kept.end_once(3), Ok(40));
    result = begin_completed::<u8, u32>(7, 2, 3, Ok(41)).expect("completed");
    assert!(matches!(
        finish_begin(result, true, 1),
        Err(CnaError::Callback(CallbackFault::CompletionCallbackPanicked))
    ));
}

#[test]
fn a_bone_of_a_model_takes_a_new_transform() {
    let mut model = Model::from_bone_specs(&skeleton(), 0).expect("valid table");
    assert_eq!(model.set_bone_transform(1, 99), Ok(()));
    assert_eq!(model.bone(1).Transform(model.lifetime()), Ok(99));
    assert_eq!(model.bone(0).Transform(model.lifetime()), Ok(1));
    assert_eq!(model.bone(2).Transform(model.lifetime()), Ok(100));
    model.invalidate();
    let dead = CnaError::InvalidInput(InputError::ModelGraphNotLive);
    assert_eq!(model.set_bone_transform(1, 5), Err(dead));
}

#[test]
fn a_disposed_models_bones_refuse_access_through_the_model() {
    let mut model = Model::from_bone_specs(&skeleton(), 0).expect("valid table");
    assert_eq!(model.bone_index(2), Ok(2));
    assert_eq!(model.bone_name(2), Ok("hand".to_string()));
    assert_eq!(model.bone_parent(2), Ok(Some(1)));
    assert_eq!(model.bone_transform(3), Ok(1000));
    assert_eq!(model.bone_children(0).expect("live").count(), 2);
    model.invalidate();
    let dead = CnaError::InvalidInput(InputError::ModelGraphNotLive);
    assert_eq!(model.bone_index(2), Err(dead));
    assert_eq!(model.bone_name(2), Err(dead));
    assert_eq!(model.bone_parent(2), Err(dead));
    assert_eq!(model.bone_transform(3), Err(dead));
    assert!(model.bone_children(0).is_err());
}
