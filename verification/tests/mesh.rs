use cna::error::{CnaError, InputError};
use cna::mesh::{build_meshes, check_pending_part, validate_meshes, ModelMeshPartSpec, ModelMeshSpec, PartAnswers};
use cna::model::ModelLifetime;

type Sphere = [f32; 4];
type Spec = ModelMeshSpec<Sphere, Option<String>, u32, u32, &'static str>;

fn part(effect: Option<&'static str>, primitive_count: i32) -> ModelMeshPartSpec<Option<String>, u32, u32, &'static str> {
    ModelMeshPartSpec {
        vertex_buffer: 10,
        index_buffer: 20,
        tag: None,
        effect,
        vertex_offset: 0,
        num_vertices: 3,
        start_index: 0,
        primitive_count,
    }
}

fn answer(identity: Option<u64>) -> PartAnswers {
    PartAnswers { same_device: true, effect_identity: identity.map(Ok) }
}

fn body() -> Spec {
    ModelMeshSpec {
        name: "body".to_string(),
        parent_bone: 0,
        bounding_sphere: [0.0, 0.0, 0.0, 1.0],
        tag: Some("hull".to_string()),
        parts: vec![part(Some("metal"), 4), part(Some("glass"), 2), part(Some("metal again"), 1), part(None, 5)],
    }
}

fn body_answers() -> Vec<PartAnswers> {
    vec![answer(Some(1)), answer(Some(2)), answer(Some(1)), answer(None)]
}

fn wheel() -> Spec {
    ModelMeshSpec {
        name: "wheel".to_string(),
        parent_bone: 1,
        bounding_sphere: [1.0, 0.0, 0.0, 0.5],
        tag: None,
        parts: vec![part(Some("rubber"), 0)],
    }
}

#[test]
fn pending_parts_need_buffers_and_an_effect() {
    assert_eq!(check_pending_part(false, false, false), Err(CnaError::InvalidInput(InputError::MeshPartNoVertexBuffer)));
    assert_eq!(check_pending_part(true, false, true), Err(CnaError::InvalidInput(InputError::MeshPartNoIndexBuffer)));
    assert_eq!(check_pending_part(true, true, false), Err(CnaError::InvalidInput(InputError::MeshPartNoEffect)));
    assert_eq!(check_pending_part(true, true, true), Ok(()));
}

#[test]
fn built_meshes_list_each_effect_once_in_part_order() {
    let life = ModelLifetime::new();
    let meshes = build_meshes(2, vec![body(), wheel()], &vec![body_answers(), vec![answer(Some(3))]]).expect("valid meshes");
    assert_eq!(meshes.count(), 2);
    let body = meshes.item_at(&life, 0).expect("live");
    assert_eq!(body.Name(&life), Ok("body".to_string()));
    assert_eq!(body.ParentBone(&life), Ok(0));
    assert_eq!(body.BoundingSphere(&life), Ok([0.0, 0.0, 0.0, 1.0]));
    assert_eq!(body.Tag(&life), Ok(Some("hull".to_string())));
    assert_eq!(body.Effects(&life), Ok(vec!["metal", "glass"]));
    assert_eq!(body.effect_count(&life), Ok(2));
    assert_eq!(body.effect_at(&life, 1), Ok("glass"));
    assert_eq!(body.effect_at(&life, 2), Err(CnaError::InvalidInput(InputError::ModelEffectIndexOutOfRange)));
    assert_eq!(body.part_count(), 4);
    let third = body.part_at(&life, 2).expect("in range");
    assert_eq!(third.Effect(&life), Ok(Some("metal again")));
    assert_eq!(third.PrimitiveCount(&life), Ok(1));
    assert_eq!(third.VertexBuffer(&life), Ok(&10));
    assert_eq!(third.IndexBuffer(&life), Ok(&20));
    assert_eq!(third.NumVertices(&life), Ok(3));
    assert_eq!(third.StartIndex(&life), Ok(0));
    assert_eq!(third.VertexOffset(&life), Ok(0));
    assert_eq!(body.part_at(&life, 4).err(), Some(CnaError::InvalidInput(InputError::MeshPartIndexOutOfRange)));
    assert_eq!(body.MeshParts(&life).map(|parts| parts.len()), Ok(4));
    assert_eq!(body.DrawParts(&life), Ok(vec![0, 1, 2]));
    let wheel = meshes.item_at(&life, 1).expect("live");
    assert_eq!(wheel.DrawParts(&life), Ok(vec![]));
    assert_eq!(meshes.item_at(&life, 2).err(), Some(CnaError::InvalidInput(InputError::MeshIndexOutOfRange)));
}

#[test]
fn mesh_checks_report_the_first_failure_in_order() {
    let answers = vec![body_answers(), vec![answer(Some(3))]];
    assert_eq!(
        build_meshes(1, vec![body(), wheel()], &answers).err(),
        Some(CnaError::InvalidInput(InputError::MeshParentBoneOutOfRange))
    );
    let mut foreign = body_answers();
    foreign[1].same_device = false;
    assert_eq!(
        validate_meshes(2, &vec![body(), wheel()], &vec![foreign, vec![answer(Some(3))]]),
        Err(CnaError::InvalidInput(InputError::MeshResourcesOtherDevice))
    );
    let mut negative = body();
    negative.parts[2].start_index = -1;
    assert_eq!(
        validate_meshes(2, &vec![negative], &vec![body_answers()]),
        Err(CnaError::InvalidInput(InputError::MeshPartRangeNegative))
    );
    let mut failing = body_answers();
    failing[0].effect_identity = Some(Err(CnaError::InvalidInput(InputError::ResourceDisposed)));
    assert_eq!(
        build_meshes(2, vec![body()], &vec![failing]).err(),
        Some(CnaError::InvalidInput(InputError::ResourceDisposed))
    );
}

#[test]
fn meshes_are_found_by_name_and_enumerated() {
    let life = ModelLifetime::new();
    let meshes = build_meshes(2, vec![body(), wheel()], &vec![body_answers(), vec![answer(Some(3))]]).expect("valid meshes");
    assert_eq!(meshes.Item(&life, "wheel").map(|m| m.ParentBone(&life)), Ok(Ok(1)));
    assert_eq!(meshes.Item(&life, "tail").err(), Some(CnaError::InvalidInput(InputError::MeshNameNotFound)));
    assert_eq!(meshes.Item(&life, "").err(), Some(CnaError::InvalidInput(InputError::ModelNameEmpty)));
    let mut found = None;
    assert_eq!(meshes.TryGetValue(&life, "wheel", &mut found), Ok(true));
    assert_eq!(found, Some(1));
    assert_eq!(meshes.TryGetValue(&life, "tail", &mut found), Ok(false));
    assert_eq!(found, None);
    let mut e = meshes.GetEnumerator(&life).expect("live");
    assert_eq!(e.MoveNext(&life), Ok(true));
    assert_eq!(e.Current(&life), Ok(0));
    assert_eq!(e.MoveNext(&life), Ok(true));
    assert_eq!(e.MoveNext(&life), Ok(false));
    let body = meshes.item_at(&life, 0).expect("live");
    let mut parts = body.MeshPartsEnumerator(&life).expect("live");
    assert_eq!(parts.MoveNext(&life), Ok(true));
    assert_eq!(parts.Current(&life), Ok(0));
    assert_eq!(parts.Dispose(), Ok(()));
    assert_eq!(parts.MoveNext(&life), Err(CnaError::InvalidInput(InputError::EnumeratorDisposed)));
}

#[test]
fn a_part_that_changes_effect_rebuilds_the_effect_list() {
    let life = ModelLifetime::new();
    let mut meshes = build_meshes(2, vec![body()], &vec![body_answers()]).expect("valid meshes");
    let body = meshes.item_at_mut(0);
    let identities = vec![Some(Ok(1)), Some(Ok(2)), Some(Ok(1)), None];
    assert_eq!(body.SetPartEffect(&life, 0, Some("paint"), true, Some(Ok(1)), Some(Ok(7)), &identities), Ok(()));
    assert_eq!(body.Effects(&life), Ok(vec!["paint", "glass", "metal again"]));
    assert_eq!(body.part_at(&life, 0).expect("in range").Effect(&life), Ok(Some("paint")));
    let current = vec![Some(Ok(7)), Some(Ok(2)), Some(Ok(1)), None];
    assert_eq!(body.SetPartEffect(&life, 3, Some("chrome"), true, None, Some(Ok(2)), &current), Ok(()));
    assert_eq!(body.Effects(&life), Ok(vec!["paint", "glass", "metal again"]));
    assert_eq!(body.SetPartEffect(&life, 1, None, true, Some(Ok(2)), None, &vec![Some(Ok(7)), None, Some(Ok(1)), Some(Ok(2))]), Ok(()));
    assert_eq!(body.Effects(&life), Ok(vec!["paint", "metal again", "chrome"]));
}

#[test]
fn setting_an_effect_of_the_same_identity_changes_nothing() {
    let life = ModelLifetime::new();
    let mut meshes = build_meshes(2, vec![body()], &vec![body_answers()]).expect("valid meshes");
    let body = meshes.item_at_mut(0);
    let identities = vec![Some(Ok(1)), Some(Ok(2)), Some(Ok(1)), None];
    assert_eq!(body.SetPartEffect(&life, 2, Some("metal copy"), true, Some(Ok(1)), Some(Ok(1)), &identities), Ok(()));
    assert_eq!(body.part_at(&life, 2).expect("in range").Effect(&life), Ok(Some("metal again")));
    assert_eq!(
        body.SetPartEffect(&life, 2, Some("foreign"), false, Some(Ok(1)), Some(Ok(9)), &identities),
        Err(CnaError::InvalidInput(InputError::MeshPartEffectOtherDevice))
    );
    assert_eq!(body.Effects(&life), Ok(vec!["metal", "glass"]));
}

#[test]
fn an_identity_error_while_rebuilding_keeps_the_earlier_list() {
    let life = ModelLifetime::new();
    let mut meshes = build_meshes(2, vec![body()], &vec![body_answers()]).expect("valid meshes");
    let body = meshes.item_at_mut(0);
    let disposed = CnaError::InvalidInput(InputError::ResourceDisposed);
    let identities = vec![Some(Ok(1)), Some(Err(disposed)), Some(Ok(1)), None];
    assert_eq!(body.SetPartEffect(&life, 3, Some("chrome"), true, None, Some(Ok(5)), &identities), Err(disposed));
    assert_eq!(body.part_at(&life, 3).expect("in range").Effect(&life), Ok(Some("chrome")));
    assert_eq!(body.Effects(&life), Ok(vec!["metal", "glass"]));
}

#[test]
fn tags_change_while_the_model_lives() {
    let mut life = ModelLifetime::new();
    let mut meshes = build_meshes(2, vec![body()], &vec![body_answers()]).expect("valid meshes");
    let body = meshes.item_at_mut(0);
    assert_eq!(body.SetTag(&life, Some("new".to_string())), Ok(()));
    assert_eq!(body.Tag(&life), Ok(Some("new".to_string())));
    assert_eq!(body.SetPartTag(&life, 1, Some("lens".to_string())), Ok(()));
    assert_eq!(body.part_at(&life, 1).expect("in range").Tag(&life), Ok(Some("lens".to_string())));
    assert_eq!(body.SetPartTag(&life, 9, None), Err(CnaError::InvalidInput(InputError::MeshPartIndexOutOfRange)));
    life.invalidate();
    let dead = CnaError::InvalidInput(InputError::ModelGraphNotLive);
    assert_eq!(body.SetTag(&life, None), Err(dead));
    assert_eq!(body.Name(&life), Err(dead));
    assert_eq!(body.DrawParts(&life), Err(dead));
    assert_eq!(body.Tag(&ModelLifetime::new()), Ok(Some("new".to_string())));
}
