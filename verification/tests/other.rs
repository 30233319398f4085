use database::hub::{next_loop_step, LoopStep};
use database::mixes::{relation_to, Model, RelatedEntity, Relation};

#[test]
fn cancellation_ends_loop_even_with_pending_request() {
    assert!(matches!(next_loop_step(true, Some(3)), LoopStep::Exit));
    assert!(matches!(next_loop_step::<i32>(true, None), LoopStep::Exit));
}

#[test]
fn received_request_is_dispatched() {
    assert!(matches!(next_loop_step(false, Some(3)), LoopStep::Dispatch(3)));
}

#[test]
fn nothing_received_waits() {
    assert!(matches!(next_loop_step::<i32>(false, None), LoopStep::Wait));
}

#[test]
fn mix_queries_reached_through_their_relation() {
    assert_eq!(relation_to(RelatedEntity::MixQueries), Relation::MixQueries);
}

#[test]
fn mix_model_holds_its_fields() {
    let m = Model {
        id: 1,
        name: "Evening".to_string(),
        group: "Default".to_string(),
        scriptlet_mode: false,
        mode: 99,
        locked: true,
        created_at: "2024-01-01".to_string(),
        updated_at: "2024-01-02".to_string(),
    };
    assert_eq!(m.clone(), m);
    assert_eq!(m.mode, 99);
}
