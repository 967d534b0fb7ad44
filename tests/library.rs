use ld46::{
    append_log_lines, log_entities, spawn_test_entities, Health, Position, SceneAction, SceneKind,
    SceneStack, Transition, LOG_LIMIT, TEST_BATCH,
};
use legion::prelude::{EntityStore, Universe, World};

fn snapshot(stack: &mut SceneStack<u32>) -> Vec<u32> {
    let mut items = Vec::new();
    while let Some(s) = stack.take_active() {
        items.push(s);
    }
    items.reverse();
    for s in &items {
        stack.apply(Transition::Push(*s));
    }
    items
}

#[test]
fn new_stack_holds_one_scene() {
    let mut stack = SceneStack::new(7u32);
    assert_eq!(stack.len(), 1);
    assert!(!stack.is_empty());
    assert_eq!(snapshot(&mut stack), vec![7]);
}

#[test]
fn push_makes_new_scene_active() {
    let mut stack = SceneStack::new(1u32);
    stack.apply(Transition::Push(2));
    assert_eq!(stack.len(), 2);
    assert_eq!(stack.take_active(), Some(2));
    assert_eq!(stack.take_active(), Some(1));
    assert_eq!(stack.take_active(), None);
}

#[test]
fn stay_keeps_stack() {
    let mut stack = SceneStack::new(1u32);
    stack.apply(Transition::Push(2));
    stack.apply(Transition::Stay);
    assert_eq!(snapshot(&mut stack), vec![1, 2]);
}

#[test]
fn pop_resumes_scene_beneath() {
    let mut stack = SceneStack::new(1u32);
    stack.apply(Transition::Push(2));
    stack.apply(Transition::Pop);
    assert_eq!(snapshot(&mut stack), vec![1]);
}

#[test]
fn pop_last_scene_empties_stack_and_pop_again_is_harmless() {
    let mut stack = SceneStack::new(1u32);
    stack.apply(Transition::Pop);
    assert!(stack.is_empty());
    stack.apply(Transition::Pop);
    assert!(stack.is_empty());
    assert_eq!(stack.take_active(), None);
}

#[test]
fn resume_with_transitions() {
    let mut stack = SceneStack::new(1u32);
    let active = stack.take_active().unwrap();
    assert!(stack.is_empty());
    stack.resume(active, Transition::Stay);
    assert_eq!(snapshot(&mut stack), vec![1]);

    let active = stack.take_active().unwrap();
    stack.resume(active, Transition::Push(5));
    assert_eq!(snapshot(&mut stack), vec![1, 5]);

    let active = stack.take_active().unwrap();
    assert_eq!(active, 5);
    stack.resume(active, Transition::Pop);
    assert_eq!(snapshot(&mut stack), vec![1]);
}

#[test]
fn push_then_pop_restores_stack() {
    let mut stack = SceneStack::new(3u32);
    stack.apply(Transition::Push(4));
    let before = snapshot(&mut stack);
    stack.apply(Transition::Push(9));
    stack.apply(Transition::Pop);
    assert_eq!(snapshot(&mut stack), before);
}

#[test]
fn position_advances_one_step_each_axis() {
    let p = Position { x: 0, y: 0 }.advanced();
    assert_eq!(p, Position { x: 1, y: 1 });
    let q = Position { x: -5, y: 41 }.advanced();
    assert_eq!(q, Position { x: -4, y: 42 });
    let r = Position { x: i32::MAX - 1, y: i32::MIN }.advanced();
    assert_eq!(r, Position { x: i32::MAX, y: i32::MIN + 1 });
}

#[test]
fn health_fields() {
    let h = Health { hp: 3, last_damaged_by: 9 };
    assert_eq!(h.hp, 3);
    assert_eq!(h.last_damaged_by, 9);
}

#[test]
fn log_appends_lines() {
    let mut content = String::from("start");
    append_log_lines(&mut content, &vec!["a".to_string(), "bc".to_string()]);
    assert_eq!(content, "start\na\nbc");
}

#[test]
fn log_with_no_labels_is_unchanged() {
    let mut content = String::from("x".repeat(150));
    append_log_lines(&mut content, &vec![]);
    assert_eq!(content, "x".repeat(150));
}

#[test]
fn log_clears_when_over_limit() {
    let mut content = "y".repeat(LOG_LIMIT + 1);
    append_log_lines(&mut content, &vec!["z".to_string(), "w".to_string()]);
    assert_eq!(content, "\nz\nw");
}

#[test]
fn log_keeps_text_at_exactly_limit() {
    let mut content = "y".repeat(LOG_LIMIT);
    append_log_lines(&mut content, &vec!["z".to_string()]);
    assert_eq!(content, format!("{}\nz", "y".repeat(LOG_LIMIT)));
}

#[test]
fn log_limit_counts_bytes() {
    // 51 two-byte characters: 51 chars but 102 bytes, over the limit.
    let mut content = "é".repeat(51);
    append_log_lines(&mut content, &vec!["q".to_string()]);
    assert_eq!(content, "\nq");
}

#[test]
fn log_scrolls_over_many_lines() {
    let mut content = String::new();
    let labels: Vec<String> = (0..40).map(|i| format!("{:03}", i)).collect();
    append_log_lines(&mut content, &labels);
    let mut expected = String::new();
    for l in &labels {
        if expected.len() > 100 {
            expected.clear();
        }
        expected.push('\n');
        expected.push_str(l);
    }
    assert_eq!(content, expected);
    assert!(content.len() <= 100 + 4);
}

#[test]
fn first_scene_decisions() {
    assert_eq!(SceneKind::Test.on_update(true), SceneAction::Enter(SceneKind::Test2));
    assert_eq!(SceneKind::Test.on_update(false), SceneAction::LogEntities);
}

#[test]
fn second_scene_decisions() {
    assert_eq!(SceneKind::Test2.on_update(true), SceneAction::Enter(SceneKind::Test));
    assert_eq!(SceneKind::Test2.on_update(false), SceneAction::Idle);
}

#[test]
fn space_twice_returns_to_same_kind() {
    for kind in [SceneKind::Test, SceneKind::Test2] {
        let next = match kind.on_update(true) {
            SceneAction::Enter(k) => k,
            _ => panic!("space must enter a scene"),
        };
        match next.on_update(true) {
            SceneAction::Enter(k) => assert_eq!(k, kind),
            _ => panic!("space must enter a scene"),
        }
    }
}

#[test]
fn scene_texts() {
    assert_eq!(SceneKind::Test.title(), "Test Scene");
    assert_eq!(SceneKind::Test2.title(), "Test Scene 2");
    assert!(SceneKind::Test.body().starts_with("This is some test text.\n\nYay Ludum Dare!"));
    assert_eq!(SceneKind::Test.body(), SceneKind::Test2.body());
    assert!(SceneKind::Test.spawns_entities());
    assert!(!SceneKind::Test2.spawns_entities());
}

fn fresh_world() -> World {
    Universe::new().create_world()
}

#[test]
fn spawn_fills_both_batches() {
    let mut world = fresh_world();
    let (moving, fixed) = spawn_test_entities(&mut world);
    assert_eq!(TEST_BATCH, 999);
    assert_eq!(moving.len(), TEST_BATCH);
    assert_eq!(fixed.len(), TEST_BATCH);
    assert_eq!(world.iter_entities().count(), 2 * TEST_BATCH);
    for e in moving.iter().take(10) {
        assert!(world.get_component::<Position>(*e).is_some());
        assert!(world.get_component::<Health>(*e).is_some());
    }
    for e in fixed.iter().take(10) {
        assert_eq!(*world.get_component::<Position>(*e).unwrap(), Position { x: 0, y: 0 });
        assert!(world.get_component::<Health>(*e).is_none());
        assert!(world.get_tag::<ld46::Static>(*e).is_some());
    }
}

#[test]
fn spawn_twice_adds_again() {
    let mut world = fresh_world();
    spawn_test_entities(&mut world);
    spawn_test_entities(&mut world);
    assert_eq!(world.iter_entities().count(), 4 * TEST_BATCH);
}

#[test]
fn log_entities_of_empty_world_keeps_text() {
    let world = fresh_world();
    let mut content = String::from("hello");
    log_entities(&world, &mut content);
    assert_eq!(content, "hello");
}

#[test]
fn log_entities_writes_entity_labels() {
    let mut world = fresh_world();
    let (moving, _) = spawn_test_entities(&mut world);
    let mut content = String::new();
    log_entities(&world, &mut content);
    let mut expected = String::new();
    for e in world.iter_entities() {
        if expected.len() > 100 {
            expected.clear();
        }
        expected.push('\n');
        expected.push_str(&e.to_string());
    }
    assert_eq!(content, expected);
    assert!(content.contains('#'));
    assert!(moving.iter().all(|e| !e.to_string().is_empty()));
}
