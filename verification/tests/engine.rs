use oxen::keyboard::KeyboardState;
use oxen::rat::Rat;
use oxen::transform::{Transform, TransformStore};
use oxen::{Behaviour, Camera, InputEvent, Oxen};

/// A behaviour that never does anything.
struct Idle;

impl Behaviour for Idle {
    fn update(&mut self, _transforms: &mut TransformStore, _key_pressed: &KeyboardState) {}
}

/// A behaviour that nudges one transform along the x axis every tick.
struct Mover {
    id: usize,
}

impl Behaviour for Mover {
    fn update(&mut self, transforms: &mut TransformStore, _key_pressed: &KeyboardState) {
        let mut t = *transforms.get(self.id);
        t.translate(Rat::from_int(1), Rat::from_int(0), Rat::from_int(0));
        transforms.set(self.id, t);
    }
}

/// A behaviour that moves only while the space key is held.
struct KeyMover {
    id: usize,
    key: u32,
}

impl Behaviour for KeyMover {
    fn update(&mut self, transforms: &mut TransformStore, key_pressed: &KeyboardState) {
        if key_pressed.is_pressed(self.key) {
            let mut t = *transforms.get(self.id);
            t.translate(Rat::from_int(0), Rat::from_int(1), Rat::from_int(0));
            transforms.set(self.id, t);
        }
    }
}

fn unit_transform(px: i64, visible: bool) -> Transform {
    Transform::new(
        Rat::from_int(px),
        Rat::from_int(0),
        Rat::from_int(0),
        Rat::from_int(0),
        Rat::from_int(0),
        Rat::from_int(0),
        Rat::from_int(1),
        Rat::from_int(1),
        Rat::from_int(1),
        visible,
    )
}

fn engine() -> Oxen<Mover> {
    Oxen::new(Rat::from_int(800), Rat::from_int(600))
}

#[test]
fn new_engine_has_square_and_nothing_else() {
    let oxen = engine();
    assert_eq!(oxen.render_object_count(), 1);
    let square = oxen.render_object("square").expect("square is built in");
    assert_eq!(square.transforms.len(), 0);
    assert_eq!(square.vertices.len(), 4);
    assert_eq!(square.indices, vec![0, 1, 2, 0, 2, 3]);
    assert!(oxen.render_object("cube").is_none());
}

#[test]
fn attach_grows_instance_count_by_one_each_time() {
    let mut oxen = engine();
    for n in 1..=5 {
        let id = oxen.add_transform(unit_transform(n as i64, true));
        assert!(oxen.attach_render_object(id, "square").is_ok());
        let square = oxen.render_object("square").unwrap();
        assert_eq!(square.transforms.len(), n);
    }
}

#[test]
fn attach_to_unknown_name_fails_and_mutates_nothing() {
    let mut oxen = engine();
    let id = oxen.add_transform(unit_transform(0, true));
    assert!(oxen.attach_render_object(id, "square").is_ok());
    let res = oxen.attach_render_object(id, "triangle");
    assert_eq!(res, Err("No such render object"));
    assert_eq!(oxen.render_object_count(), 1);
    assert_eq!(oxen.render_object("square").unwrap().transforms.len(), 1);
}

#[test]
fn invisible_transforms_never_reach_the_snapshot() {
    let mut oxen = engine();
    let visible = oxen.add_transform(unit_transform(1, true));
    let hidden = oxen.add_transform(unit_transform(2, false));
    oxen.attach_render_object(visible, "square").unwrap();
    oxen.attach_render_object(hidden, "square").unwrap();

    let square = oxen.render_object("square").unwrap();
    let instance_ids = square.transforms.clone();
    let buf = oxen.instances(&instance_ids);
    assert_eq!(buf.len(), 1);
    assert_eq!(buf[0], oxen.transform(visible).as_matrix());

    // Toggling visibility changes membership in the very next snapshot.
    let mut t = *oxen.transform(hidden);
    t.visible = true;
    oxen.set_transform(hidden, t);
    assert_eq!(oxen.instances(&instance_ids).len(), 2);
    t.visible = false;
    oxen.set_transform(hidden, t);
    assert_eq!(oxen.instances(&instance_ids).len(), 1);
}

#[test]
fn snapshot_holds_each_visible_matrix_in_order() {
    let mut oxen = engine();
    let mut ids = Vec::new();
    for n in 0..3 {
        let id = oxen.add_transform(unit_transform(n, true));
        oxen.attach_render_object(id, "square").unwrap();
        ids.push(id);
    }
    let hidden = oxen.add_transform(unit_transform(9, false));
    oxen.attach_render_object(hidden, "square").unwrap();

    let square = oxen.render_object("square").unwrap();
    let buf = oxen.instances(&square.transforms);
    assert_eq!(buf.len(), 3);
    for (k, id) in ids.iter().enumerate() {
        assert_eq!(buf[k], oxen.transform(*id).as_matrix());
    }
}

#[test]
fn two_attaches_around_a_snapshot_leave_the_union() {
    let mut oxen = engine();
    let first = oxen.add_transform(unit_transform(1, true));
    let second = oxen.add_transform(unit_transform(2, true));

    oxen.attach_render_object(first, "square").unwrap();
    let mid = oxen.instances(&oxen.render_object("square").unwrap().transforms.clone());
    assert_eq!(mid.len(), 1);
    oxen.attach_render_object(second, "square").unwrap();

    let square = oxen.render_object("square").unwrap();
    assert_eq!(square.transforms, vec![first, second]);
    let buf = oxen.instances(&square.transforms);
    assert_eq!(buf.len(), 2);
}

#[test]
fn submitted_behaviour_runs_on_the_next_tick() {
    let mut oxen: Oxen<Mover> = Oxen::new(Rat::from_int(800), Rat::from_int(600));
    let id = oxen.add_transform(unit_transform(0, true));
    oxen.add_behaviour(Mover { id });
    let updated = oxen.simulation_tick();
    assert_eq!(updated, 1);
    assert_eq!(oxen.transform(id).position.x, Rat::from_int(1));

    // A behaviour submitted while the loop is already running is drained
    // and invoked on the very next tick as well.
    oxen.add_behaviour(Mover { id });
    let updated = oxen.simulation_tick();
    assert_eq!(updated, 2);
    assert_eq!(oxen.transform(id).position.x.num, 3);
}

#[test]
fn drain_keeps_registration_order() {
    let mut oxen: Oxen<Mover> = Oxen::new(Rat::from_int(800), Rat::from_int(600));
    let a = oxen.add_transform(unit_transform(0, true));
    let b = oxen.add_transform(unit_transform(0, true));
    oxen.add_behaviour(Mover { id: a });
    oxen.add_behaviour(Mover { id: b });
    oxen.drain_pending();
    assert_eq!(oxen.simulation_tick(), 2);
    assert_eq!(oxen.transform(a).position.x.num, 1);
    assert_eq!(oxen.transform(b).position.x.num, 1);
}

#[test]
fn idle_engine_ticks_with_no_behaviours() {
    let mut oxen: Oxen<Idle> = Oxen::new(Rat::from_int(800), Rat::from_int(600));
    assert_eq!(oxen.simulation_tick(), 0);
}

#[test]
fn key_events_drive_key_dependent_behaviour() {
    let mut oxen: Oxen<KeyMover> = Oxen::new(Rat::from_int(800), Rat::from_int(600));
    let id = oxen.add_transform(unit_transform(0, true));
    oxen.add_behaviour(KeyMover { id, key: 32 });

    oxen.simulation_tick();
    assert_eq!(oxen.transform(id).position.y.num, 0);

    assert!(oxen.apply_event(InputEvent::KeyPressed(32)));
    assert!(oxen.key_pressed(32));
    oxen.simulation_tick();
    assert_eq!(oxen.transform(id).position.y.num, 1);

    assert!(oxen.apply_event(InputEvent::KeyReleased(32)));
    assert!(!oxen.key_pressed(32));
    oxen.simulation_tick();
    assert_eq!(oxen.transform(id).position.y.num, 1);
}

#[test]
fn unknown_keys_count_as_released() {
    let oxen = engine();
    assert!(!oxen.key_pressed(7));
}

#[test]
fn close_request_stops_the_render_loop() {
    let mut oxen = engine();
    assert!(oxen.apply_event(InputEvent::Other));
    assert!(!oxen.apply_event(InputEvent::CloseRequested));
}

#[test]
fn view_transform_uses_viewport_and_camera() {
    let mut oxen = engine();
    let mut camera_transform = unit_transform(0, true);
    camera_transform.position.x = Rat::from_int(10);
    camera_transform.position.y = Rat::from_int(-3);
    oxen.set_camera(Camera { transform: camera_transform });
    let m = oxen.view_transform();
    assert_eq!(m.c0.x, Rat { num: 1, den: 800 });
    assert_eq!(m.c1.y, Rat { num: 1, den: 600 });
    assert_eq!(m.c2.z, Rat { num: 1, den: 1 });
    assert_eq!(m.c3.x, Rat { num: -10, den: 1 });
    assert_eq!(m.c3.y, Rat { num: 3, den: 1 });
}
