use oxen::counter::FrameCounter;
use oxen::matrix::Vector3;
use oxen::models;
use oxen::rat::Rat;

#[test]
fn square_mesh_is_the_unit_square() {
    let square = models::square();
    assert_eq!(square.transforms.len(), 0);
    assert_eq!(square.vertices.len(), 4);
    assert_eq!(square.indices, vec![0, 1, 2, 0, 2, 3]);
    assert_eq!(
        square.vertices[0].vertex_position,
        Vector3 { x: Rat { num: -1, den: 2 }, y: Rat { num: 1, den: 2 }, z: Rat { num: 0, den: 1 } }
    );
    let grey = Vector3 {
        x: Rat { num: 1, den: 5 },
        y: Rat { num: 1, den: 5 },
        z: Rat { num: 1, den: 5 },
    };
    for v in square.vertices.iter() {
        assert_eq!(v.vertex_color, grey);
    }
}

#[test]
fn cube_mesh_has_eight_corners_and_six_faces() {
    let cube = models::cube();
    assert_eq!(cube.transforms.len(), 0);
    assert_eq!(cube.vertices.len(), 8);
    assert_eq!(cube.indices.len(), 36);
    for ix in cube.indices.iter() {
        assert!((*ix as usize) < cube.vertices.len());
    }
    // Corner 5 is the far plane's top-right corner.
    assert_eq!(
        cube.vertices[5].vertex_position,
        Vector3 { x: Rat { num: 1, den: 2 }, y: Rat { num: 1, den: 2 }, z: Rat { num: 1, den: 2 } }
    );
}

#[test]
fn counter_reports_once_per_second() {
    let mut counter = FrameCounter::new();
    assert_eq!(counter.step(500), None);
    assert_eq!(counter.step(900), None);
    assert_eq!(counter.frame_count, 2);
    // More than a second after the window started: report and restart.
    let report = counter.step(1_500_000_501);
    assert_eq!(report, Some(2));
    assert_eq!(counter.frame_count, 1);
    assert_eq!(counter.previous_second, 1_500_000_501);
    // A clock that jumps backwards resets the window instead of failing.
    assert_eq!(counter.step(10), Some(1));
    assert_eq!(counter.previous_second, 10);
}

#[test]
fn counter_ticks_against_the_real_clock() {
    let mut counter = FrameCounter::new();
    let first = counter.tick();
    // The clock's epoch is unspecified; a report, if any, covers zero frames.
    assert!(first == None || first == Some(0));
    counter.tick();
    assert!(counter.frame_count >= 1);
    assert!(counter.frame_count <= 2);
}
