use spacenav_proxy::motion::MotionSample;
use spacenav_proxy::session::{Position, Session, ONE};

#[test]
fn a_session_starts_empty() {
    let session = Session::with_instance(6884);
    assert_eq!(session.instance(), 6884);
    assert_eq!(session.transactions(), 1);
    assert_eq!(session.pending_count(), 0);
    assert_eq!(session.pending("8GXm6SS4smp3Ai0e"), None);
    assert_eq!(session.view_matrix(), [0u64; 16]);
    assert_eq!(session.position(), Position { pos: [0, 0, 0], rot: [0, 0, 0, ONE] });
}

#[test]
fn a_random_session_starts_empty() {
    let session = Session::new();
    assert_eq!(session.transactions(), 1);
    assert_eq!(session.pending_count(), 0);
    assert_eq!(session.view_matrix(), [0u64; 16]);
    assert_eq!(session.position(), Position::new());
}

#[test]
fn random_sessions_differ_in_instance() {
    let first = Session::new().instance();
    let mut differs = false;
    for _ in 0..20 {
        if Session::new().instance() != first {
            differs = true;
        }
    }
    assert!(differs);
}

#[test]
fn position_starts_at_the_origin_with_the_identity() {
    let position = Position::new();
    assert_eq!(position.pos, [0.0f64.to_bits(); 3]);
    assert_eq!(
        position.rot,
        [0.0f64.to_bits(), 0.0f64.to_bits(), 0.0f64.to_bits(), 1.0f64.to_bits()]
    );
    assert_eq!(ONE, 1.0f64.to_bits());
}

#[test]
fn spatial_state_is_stored_as_given() {
    let mut session = Session::with_instance(1);
    let position = Position {
        pos: [1.0f64.to_bits(), 2.0f64.to_bits(), 3.0f64.to_bits()],
        rot: [0.5f64.to_bits(), 0.5f64.to_bits(), 0.5f64.to_bits(), 0.5f64.to_bits()],
    };
    session.set_position(position);
    assert_eq!(session.position(), position);
    let mut matrix = [0u64; 16];
    for (i, entry) in matrix.iter_mut().enumerate() {
        *entry = (i as f64).to_bits();
    }
    session.set_view_matrix(matrix);
    assert_eq!(session.view_matrix(), matrix);
    assert_eq!(session.position(), position);
    assert_eq!(session.instance(), 1);
    assert_eq!(session.transactions(), 1);
}

#[test]
fn the_played_back_sample_turns_about_the_first_axis() {
    let sample = MotionSample::synthesize();
    assert_eq!(
        sample,
        MotionSample { event_type: 0, x: 0, y: 0, z: 0, rx: 50, ry: 0, rz: 0, period: 0 }
    );
    assert!(sample.has_rotation());
    assert_eq!(sample.rotation_norm_squared(), 2500);
}

#[test]
fn rotation_norm_squared_is_exact() {
    let sample = |rx, ry, rz| MotionSample { event_type: 0, x: 9, y: 9, z: 9, rx, ry, rz, period: 0 };
    assert_eq!(sample(0, 0, 0).rotation_norm_squared(), 0);
    assert_eq!(sample(3, -4, 12).rotation_norm_squared(), 169);
    assert_eq!(sample(-1, 0, 0).rotation_norm_squared(), 1);
    assert_eq!(
        sample(i32::MIN, i32::MIN, i32::MIN).rotation_norm_squared(),
        3 * (1u64 << 62)
    );
    assert_eq!(
        sample(i32::MAX, 0, 46341).rotation_norm_squared(),
        2147483647u64 * 2147483647u64 + 46341u64 * 46341u64
    );
}

#[test]
fn a_sample_without_rotation_does_not_turn() {
    let still = MotionSample { event_type: 0, x: 5, y: -6, z: 7, rx: 0, ry: 0, rz: 0, period: 3 };
    assert!(!still.has_rotation());
    for (rx, ry, rz) in [(1, 0, 0), (0, -1, 0), (0, 0, i32::MIN), (65536, 65536, 0)] {
        let sample = MotionSample { rx, ry, rz, ..still };
        assert!(sample.has_rotation());
        assert!(sample.rotation_norm_squared() > 0);
    }
}
