use roboticsinrust::algebra::Algebra;
use roboticsinrust::arm::{Arm, KinematicsCache};
use roboticsinrust::dh::{DHRow, DHTable, FrameType};
use roboticsinrust::error::ConfigError;
use roboticsinrust::jacobian::JacobianColumn;
use roboticsinrust::joint::{Joint, JointType};

/// An algebra that writes down what it is asked to compute, and counts the
/// Jacobians it assembles.
#[derive(Default)]
struct Recording {
    assembled: std::cell::Cell<usize>,
}

impl Algebra<&'static str, i32> for Recording {
    type Transform = String;
    type Vector = String;
    type Matrix = String;

    fn to_radians(&self, degrees: i32) -> i32 {
        degrees * 1000
    }

    fn to_degrees(&self, radians: i32) -> i32 {
        radians / 1000
    }

    fn parameters(&self, _a: i32, _alpha: i32, _d: i32, _theta: i32) -> &'static str {
        "row"
    }

    fn components(&self, _params: &&'static str) -> (i32, i32, i32, i32) {
        (0, 0, 0, 0)
    }

    fn identity(&self) -> String {
        String::from("I")
    }

    fn translate_x(&self, params: &&'static str) -> String {
        format!("Tx({})", params)
    }

    fn rotate_x(&self, params: &&'static str) -> String {
        format!("Rx({})", params)
    }

    fn translate_z(&self, params: &&'static str, joint_variable: Option<i32>) -> String {
        match joint_variable {
            Some(q) => format!("Tz({}+{})", params, q),
            None => format!("Tz({})", params),
        }
    }

    fn rotate_z(&self, params: &&'static str, joint_variable: Option<i32>) -> String {
        match joint_variable {
            Some(q) => format!("Rz({}+{})", params, q),
            None => format!("Rz({})", params),
        }
    }

    fn compose(&self, left: &String, right: &String) -> String {
        if left == "I" {
            right.clone()
        } else {
            format!("{}.{}", left, right)
        }
    }

    fn z_axis(&self, pose: &String) -> String {
        format!("z[{}]", pose)
    }

    fn position(&self, pose: &String) -> String {
        format!("p[{}]", pose)
    }

    fn difference(&self, minuend: &String, subtrahend: &String) -> String {
        format!("({} - {})", minuend, subtrahend)
    }

    fn cross(&self, left: &String, right: &String) -> String {
        format!("{} x {}", left, right)
    }

    fn zero(&self) -> String {
        String::from("0")
    }

    fn assemble(&self, columns: &Vec<JacobianColumn<String>>) -> String {
        self.assembled.set(self.assembled.get() + 1);
        let columns: Vec<String> = columns
            .iter()
            .map(|column| format!("{} ; {}", column.linear, column.angular))
            .collect();
        format!("[{}]", columns.join(" | "))
    }

    fn transpose(&self, matrix: &String) -> String {
        format!("{}^T", matrix)
    }

    fn multiply(&self, left: &String, right: &String) -> String {
        format!("{} {}", left, right)
    }

    fn default_damping(&self) -> i32 {
        7
    }

    fn damp(&self, matrix: &String, order: usize, lambda: i32) -> String {
        format!("({} + {}^2 I{})", matrix, lambda, order)
    }

    fn try_inverse(&self, matrix: &String) -> Option<String> {
        if matrix.contains("singular") {
            None
        } else {
            Some(format!("{}^-1", matrix))
        }
    }

    fn zeros(&self, rows: usize, columns: usize) -> String {
        format!("0[{}x{}]", rows, columns)
    }
}

/// A row whose transform is written T<name>.
fn row(name: &'static str, frame_type: FrameType, joint_index: Option<usize>) -> DHRow<&'static str> {
    DHRow::new(name, frame_type, joint_index)
}

fn joints_at(positions: &[i32]) -> Vec<Joint<i32>> {
    positions
        .iter()
        .map(|position| Joint::new(JointType::Revolute, *position, 0))
        .collect()
}

fn two_joint_table() -> DHTable<&'static str> {
    let mut table = DHTable::new_empty();
    table.insert_row(row("a", FrameType::Revolute, Some(0)));
    table.insert_row(row("b", FrameType::Prismatic, Some(1)));
    table.insert_row(row("e", FrameType::Fixed, None));
    table
}

fn two_joints() -> Vec<Joint<i32>> {
    vec![
        Joint::new(JointType::Revolute, 0, 0),
        Joint::new_with_limits(JointType::Prismatic, 0, 0, -50, 50),
    ]
}

fn two_joint_arm() -> Arm<&'static str, i32, Recording, ()> {
    Arm::new(
        two_joint_table(),
        two_joints(),
        Some(2),
        Recording::default(),
        (),
        Vec::new(),
    )
    .unwrap()
}

fn positions(arm: &Arm<&'static str, i32, Recording, ()>) -> Vec<i32> {
    arm.joint_positions()
}

fn velocities(arm: &Arm<&'static str, i32, Recording, ()>) -> Vec<i32> {
    arm.joint_velocities()
}

fn pose(a: i32, b: i32) -> String {
    format!(
        "Tx(a).Rx(a).Tz(a).Rz(a+{}).Tx(b).Rx(b).Tz(b+{}).Rz(b).Tx(e).Rx(e).Tz(e).Rz(e)",
        a, b
    )
}

#[test]
fn new_cache_is_stale() {
    let cache: KinematicsCache<u8, u8> = KinematicsCache::new();
    assert!(cache.is_dirty());
    assert!(cache.cached().is_none());
}

#[test]
fn filled_cache_is_valid() {
    let cache = KinematicsCache::filled(1u8, 2u8);
    assert!(!cache.is_dirty());
    assert_eq!(cache.cached(), Some((&1, &2)));
}

#[test]
fn update_fills_a_stale_cache() {
    let mut cache = KinematicsCache::new();
    cache.update(|| (10, 20));
    assert!(!cache.is_dirty());
    assert_eq!(cache.cached(), Some((&10, &20)));
}

#[test]
fn update_leaves_a_valid_cache_alone() {
    let mut cache = KinematicsCache::new();
    let calls = std::cell::Cell::new(0u32);
    for round in 0..5 {
        cache.update(|| {
            calls.set(calls.get() + 1);
            (round, round + 100)
        });
    }
    assert_eq!(calls.get(), 1);
    assert_eq!(cache.cached(), Some((&0, &100)));
}

#[test]
fn invalidate_forces_the_next_update_to_compute() {
    let mut cache = KinematicsCache::new();
    cache.update(|| ('a', 'b'));
    cache.invalidate();
    assert!(cache.is_dirty());
    assert!(cache.cached().is_none());
    cache.update(|| ('c', 'd'));
    assert_eq!(cache.cached(), Some((&'c', &'d')));
}

#[test]
fn cache_accessors_compute_on_demand() {
    let mut cache = KinematicsCache::new();
    assert_eq!(*cache.jacobian(|| (1, 2)), 1);
    assert_eq!(*cache.inv_jacobian(|| (3, 4)), 2);
    cache.invalidate();
    assert_eq!(*cache.inv_jacobian(|| (5, 6)), 6);
    assert_eq!(*cache.jacobian(|| (7, 8)), 5);
}

#[test]
fn cache_may_hold_two_kinds_of_values() {
    let mut cache: KinematicsCache<&str, (u8, bool)> = KinematicsCache::new();
    assert_eq!(*cache.inv_jacobian(|| ("J", (1, false))), (1, false));
    assert_eq!(*cache.jacobian(|| ("K", (2, true))), "J");
}

#[test]
fn arm_keeps_chain_joints_and_damping() {
    let arm = two_joint_arm();
    assert_eq!(arm.dh_table().num_frames(), 3);
    assert_eq!(arm.dh_table().num_joints(), 2);
    assert_eq!(arm.joints().len(), 2);
    assert_eq!(arm.joints()[0].joint_type(), JointType::Revolute);
    assert_eq!(arm.joints()[1].limit_max(), Some(50));
    assert_eq!(positions(&arm), vec![0, 0]);
    assert_eq!(velocities(&arm), vec![0, 0]);
    assert_eq!(arm.damping(), 2);
    assert_eq!(arm.algebra().assembled.get(), 0);
}

#[test]
fn arm_rejects_an_empty_chain() {
    let table: DHTable<&'static str> = DHTable::new_empty();
    let arm = Arm::new(table, Vec::new(), Some(2), Recording::default(), (), Vec::new());
    assert_eq!(arm.err(), Some(ConfigError::EmptyChain));
}

#[test]
fn arm_rejects_another_number_of_joints() {
    let mut joints = two_joints();
    joints.push(Joint::new(JointType::Revolute, 0, 0));
    let arm = Arm::new(two_joint_table(), joints, Some(2), Recording::default(), (), Vec::new());
    assert_eq!(
        arm.err(),
        Some(ConfigError::LengthMismatch { expected: 2, provided: 3 })
    );
}

#[test]
fn arm_rejects_a_frame_without_joint() {
    let mut table = DHTable::new_empty();
    table.insert_row(row("a", FrameType::Revolute, Some(0)));
    table.insert_row(row("b", FrameType::Revolute, Some(5)));
    let arm = Arm::new(table, two_joints(), Some(2), Recording::default(), (), Vec::new());
    assert_eq!(
        arm.err(),
        Some(ConfigError::InvalidJointReference { frame: 1 })
    );
}

#[test]
fn joint_of_finds_the_joint_of_a_moving_row() {
    let mut arm = two_joint_arm();
    arm.set_joint_positions(&[11, 22]).unwrap();
    let first = row("x", FrameType::Revolute, Some(0));
    let second = row("y", FrameType::Prismatic, Some(1));
    assert_eq!(arm.joint_of(&first).map(|joint| joint.position()), Some(11));
    assert_eq!(arm.joint_of(&second).map(|joint| joint.position()), Some(22));
}

#[test]
fn joint_of_gives_nothing_for_fixed_or_dangling_rows() {
    let arm = two_joint_arm();
    assert!(arm.joint_of(&row("x", FrameType::Fixed, Some(0))).is_none());
    assert!(arm.joint_of(&row("x", FrameType::Fixed, None)).is_none());
    assert!(arm.joint_of(&row("x", FrameType::Revolute, Some(2))).is_none());
    assert!(arm.joint_of(&row("x", FrameType::Revolute, None)).is_none());
}

#[test]
fn joint_in_looks_the_joint_up_in_any_array() {
    let row = DHRow::new((), FrameType::Prismatic, Some(1));
    assert_eq!(row.joint_in(&['a', 'b', 'c']), Some(&'b'));
    assert_eq!(row.joint_in(&['a']), None);
    let row = DHRow::new((), FrameType::Fixed, Some(1));
    assert_eq!(row.joint_in(&['a', 'b', 'c']), None);
}

#[test]
fn set_joint_positions_moves_every_joint() {
    let mut arm = two_joint_arm();
    assert_eq!(arm.set_joint_positions(&[5, 7]), Ok(()));
    assert_eq!(positions(&arm), vec![5, 7]);
    assert_eq!(arm.set_joint_positions(&[-3, -4]), Ok(()));
    assert_eq!(positions(&arm), vec![-3, -4]);
    assert_eq!(velocities(&arm), vec![0, 0]);
}

#[test]
fn set_joint_positions_clamps_to_each_joint_s_limits() {
    let mut arm = two_joint_arm();
    assert_eq!(arm.set_joint_positions(&[1000, 1000]), Ok(()));
    assert_eq!(positions(&arm), vec![1000, 50]);
    assert_eq!(arm.set_joint_positions(&[-1000, -1000]), Ok(()));
    assert_eq!(positions(&arm), vec![-1000, -50]);
}

#[test]
fn set_joint_velocities_leaves_positions() {
    let mut arm = two_joint_arm();
    arm.set_joint_positions(&[5, 7]).unwrap();
    assert_eq!(arm.set_joint_velocities(&[90, -90]), Ok(()));
    assert_eq!(velocities(&arm), vec![90, -90]);
    assert_eq!(positions(&arm), vec![5, 7]);
}

#[test]
fn set_joint_positions_rejects_another_length() {
    let mut arm = two_joint_arm();
    arm.set_joint_positions(&[5, 7]).unwrap();
    assert_eq!(
        arm.set_joint_positions(&[1, 2, 3]),
        Err(ConfigError::LengthMismatch { expected: 2, provided: 3 })
    );
    assert_eq!(
        arm.set_joint_velocities(&[1]),
        Err(ConfigError::LengthMismatch { expected: 2, provided: 1 })
    );
    assert_eq!(positions(&arm), vec![5, 7]);
    assert_eq!(velocities(&arm), vec![0, 0]);
}

#[test]
fn positions_and_velocities_are_set_together_or_not_at_all() {
    let mut arm = two_joint_arm();
    assert_eq!(arm.set_joint_positions_and_velocities(&[1, 2], &[3, 4]), Ok(()));
    assert_eq!(positions(&arm), vec![1, 2]);
    assert_eq!(velocities(&arm), vec![3, 4]);
    assert_eq!(
        arm.set_joint_positions_and_velocities(&[8, 9], &[3]),
        Err(ConfigError::LengthMismatch { expected: 2, provided: 1 })
    );
    assert_eq!(
        arm.set_joint_positions_and_velocities(&[8], &[3]),
        Err(ConfigError::LengthMismatch { expected: 2, provided: 1 })
    );
    assert_eq!(
        arm.set_joint_positions_and_velocities(&[8, 9, 10], &[3, 4]),
        Err(ConfigError::LengthMismatch { expected: 2, provided: 3 })
    );
    assert_eq!(positions(&arm), vec![1, 2]);
    assert_eq!(velocities(&arm), vec![3, 4]);
}

#[test]
fn arm_computes_kinematics_once_until_joints_change() {
    let mut arm = two_joint_arm();
    assert_eq!(arm.algebra().assembled.get(), 0);
    arm.update();
    arm.update();
    arm.jacobian();
    arm.inv_jacobian();
    arm.is_degenerate();
    assert_eq!(arm.algebra().assembled.get(), 1);

    arm.set_joint_positions(&[3, 4]).unwrap();
    assert_eq!(arm.algebra().assembled.get(), 1);
    arm.inv_jacobian();
    arm.jacobian();
    assert_eq!(arm.algebra().assembled.get(), 2);

    arm.set_joint_velocities(&[0, 0]).unwrap();
    arm.jacobian();
    assert_eq!(arm.algebra().assembled.get(), 3);

    arm.set_joint_positions_and_velocities(&[3, 4], &[0, 0]).unwrap();
    arm.update();
    arm.update();
    assert_eq!(arm.algebra().assembled.get(), 4);
}

#[test]
fn rejected_setter_keeps_the_cache() {
    let mut arm = two_joint_arm();
    arm.update();
    assert!(arm.set_joint_positions(&[1]).is_err());
    assert!(arm.set_joint_velocities(&[1, 2, 3]).is_err());
    assert!(arm.set_joint_positions_and_velocities(&[1, 2], &[]).is_err());
    arm.update();
    assert_eq!(arm.algebra().assembled.get(), 1);
}

#[test]
fn cached_jacobian_is_the_jacobian_of_the_current_joints() {
    let mut arm = two_joint_arm();
    let at_rest = arm.jacobian().clone();
    arm.set_joint_positions(&[30, 4]).unwrap();
    let moved = arm.jacobian().clone();
    assert_ne!(at_rest, moved);
    assert_eq!(
        moved,
        arm.dh_table().compute_jacobian(arm.algebra(), arm.joints())
    );
    let tip = format!("p[{}]", pose(30, 4));
    let first = "Tx(a).Rx(a).Tz(a).Rz(a+30)";
    let second = format!("{}.Tx(b).Rx(b).Tz(b+4).Rz(b)", first);
    assert_eq!(
        moved,
        format!(
            "[z[{0}] x ({2} - p[{0}]) ; z[{0}] | z[{1}] ; 0]",
            first, second, tip
        )
    );
}

#[test]
fn cached_inverse_is_the_damped_inverse_of_the_cached_jacobian() {
    let mut arm = two_joint_arm();
    arm.set_joint_positions(&[1, 2]).unwrap();
    let j = arm.jacobian().clone();
    assert_eq!(
        *arm.inv_jacobian(),
        format!("({0}^T {0} + 2^2 I2)^-1 {0}^T", j)
    );
    assert!(!arm.is_degenerate());
}

#[test]
fn arm_poses_follow_the_chain_and_the_joints() {
    let mut arm = two_joint_arm();
    assert_eq!(arm.ee_pose(), pose(0, 0));
    arm.set_joint_positions(&[100, 20]).unwrap();
    let poses = arm.frame_poses();
    assert_eq!(poses.len(), 3);
    assert_eq!(poses[0], "Tx(a).Rx(a).Tz(a).Rz(a+100)");
    assert_eq!(poses[2], pose(100, 20));
    assert_eq!(arm.ee_pose(), pose(100, 20));
    for k in 0..3 {
        assert_eq!(arm.frame_pose(k), poses[k]);
    }
}

#[test]
fn arm_without_named_damping_takes_the_default() {
    let arm = Arm::new(
        two_joint_table(),
        two_joints(),
        None,
        Recording::default(),
        (),
        Vec::new(),
    )
    .unwrap();
    assert_eq!(arm.damping(), 7);
}
