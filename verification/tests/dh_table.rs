use roboticsinrust::algebra::Algebra;
use roboticsinrust::dh::{DHRow, DHTable, FrameType};
use roboticsinrust::error::ConfigError;
use roboticsinrust::jacobian::JacobianColumn;
use roboticsinrust::joint::{Joint, JointType};

/// An algebra that writes down what it is asked to compute.
struct Symbols;

impl Algebra<&'static str, i32> for Symbols {
    type Transform = String;
    type Vector = String;
    type Matrix = String;

    fn to_radians(&self, degrees: i32) -> i32 {
        degrees * 1000
    }

    fn to_degrees(&self, radians: i32) -> i32 {
        radians / 1000
    }

    fn parameters(&self, _a: i32, _alpha: i32, _d: i32, _theta: i32) -> &'static str {
        "row"
    }

    fn components(&self, _params: &&'static str) -> (i32, i32, i32, i32) {
        (0, 0, 0, 0)
    }

    fn identity(&self) -> String {
        String::from("I")
    }

    fn translate_x(&self, params: &&'static str) -> String {
        format!("Tx({})", params)
    }

    fn rotate_x(&self, params: &&'static str) -> String {
        format!("Rx({})", params)
    }

    fn translate_z(&self, params: &&'static str, joint_variable: Option<i32>) -> String {
        match joint_variable {
            Some(q) => format!("Tz({}+{})", params, q),
            None => format!("Tz({})", params),
        }
    }

    fn rotate_z(&self, params: &&'static str, joint_variable: Option<i32>) -> String {
        match joint_variable {
            Some(q) => format!("Rz({}+{})", params, q),
            None => format!("Rz({})", params),
        }
    }

    fn compose(&self, left: &String, right: &String) -> String {
        if left == "I" {
            right.clone()
        } else {
            format!("{}.{}", left, right)
        }
    }

    fn z_axis(&self, pose: &String) -> String {
        format!("z[{}]", pose)
    }

    fn position(&self, pose: &String) -> String {
        format!("p[{}]", pose)
    }

    fn difference(&self, minuend: &String, subtrahend: &String) -> String {
        format!("({} - {})", minuend, subtrahend)
    }

    fn cross(&self, left: &String, right: &String) -> String {
        format!("{} x {}", left, right)
    }

    fn zero(&self) -> String {
        String::from("0")
    }

    fn assemble(&self, columns: &Vec<JacobianColumn<String>>) -> String {
        let columns: Vec<String> = columns
            .iter()
            .map(|column| format!("{} ; {}", column.linear, column.angular))
            .collect();
        format!("[{}]", columns.join(" | "))
    }

    fn transpose(&self, matrix: &String) -> String {
        format!("{}^T", matrix)
    }

    fn multiply(&self, left: &String, right: &String) -> String {
        format!("{} {}", left, right)
    }

    fn default_damping(&self) -> i32 {
        7
    }

    fn damp(&self, matrix: &String, order: usize, lambda: i32) -> String {
        format!("({} + {}^2 I{})", matrix, lambda, order)
    }

    fn try_inverse(&self, matrix: &String) -> Option<String> {
        if matrix.contains("singular") {
            None
        } else {
            Some(format!("{}^-1", matrix))
        }
    }

    fn zeros(&self, rows: usize, columns: usize) -> String {
        format!("0[{}x{}]", rows, columns)
    }
}

/// A row whose transform is written T<name>.
fn row(name: &'static str, frame_type: FrameType, joint_index: Option<usize>) -> DHRow<&'static str> {
    DHRow::new(name, frame_type, joint_index)
}

fn joints_at(positions: &[i32]) -> Vec<Joint<i32>> {
    positions
        .iter()
        .map(|position| Joint::new(JointType::Revolute, *position, 0))
        .collect()
}

fn mixed_chain() -> DHTable<&'static str> {
    let mut table = DHTable::new_empty();
    table.insert_row(row("a", FrameType::Revolute, Some(0)));
    table.insert_row(row("b", FrameType::Fixed, None));
    table.insert_row(row("c", FrameType::Prismatic, Some(1)));
    table.insert_row(row("d", FrameType::Revolute, Some(2)));
    table
}

fn transform_of(name: &str, tz: &str, rz: &str) -> String {
    format!("Tx({0}).Rx({0}).Tz({1}).Rz({2})", name, tz, rz)
}

fn six_joint_arm() -> DHTable<&'static str> {
    let mut table = DHTable::new_empty();
    table.insert_row(DHRow::new("base", FrameType::Revolute, Some(0)));
    table.insert_row(DHRow::new("shoulder", FrameType::Revolute, Some(1)));
    table.insert_row(DHRow::new("elbow", FrameType::Revolute, Some(2)));
    table.insert_row(DHRow::new("roll", FrameType::Revolute, Some(3)));
    table.insert_row(DHRow::new("pitch", FrameType::Revolute, Some(4)));
    table.insert_row(DHRow::new("yaw", FrameType::Revolute, Some(5)));
    table.insert_row(DHRow::new("tool", FrameType::Fixed, None));
    table
}

#[test]
fn new_table_is_empty() {
    let table: DHTable<u8> = DHTable::new_empty();
    assert_eq!(table.num_frames(), 0);
    assert_eq!(table.num_joints(), 0);
    assert!(table.joint_indices().is_empty());
}

#[test]
fn insert_row_appends_at_the_tip() {
    let mut table = DHTable::new_empty();
    table.insert_row(DHRow::new(10u32, FrameType::Fixed, None));
    table.insert_row(DHRow::new(20u32, FrameType::Prismatic, Some(0)));
    table.insert_row(DHRow::new(30u32, FrameType::Revolute, Some(1)));
    assert_eq!(table.num_frames(), 3);
    assert_eq!(table.row(0).params, 10);
    assert_eq!(table.row(1).params, 20);
    assert_eq!(table.row(2).params, 30);
    assert_eq!(table.row(0).frame_type, FrameType::Fixed);
    assert_eq!(table.row(1).frame_type, FrameType::Prismatic);
    assert_eq!(table.row(2).joint_index, Some(1));
}

#[test]
fn num_joints_counts_moving_frames_only() {
    let table = six_joint_arm();
    assert_eq!(table.num_frames(), 7);
    assert_eq!(table.num_joints(), 6);
}

#[test]
fn joint_indices_skip_fixed_frames() {
    let mut table = DHTable::new_empty();
    table.insert_row(DHRow::new((), FrameType::Fixed, None));
    table.insert_row(DHRow::new((), FrameType::Revolute, Some(0)));
    table.insert_row(DHRow::new((), FrameType::Fixed, None));
    table.insert_row(DHRow::new((), FrameType::Prismatic, Some(1)));
    table.insert_row(DHRow::new((), FrameType::Revolute, Some(2)));
    table.insert_row(DHRow::new((), FrameType::Fixed, None));
    assert_eq!(table.joint_indices(), vec![1, 3, 4]);
    assert_eq!(table.num_joints(), 3);
}

#[test]
fn joint_indices_of_the_six_joint_arm() {
    assert_eq!(six_joint_arm().joint_indices(), vec![0, 1, 2, 3, 4, 5]);
}

#[test]
fn chain_of_fixed_frames_has_no_joints() {
    let mut table = DHTable::new_empty();
    table.insert_row(DHRow::new(1, FrameType::Fixed, None));
    table.insert_row(DHRow::new(2, FrameType::Fixed, None));
    assert_eq!(table.num_joints(), 0);
    assert!(table.joint_indices().is_empty());
    assert_eq!(table.check_chain(0), Ok(()));
}

#[test]
fn check_chain_accepts_the_six_joint_arm() {
    assert_eq!(six_joint_arm().check_chain(6), Ok(()));
}

#[test]
fn check_chain_rejects_an_empty_chain() {
    let table: DHTable<u8> = DHTable::new_empty();
    assert_eq!(table.check_chain(0), Err(ConfigError::EmptyChain));
    assert_eq!(table.check_chain(3), Err(ConfigError::EmptyChain));
}

#[test]
fn check_chain_rejects_another_number_of_joints() {
    let table = six_joint_arm();
    assert_eq!(
        table.check_chain(5),
        Err(ConfigError::LengthMismatch { expected: 6, provided: 5 })
    );
    assert_eq!(
        table.check_chain(7),
        Err(ConfigError::LengthMismatch { expected: 6, provided: 7 })
    );
}

#[test]
fn check_chain_reports_the_first_dangling_frame() {
    let mut table = DHTable::new_empty();
    table.insert_row(DHRow::new('a', FrameType::Revolute, Some(0)));
    table.insert_row(DHRow::new('b', FrameType::Fixed, Some(99)));
    table.insert_row(DHRow::new('c', FrameType::Prismatic, Some(3)));
    table.insert_row(DHRow::new('d', FrameType::Revolute, None));
    assert_eq!(
        table.check_chain(3),
        Err(ConfigError::InvalidJointReference { frame: 2 })
    );
}

#[test]
fn check_chain_rejects_a_joint_without_index() {
    let mut table = DHTable::new_empty();
    table.insert_row(DHRow::new('a', FrameType::Revolute, None));
    assert_eq!(
        table.check_chain(1),
        Err(ConfigError::InvalidJointReference { frame: 0 })
    );
}

#[test]
fn joint_count_is_checked_before_joint_references() {
    let mut table = DHTable::new_empty();
    table.insert_row(DHRow::new('a', FrameType::Revolute, Some(7)));
    assert_eq!(
        table.check_chain(2),
        Err(ConfigError::LengthMismatch { expected: 1, provided: 2 })
    );
}

#[test]
fn fixed_frame_is_never_dangling() {
    let row = DHRow::new(0u8, FrameType::Fixed, Some(12));
    assert!(!row.is_dangling(0));
    let row = DHRow::new(0u8, FrameType::Fixed, None);
    assert!(!row.is_dangling(5));
}

#[test]
fn moving_frame_dangles_beyond_the_joint_array() {
    let row = DHRow::new(0u8, FrameType::Revolute, Some(2));
    assert!(row.is_dangling(2));
    assert!(!row.is_dangling(3));
    let row = DHRow::new(0u8, FrameType::Prismatic, None);
    assert!(row.is_dangling(10));
}

#[test]
fn row_transform_is_tx_rx_tz_rz() {
    let fixed = row("e", FrameType::Fixed, None);
    assert_eq!(fixed.get_row_trans_mat(&Symbols, None), "Tx(e).Rx(e).Tz(e).Rz(e)");
}

#[test]
fn revolute_joint_turns_theta_only() {
    let revolute = row("r", FrameType::Revolute, Some(0));
    assert_eq!(
        revolute.get_row_trans_mat(&Symbols, Some(30)),
        "Tx(r).Rx(r).Tz(r).Rz(r+30)"
    );
}

#[test]
fn prismatic_joint_shifts_d_only() {
    let prismatic = row("s", FrameType::Prismatic, Some(0));
    assert_eq!(
        prismatic.get_row_trans_mat(&Symbols, Some(7)),
        "Tx(s).Rx(s).Tz(s+7).Rz(s)"
    );
}

#[test]
fn fixed_row_ignores_a_joint_variable() {
    let fixed = row("e", FrameType::Fixed, Some(0));
    assert_eq!(
        fixed.get_row_trans_mat(&Symbols, Some(99)),
        "Tx(e).Rx(e).Tz(e).Rz(e)"
    );
}

#[test]
fn moving_row_without_joint_is_evaluated_from_its_constants() {
    let revolute = row("r", FrameType::Revolute, None);
    assert_eq!(revolute.get_row_trans_mat(&Symbols, None), "Tx(r).Rx(r).Tz(r).Rz(r)");
}

#[test]
fn row_reads_the_position_of_its_joint() {
    let joints = joints_at(&[10, 20, 30]);
    assert_eq!(row("r", FrameType::Revolute, Some(1)).joint_variable(&joints), Some(20));
    assert_eq!(row("s", FrameType::Prismatic, Some(2)).joint_variable(&joints), Some(30));
    assert_eq!(row("e", FrameType::Fixed, Some(1)).joint_variable(&joints), None);
    assert_eq!(row("r", FrameType::Revolute, Some(3)).joint_variable(&joints), None);
    assert_eq!(row("r", FrameType::Revolute, None).joint_variable(&joints), None);
}

#[test]
fn transform_composes_the_rows_of_the_range_in_order() {
    let table = mixed_chain();
    let joints = joints_at(&[1, 2, 3]);
    let a = transform_of("a", "a", "a+1");
    let b = transform_of("b", "b", "b");
    let c = transform_of("c", "c+2", "c");
    let d = transform_of("d", "d", "d+3");
    assert_eq!(
        table.transformation_matrix_j_i(&Symbols, &joints, 0, 4),
        format!("{}.{}.{}.{}", a, b, c, d)
    );
    assert_eq!(
        table.transformation_matrix_j_i(&Symbols, &joints, 1, 3),
        format!("{}.{}", b, c)
    );
    assert_eq!(table.transformation_matrix_j_i(&Symbols, &joints, 3, 4), d);
    assert_eq!(
        table.forward_kinematics(&Symbols, &joints),
        format!("{}.{}.{}.{}", a, b, c, d)
    );
}

#[test]
fn all_poses_is_the_running_composition() {
    let table = mixed_chain();
    let joints = joints_at(&[1, 2, 3]);
    let poses = table.all_poses(&Symbols, &joints);
    assert_eq!(poses.len(), 4);
    let a = transform_of("a", "a", "a+1");
    let b = transform_of("b", "b", "b");
    assert_eq!(poses[0], a);
    assert_eq!(poses[1], format!("{}.{}", a, b));
    for k in 0..4 {
        assert_eq!(poses[k], table.transformation_matrix_j_i(&Symbols, &joints, 0, k + 1));
    }
    assert_eq!(poses[3], table.forward_kinematics(&Symbols, &joints));
}

#[test]
fn poses_of_an_empty_table_are_none() {
    let table: DHTable<&'static str> = DHTable::new_empty();
    assert!(table.all_poses(&Symbols, &[]).is_empty());
}

/// An algebra that counts the products of transforms it is asked for.
struct Counting {
    products: std::cell::Cell<usize>,
}

impl Algebra<(), i32> for Counting {
    type Transform = ();
    type Vector = ();
    type Matrix = ();

    fn to_radians(&self, degrees: i32) -> i32 {
        degrees
    }

    fn to_degrees(&self, radians: i32) -> i32 {
        radians
    }

    fn parameters(&self, _a: i32, _alpha: i32, _d: i32, _theta: i32) {}

    fn components(&self, _params: &()) -> (i32, i32, i32, i32) {
        (0, 0, 0, 0)
    }

    fn identity(&self) {}

    fn translate_x(&self, _params: &()) {}

    fn rotate_x(&self, _params: &()) {}

    fn translate_z(&self, _params: &(), _joint_variable: Option<i32>) {}

    fn rotate_z(&self, _params: &(), _joint_variable: Option<i32>) {}

    fn compose(&self, _left: &(), _right: &()) {
        self.products.set(self.products.get() + 1);
    }

    fn z_axis(&self, _pose: &()) {}

    fn position(&self, _pose: &()) {}

    fn difference(&self, _minuend: &(), _subtrahend: &()) {}

    fn cross(&self, _left: &(), _right: &()) {}

    fn zero(&self) {}

    fn assemble(&self, _columns: &Vec<JacobianColumn<()>>) {}

    fn transpose(&self, _matrix: &()) {}

    fn multiply(&self, _left: &(), _right: &()) {}

    fn default_damping(&self) -> i32 {
        0
    }

    fn damp(&self, _matrix: &(), _order: usize, _lambda: i32) {}

    fn try_inverse(&self, _matrix: &()) -> Option<()> {
        Some(())
    }

    fn zeros(&self, _rows: usize, _columns: usize) {}
}

#[test]
fn all_poses_costs_a_number_of_products_linear_in_the_frames() {
    for frames in [1usize, 2, 7, 40] {
        let mut table = DHTable::new_empty();
        for _ in 0..frames {
            table.insert_row(DHRow::new((), FrameType::Fixed, None));
        }
        let counting = Counting { products: std::cell::Cell::new(0) };
        let poses = table.all_poses(&counting, &[]);
        assert_eq!(poses.len(), frames);
        assert_eq!(counting.products.get(), 4 * frames);

        let counting = Counting { products: std::cell::Cell::new(0) };
        table.jacobian_columns(&counting, &[]);
        assert_eq!(counting.products.get(), 4 * frames);
    }
}

#[test]
fn row_is_cloned_with_its_classification() {
    let row = DHRow::new(String::from("elbow"), FrameType::Prismatic, Some(4));
    let copy = row.clone();
    assert_eq!(copy.params, "elbow");
    assert_eq!(copy.frame_type, FrameType::Prismatic);
    assert_eq!(copy.joint_index, Some(4));
}
