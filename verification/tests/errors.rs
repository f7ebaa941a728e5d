use roboticsinrust::error::{check_length, ConfigError, IkError};
use roboticsinrust::inverse_kinematics_solvers::{
    IkSolver, UrtArithmetic, UrtIkSolver, URT_JOINTS, URT_LINK_PARAMETERS,
};

#[test]
fn check_length_accepts_equal_lengths() {
    assert_eq!(check_length(6, 6), Ok(()));
    assert_eq!(check_length(0, 0), Ok(()));
}

#[test]
fn check_length_reports_both_lengths() {
    assert_eq!(
        check_length(6, 5),
        Err(ConfigError::LengthMismatch { expected: 6, provided: 5 })
    );
    assert_eq!(
        check_length(0, 1),
        Err(ConfigError::LengthMismatch { expected: 0, provided: 1 })
    );
}

#[test]
fn config_errors_describe_themselves() {
    assert_eq!(ConfigError::EmptyChain.message(), "DH table is empty");
    assert_eq!(
        ConfigError::LengthMismatch { expected: 6, provided: 2 }.message(),
        "Array length mismatch"
    );
    assert_eq!(
        ConfigError::InvalidJointReference { frame: 3 }.message(),
        "Joint index out of bounds"
    );
}

#[test]
fn ik_errors_describe_themselves() {
    assert_eq!(
        IkError::LinkParameterCount { expected: 5, provided: 4 }.message(),
        "Wrong number of link parameters"
    );
    assert_eq!(IkError::OutOfWorkspace.message(), "Target out of workspace");
    assert_eq!(
        IkError::DegenerateOrientation.message(),
        "One or more joint angles are invalid"
    );
}

#[test]
fn solver_needs_five_link_parameters_and_gives_six_angles() {
    assert_eq!(URT_LINK_PARAMETERS, 5);
    assert_eq!(URT_JOINTS, 6);
}

#[test]
fn solver_accepts_exactly_five_link_parameters() {
    assert_eq!(UrtIkSolver.check_link_parameters(5), Ok(()));
}

#[test]
fn solver_rejects_any_other_number_of_link_parameters() {
    for provided in [0usize, 1, 4, 6, 7, 100] {
        assert_eq!(
            UrtIkSolver.check_link_parameters(provided),
            Err(IkError::LinkParameterCount { expected: 5, provided })
        );
    }
}

/// An arithmetic on integers that records the steps it is asked for.
#[derive(Default)]
struct Steps {
    taken: std::cell::RefCell<Vec<String>>,
}

impl Steps {
    fn note(&self, step: String) {
        self.taken.borrow_mut().push(step);
    }
}

impl UrtArithmetic<i64, &'static str> for Steps {
    type WristCenter = i64;

    fn wrist_center(&self, x: i64, y: i64, z: i64, r: &&'static str, l4: i64, l5: i64) -> i64 {
        self.note(format!("wrist_center({},{},{},{},{},{})", x, y, z, r, l4, l5));
        x + y + z
    }

    fn base_angle(&self, wrist: &i64) -> i64 {
        self.note(format!("base_angle({})", wrist));
        1
    }

    fn elbow_cosine(&self, wrist: &i64, l1: i64, l2: i64, l3: i64) -> i64 {
        self.note(format!("elbow_cosine({},{},{},{})", wrist, l1, l2, l3));
        *wrist
    }

    fn magnitude(&self, value: i64) -> i64 {
        value.abs()
    }

    fn one(&self) -> i64 {
        1
    }

    fn elbow_angle(&self, cosine: i64) -> i64 {
        self.note(format!("elbow_angle({})", cosine));
        3
    }

    fn shoulder_angle(&self, wrist: &i64, cosine: i64, l1: i64, l2: i64, l3: i64) -> i64 {
        self.note(format!("shoulder_angle({},{},{},{},{})", wrist, cosine, l1, l2, l3));
        2
    }

    fn wrist_angles(&self, r: &&'static str, base: i64, shoulder: i64, elbow: i64) -> (i64, i64, i64) {
        self.note(format!("wrist_angles({},{},{},{})", r, base, shoulder, elbow));
        if *r == "degenerate" {
            (4, i64::MAX, 6)
        } else {
            (4, 5, 6)
        }
    }

    fn is_finite(&self, angle: i64) -> bool {
        angle != i64::MAX
    }
}

const LINKS: [i64; 5] = [9, 34, 32, 15, 16];

#[test]
fn solve_ik_returns_the_six_angles_in_joint_order() {
    let steps = Steps::default();
    let result = UrtIkSolver.solve_ik(&steps, 1, 0, 0, &"R", &LINKS);
    assert_eq!(result, Ok([1, 2, 3, 4, 5, 6]));
}

#[test]
fn solve_ik_hands_each_step_its_link_lengths() {
    let steps = Steps::default();
    UrtIkSolver.solve_ik(&steps, 2, -1, 0, &"R", &LINKS).unwrap();
    let mut taken = steps.taken.borrow().clone();
    assert_eq!(taken.remove(0), "wrist_center(2,-1,0,R,15,16)");
    assert_eq!(taken.remove(0), "elbow_cosine(1,9,34,32)");
    taken.sort();
    assert_eq!(
        taken,
        vec![
            "base_angle(1)",
            "elbow_angle(1)",
            "shoulder_angle(1,1,9,34,32)",
            "wrist_angles(R,1,2,3)",
        ]
    );
}

#[test]
fn solve_ik_rejects_the_link_count_before_computing() {
    for links in [&LINKS[..4], &[], &[1, 2, 3, 4, 5, 6]] {
        let steps = Steps::default();
        let result = UrtIkSolver.solve_ik(&steps, 1, 0, 0, &"R", links);
        assert_eq!(
            result,
            Err(IkError::LinkParameterCount { expected: 5, provided: links.len() })
        );
        assert!(steps.taken.borrow().is_empty());
    }
}

#[test]
fn target_out_of_reach_is_a_workspace_error() {
    for (x, y, z) in [(2, 0, 0), (0, -2, 0), (100, 100, 100), (0, 0, -7)] {
        let steps = Steps::default();
        let result = UrtIkSolver.solve_ik(&steps, x, y, z, &"R", &LINKS);
        assert_eq!(result, Err(IkError::OutOfWorkspace));
        assert_eq!(steps.taken.borrow().len(), 2);
    }
}

#[test]
fn cosine_of_magnitude_one_is_within_reach() {
    for x in [-1, 0, 1] {
        let steps = Steps::default();
        assert!(UrtIkSolver.solve_ik(&steps, x, 0, 0, &"R", &LINKS).is_ok());
    }
}

#[test]
fn non_finite_angle_is_a_degenerate_orientation() {
    let steps = Steps::default();
    let result = UrtIkSolver.solve_ik(&steps, 1, 0, 0, &"degenerate", &LINKS);
    assert_eq!(result, Err(IkError::DegenerateOrientation));
}

#[test]
fn workspace_error_comes_before_degeneracy() {
    let steps = Steps::default();
    let result = UrtIkSolver.solve_ik(&steps, 5, 0, 0, &"degenerate", &LINKS);
    assert_eq!(result, Err(IkError::OutOfWorkspace));
}

#[test]
fn link_count_is_judged_before_reach() {
    let steps = Steps::default();
    let result = UrtIkSolver.solve_ik(&steps, 5, 0, 0, &"degenerate", &LINKS[..3]);
    assert_eq!(
        result,
        Err(IkError::LinkParameterCount { expected: 5, provided: 3 })
    );
}
