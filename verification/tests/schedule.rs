use screen_runtime::app::AppSet;
use screen_runtime::schedule::{
    check_constraint, check_constraints, update_constraints, update_systems, Before, System,
};

fn camera_before_layers() -> Before {
    Before { earlier: System::MoveCamera, later: System::ShiftLayers }
}

#[test]
fn update_order_respects_its_constraints() {
    let order = update_systems();
    assert_eq!(order, vec![System::ApplyTransition, System::MoveCamera, System::ShiftLayers]);
    assert_eq!(update_constraints(), vec![camera_before_layers()]);
    assert!(check_constraints(&order, &update_constraints()));
    assert!(check_constraint(&order, camera_before_layers()));
}

#[test]
fn reversed_order_is_refused() {
    let order = vec![System::ShiftLayers, System::MoveCamera];
    assert!(!check_constraint(&order, camera_before_layers()));
    assert!(!check_constraints(&order, &update_constraints()));
}

#[test]
fn missing_system_is_refused() {
    assert!(!check_constraint(&vec![System::MoveCamera], camera_before_layers()));
    assert!(!check_constraint(&vec![System::ShiftLayers], camera_before_layers()));
    assert!(!check_constraint(&Vec::new(), camera_before_layers()));
}

#[test]
fn late_repeat_is_refused() {
    let order = vec![System::MoveCamera, System::ShiftLayers, System::MoveCamera];
    assert!(!check_constraint(&order, camera_before_layers()));
    let order = vec![System::MoveCamera, System::MoveCamera, System::ShiftLayers];
    assert!(check_constraint(&order, camera_before_layers()));
}

#[test]
fn system_cannot_precede_itself() {
    let order = vec![System::MoveCamera];
    let constraint = Before { earlier: System::MoveCamera, later: System::MoveCamera };
    assert!(!check_constraint(&order, constraint));
}

#[test]
fn no_constraints_accept_any_order() {
    assert!(check_constraints(&vec![System::ShiftLayers, System::MoveCamera], &Vec::new()));
    assert!(check_constraints(&Vec::new(), &Vec::new()));
}

#[test]
fn several_constraints_must_all_hold() {
    let order = update_systems();
    let good = vec![
        camera_before_layers(),
        Before { earlier: System::ApplyTransition, later: System::ShiftLayers },
    ];
    assert!(check_constraints(&order, &good));
    let bad = vec![
        camera_before_layers(),
        Before { earlier: System::ShiftLayers, later: System::ApplyTransition },
    ];
    assert!(!check_constraints(&order, &bad));
}

#[test]
fn systems_run_in_the_last_phase() {
    for system in update_systems() {
        assert_eq!(system.set(), AppSet::Update);
    }
}
