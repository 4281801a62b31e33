use ftctui::app::{get_auto_opmodes, get_opmodes, get_selected_opmode, get_teleop_opmodes, AUTO_BLOCK_ID, ROBOT_BLOCK_ID, TELEOP_BLOCK_ID};
use ftctui::ftc_proto::robot_command::{OpModeData, OpModeFlavor};

fn opmode(name: &str, group: &str, flavor: OpModeFlavor) -> OpModeData {
    OpModeData {
        name: String::from(name),
        group: String::from(group),
        flavor,
        source: None,
        system_opmode_display_name: None,
    }
}

fn list() -> Vec<OpModeData> {
    vec![
        opmode("$Stop$Robot$", "$$$$$$$", OpModeFlavor::System),
        opmode("Robot", "$$$$$$$", OpModeFlavor::Teleop),
        opmode("CoolerRobot", "$$$$$$$", OpModeFlavor::Teleop),
        opmode("Autonomous", "jože", OpModeFlavor::Autonomous),
        opmode("CoolerAutonomous", "jože", OpModeFlavor::Autonomous),
        opmode("Bautonomous", "$$$$$$$", OpModeFlavor::Autonomous),
    ]
}

fn names(v: &[OpModeData]) -> Vec<&str> {
    v.iter().map(|o| o.name.as_str()).collect()
}

#[test]
fn opmodes_sorted_by_group_then_name() {
    let sorted = get_opmodes(Some(list()));
    let mut expected = list();
    expected.sort_by(|a, b| a.group.cmp(&b.group).then_with(|| a.name.cmp(&b.name)));
    assert_eq!(sorted, expected);
    assert_eq!(
        names(&sorted),
        vec!["$Stop$Robot$", "Bautonomous", "CoolerRobot", "Robot", "Autonomous", "CoolerAutonomous"]
    );
}

#[test]
fn no_list_yet_means_no_opmodes() {
    assert!(get_opmodes(None).is_empty());
    assert!(get_teleop_opmodes(None).is_empty());
}

#[test]
fn sorting_is_stable_for_equal_keys() {
    let a = opmode("Same", "g", OpModeFlavor::Teleop);
    let b = opmode("Same", "g", OpModeFlavor::Autonomous);
    let sorted = get_opmodes(Some(vec![a.clone(), b.clone()]));
    assert_eq!(sorted, vec![a.clone(), b.clone()]);
    let sorted = get_opmodes(Some(vec![b.clone(), a.clone()]));
    assert_eq!(sorted, vec![b, a]);
}

#[test]
fn teleop_and_auto_lists() {
    assert_eq!(names(&get_teleop_opmodes(Some(list()))), vec!["CoolerRobot", "Robot"]);
    assert_eq!(
        names(&get_auto_opmodes(Some(list()))),
        vec!["Bautonomous", "Autonomous", "CoolerAutonomous"]
    );
}

#[test]
fn selected_opmode_follows_the_selected_block() {
    let t = get_selected_opmode(TELEOP_BLOCK_ID, Some(1), Some(0), Some(list())).unwrap();
    assert_eq!(t.name, "Robot");
    let a = get_selected_opmode(AUTO_BLOCK_ID, Some(0), None, Some(list())).unwrap();
    assert_eq!(a.name, "Bautonomous");
    assert!(get_selected_opmode(AUTO_BLOCK_ID, Some(0), Some(3), Some(list())).is_none());
    assert!(get_selected_opmode(ROBOT_BLOCK_ID, Some(0), Some(0), Some(list())).is_none());
}

#[test]
fn the_listing_does_not_depend_on_arrival_order() {
    let mut reversed = list();
    reversed.reverse();
    assert_eq!(get_opmodes(Some(list())), get_opmodes(Some(reversed)));
    // Two different opmodes sharing group and name keep the order they came in.
    let a = opmode("Same", "g", OpModeFlavor::Teleop);
    let b = opmode("Same", "g", OpModeFlavor::Autonomous);
    assert_eq!(get_opmodes(Some(vec![a.clone(), b.clone()])), vec![a.clone(), b.clone()]);
    assert_eq!(get_opmodes(Some(vec![b.clone(), a.clone()])), vec![b, a]);
}
