use riffra::model::AudioState;
use riffra::rack_macros::{find_macro, macro_change_result, map_macro, set_macro_value, RackMacro};

fn macro_control(id: &str, value: u32, parameter_index: Option<u32>) -> RackMacro<u32> {
    RackMacro { id: id.to_string(), name: id.to_uppercase(), value, parameter_index }
}

#[test]
fn setting_a_macro_changes_only_that_macro_and_reports_its_parameter() {
    let mut macros = vec![macro_control("tone", 1, Some(3)), macro_control("drive", 2, None)];
    assert_eq!(set_macro_value(&mut macros, "tone", 9), Ok(Some(3)));
    assert_eq!(macros[0], macro_control("tone", 9, Some(3)));
    assert_eq!(macros[1], macro_control("drive", 2, None));
    assert_eq!(set_macro_value(&mut macros, "drive", 7), Ok(None));
    assert_eq!(macros[1], macro_control("drive", 7, None));
}

#[test]
fn an_unknown_macro_is_rejected_and_nothing_changes() {
    let mut macros = vec![macro_control("tone", 1, Some(3))];
    assert_eq!(
        set_macro_value(&mut macros, "mix", 5),
        Err("Rack macro is not registered: mix".to_string())
    );
    assert_eq!(map_macro(&mut macros, "mix", Some(1)), Err("Rack macro is not registered: mix".to_string()));
    assert_eq!(macros, vec![macro_control("tone", 1, Some(3))]);
    assert_eq!(find_macro(&macros, "mix"), None);
}

#[test]
fn mapping_a_macro_keeps_its_value() {
    let mut macros = vec![macro_control("tone", 4, None), macro_control("tone", 8, None)];
    assert_eq!(map_macro(&mut macros, "tone", Some(12)), Ok(()));
    assert_eq!(macros[0], macro_control("tone", 4, Some(12)));
    assert_eq!(macros[1], macro_control("tone", 8, None));
    assert_eq!(map_macro(&mut macros, "tone", None), Ok(()));
    assert_eq!(macros[0], macro_control("tone", 4, None));
    assert_eq!(find_macro(&macros, "tone"), Some(0));
}

#[test]
fn a_rejected_runtime_change_is_reported() {
    assert_eq!(macro_change_result(AudioState::Ready, ""), Ok(()));
    assert_eq!(
        macro_change_result(AudioState::Faulted, "plugin crashed"),
        Err("Runtime rejected rack macro change: plugin crashed".to_string())
    );
}
