use luminashot::error::SelectionError;

#[test]
fn a_failure_says_what_went_wrong() {
    assert_eq!(
        SelectionError::Resolution("0x55d0".to_string()).message(),
        "Could not find window with address 0x55d0 after selection"
    );
    assert_eq!(SelectionError::NoMonitor.message(), "Could not find a monitor under the cursor.");
    assert_eq!(SelectionError::Decode.message(), "The selector's output is not valid UTF-8.");
}

#[test]
fn a_failure_of_the_driver_keeps_the_drivers_words() {
    assert_eq!(SelectionError::Query("hyprctl exited with 1".to_string()).message(), "hyprctl exited with 1");
    assert_eq!(SelectionError::Spawn("Failed to spawn slurp".to_string()).message(), "Failed to spawn slurp");
    assert_eq!(SelectionError::Query(String::new()).message(), "");
}
