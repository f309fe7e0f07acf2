use prefix_bot::commands::prefix;
use prefix_bot::settings::{
    prefix_options, resolve_dynamic_prefix, DEFAULT_PREFIX, EDIT_TRACKING_SECS,
};
use prefix_bot::state::SharedPrefixState;

#[test]
fn constants_have_their_values() {
    assert_eq!(DEFAULT_PREFIX, "my_prefix");
    assert_eq!(EDIT_TRACKING_SECS, 3600);
}

#[test]
fn dynamic_prefix_is_the_fixed_default() {
    assert_eq!(resolve_dynamic_prefix(), Some("my_prefix".to_string()));
    assert_eq!(resolve_dynamic_prefix(), resolve_dynamic_prefix());
}

#[test]
fn dynamic_prefix_ignores_the_shared_prefix() {
    let mut state = SharedPrefixState::new();
    assert_eq!(resolve_dynamic_prefix(), Some("my_prefix".to_string()));
    state.set_prefix("other".to_string());
    assert_eq!(resolve_dynamic_prefix(), Some("my_prefix".to_string()));
    prefix(&mut state, "another".to_string());
    assert_eq!(resolve_dynamic_prefix(), Some("my_prefix".to_string()));
    assert_eq!(state.get_prefix(), Some("another".to_string()));
}

#[test]
fn prefix_options_have_the_bots_settings() {
    let options = prefix_options();
    assert_eq!(options.prefix, None);
    assert!(options.dynamic_prefix);
    assert_eq!(options.edit_tracker_secs, Some(3600));
    assert!(options.case_insensitive_commands);
    assert!(options.mention_as_prefix);
}
