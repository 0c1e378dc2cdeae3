use bevy_async_task::DEFAULT_TIMEOUT_MILLIS;
use bevy_async_task::MAX_TIMEOUT_MILLIS;
use bevy_async_task::web_timer_millis;

#[test]
fn web_timer_accepts_up_to_i32_max() {
    assert_eq!(Some(0), web_timer_millis(0));
    assert_eq!(Some(5), web_timer_millis(5));
    assert_eq!(Some(60_000), web_timer_millis(u128::from(DEFAULT_TIMEOUT_MILLIS)));
    assert_eq!(Some(2_147_483_647), web_timer_millis(2_147_483_647));
    assert_eq!(None, web_timer_millis(2_147_483_648));
    assert_eq!(None, web_timer_millis(u128::MAX));
}

#[test]
fn timeout_limits() {
    assert_eq!(60_000, DEFAULT_TIMEOUT_MILLIS);
    assert_eq!(i32::MAX as u64, MAX_TIMEOUT_MILLIS);
    assert!(DEFAULT_TIMEOUT_MILLIS <= MAX_TIMEOUT_MILLIS);
}
