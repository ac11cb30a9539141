use naim_remote::api::{Api, VolumeDecision};

fn api() -> Api {
    Api::new("http://sink".to_string(), "http://src".to_string())
}

#[test]
fn increment_at_ceiling_writes_nothing() {
    assert_eq!(
        api().incr_volume(Some(100), None),
        VolumeDecision::Unchanged(Some(100))
    );
}

#[test]
fn increment_just_below_ceiling_writes_100() {
    assert_eq!(api().incr_volume(Some(99), None), VolumeDecision::Write(100));
}

#[test]
fn decrement_at_floor_writes_nothing() {
    assert_eq!(
        api().decr_volume(Some(0), None),
        VolumeDecision::Unchanged(Some(0))
    );
}

#[test]
fn decrement_just_above_floor_writes_0() {
    assert_eq!(api().decr_volume(Some(1), None), VolumeDecision::Write(0));
}

#[test]
fn increment_ordinary_value() {
    assert_eq!(api().incr_volume(Some(40), None), VolumeDecision::Write(41));
}

#[test]
fn decrement_ordinary_value() {
    assert_eq!(api().decr_volume(Some(40), None), VolumeDecision::Write(39));
}

#[test]
fn increment_uses_fetched_value_without_cache() {
    assert_eq!(api().incr_volume(None, Some(50)), VolumeDecision::Write(51));
}

#[test]
fn increment_ignores_fetched_value_with_cache() {
    assert_eq!(api().incr_volume(Some(10), Some(50)), VolumeDecision::Write(11));
}

#[test]
fn increment_without_any_value_changes_nothing() {
    assert_eq!(api().incr_volume(None, None), VolumeDecision::Unchanged(None));
}

#[test]
fn decrement_without_any_value_changes_nothing() {
    assert_eq!(api().decr_volume(None, None), VolumeDecision::Unchanged(None));
}

#[test]
fn increment_fetched_ceiling_keeps_empty_cache() {
    assert_eq!(
        api().incr_volume(None, Some(100)),
        VolumeDecision::Unchanged(None)
    );
}
