use orion_core::pomodoro_store::{MemoryPomodoroSettingsStore, PomodoroSettingsStore};

#[test]
fn pomodoro_store_defaults_to_twenty_five_minutes() {
    let store = MemoryPomodoroSettingsStore::new();
    assert_eq!(store.pomodoro_minutes(), 25);
    assert_eq!(store.pomodoro_seconds(), 0);
}

#[test]
fn save_and_load_round_trips() {
    let mut store = MemoryPomodoroSettingsStore::new();
    store.save_pomodoro_settings(30, 45);
    assert_eq!(store.pomodoro_minutes(), 30);
    assert_eq!(store.pomodoro_seconds(), 45);
}
