use psniff_rs::http::routes::status::process;
use psniff_rs::state::appstate;
use psniff_rs::state::interface::Interface;
use psniff_rs::state::packet_count::PacketCount;

#[test]
fn duplicate_registration_is_rejected() {
    let mut st = appstate::new();
    assert!(st.register(Interface::new("en0".to_string())));
    assert!(!st.register(Interface::new("en0".to_string())));
    assert_eq!(st.snapshot_all().len(), 1);
    assert!(st.register(Interface::new("en1".to_string())));
    assert_eq!(st.snapshot_all().len(), 2);
}

#[test]
fn update_counts_touches_only_the_named_interface() {
    let mut st = appstate::new();
    st.register(Interface::new("en0".to_string()));
    st.register(Interface::new("en1".to_string()));
    assert!(st.update_counts(&"en0".to_string(), 10, 1, 2));
    assert_eq!(
        st.counters_for(&"en0".to_string()),
        Some(PacketCount { total: 10, os_dropped: 1, if_dropped: 2 })
    );
    assert_eq!(st.counters_for(&"en1".to_string()), Some(PacketCount::default()));
    assert!(!st.update_counts(&"en2".to_string(), 9, 9, 9));
    assert_eq!(st.counters_for(&"en2".to_string()), None);
}

#[test]
fn snapshot_reports_names_and_totals_in_order() {
    let mut st = appstate::new();
    st.register(Interface::new("a".to_string()));
    st.register(Interface::new("b".to_string()));
    st.update_counts(&"b".to_string(), 42, 0, 0);
    let snap = st.snapshot_all();
    assert_eq!(snap, vec![("a".to_string(), 0), ("b".to_string(), 42)]);
}

#[test]
fn status_total_sums_every_interface() {
    let mut st = appstate::new();
    st.register(Interface::new("a".to_string()));
    st.register(Interface::new("b".to_string()));
    st.update_counts(&"a".to_string(), 7, 0, 0);
    st.update_counts(&"b".to_string(), 35, 0, 0);
    assert_eq!(st.total_count(), 42);
    assert_eq!(process(&st).total_packet_count(), 42);
}

#[test]
fn status_total_saturates_instead_of_wrapping() {
    let mut st = appstate::new();
    st.register(Interface::new("a".to_string()));
    st.register(Interface::new("b".to_string()));
    st.update_counts(&"a".to_string(), u32::MAX, 0, 0);
    st.update_counts(&"b".to_string(), 5, 0, 0);
    assert_eq!(st.total_count(), u32::MAX);
    assert_eq!(process(&st).total_packet_count(), u32::MAX);
}

#[test]
fn clone_is_a_deep_snapshot() {
    let mut st = appstate::new();
    st.register(Interface::new("a".to_string()));
    let snapshot = st.clone();
    st.update_counts(&"a".to_string(), 99, 0, 0);
    assert_eq!(snapshot.counters_for(&"a".to_string()), Some(PacketCount::default()));
    assert_eq!(st.total_count(), 99);
}
