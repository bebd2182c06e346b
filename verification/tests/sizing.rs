use deferred_table::sizing::{
    parameters_at, sanitize_dimension, AxisParameters, AxisSizingStore, DEFAULT_MINIMUM_DIMENSION,
};

#[test]
fn default_parameters() {
    let p = AxisParameters::default();
    assert_eq!(p.name, None);
    assert_eq!(p.default_dimension, None);
    assert_eq!(p.minimum_dimension, 10);
    assert_eq!(p.minimum_dimension, DEFAULT_MINIMUM_DIMENSION);
    assert_eq!(p.maximum_dimension, u32::MAX);
    assert!(p.resizable);
    assert!(!p.monospace);
}

#[test]
fn parameters_are_built_field_by_field() {
    let p = AxisParameters::default()
        .name("Width".to_string())
        .default_dimension(120)
        .minimum_dimension(30)
        .maximum_dimension(300)
        .resizable(false)
        .monospace(true);
    assert_eq!(p.name, Some("Width".to_string()));
    assert_eq!(p.default_dimension, Some(120));
    assert_eq!(p.minimum_dimension, 30);
    assert_eq!(p.maximum_dimension, 300);
    assert!(!p.resizable);
    assert!(p.monospace);
}

#[test]
fn negative_dimensions_count_as_zero() {
    assert_eq!(sanitize_dimension(-1), 0);
    assert_eq!(sanitize_dimension(i64::MIN), 0);
    assert_eq!(sanitize_dimension(0), 0);
    assert_eq!(sanitize_dimension(17), 17);
    assert_eq!(sanitize_dimension(u32::MAX as i64), u32::MAX);
    assert_eq!(sanitize_dimension(u32::MAX as i64 + 1), u32::MAX);
    assert_eq!(sanitize_dimension(i64::MAX), u32::MAX);
    let p = AxisParameters::default()
        .default_dimension(-5)
        .minimum_dimension(-7)
        .maximum_dimension(-9);
    assert_eq!(p.default_dimension, Some(0));
    assert_eq!(p.minimum_dimension, 0);
    assert_eq!(p.maximum_dimension, 0);
}

#[test]
fn seed_holds_the_default_to_the_range_only_if_resizable() {
    let resizable = AxisParameters::default().minimum_dimension(20).maximum_dimension(80);
    assert_eq!(resizable.clone().default_dimension(5).seed(50), 20);
    assert_eq!(resizable.clone().default_dimension(500).seed(50), 80);
    assert_eq!(resizable.clone().default_dimension(33).seed(50), 33);
    assert_eq!(resizable.clone().seed(50), 50);
    let fixed = resizable.resizable(false);
    assert_eq!(fixed.clone().default_dimension(5).seed(50), 5);
    assert_eq!(fixed.clone().default_dimension(500).seed(50), 500);
    assert_eq!(fixed.seed(50), 50);
}

#[test]
fn ensure_capacity_grows_and_keeps_what_is_there() {
    let mut store = AxisSizingStore::new();
    assert_eq!(store.len(), 0);
    store.ensure_capacity(3, 40, None);
    assert_eq!(store.as_slice(), &[40, 40, 40]);
    store.set(1, 77);
    store.ensure_capacity(5, 60, None);
    assert_eq!(store.as_slice(), &[40, 77, 40, 60, 60]);
}

#[test]
fn ensure_capacity_never_shrinks() {
    let mut store = AxisSizingStore::from_sizes(vec![11, 22, 33]);
    store.ensure_capacity(2, 40, None);
    assert_eq!(store.as_slice(), &[11, 22, 33]);
    store.ensure_capacity(3, 40, None);
    assert_eq!(store.as_slice(), &[11, 22, 33]);
    store.ensure_capacity(0, 40, None);
    assert_eq!(store.as_slice(), &[11, 22, 33]);
}

#[test]
fn ensure_capacity_seeds_new_slots_from_the_parameters() {
    let parameters = vec![
        AxisParameters::default().default_dimension(500),
        AxisParameters::default().default_dimension(5),
        AxisParameters::default().default_dimension(5).resizable(false),
        AxisParameters::default(),
        AxisParameters::default().default_dimension(90).maximum_dimension(70),
    ];
    let mut store = AxisSizingStore::from_sizes(vec![123]);
    store.ensure_capacity(7, 40, Some(&parameters));
    // slot 0 was there and is left alone, though its parameters have a default
    assert_eq!(store.as_slice(), &[123, 10, 5, 40, 70, 40, 40]);
}

#[test]
fn sizes_come_back_after_the_data_shrank_and_grew() {
    let mut store = AxisSizingStore::new();
    store.ensure_capacity(4, 40, None);
    store.set(3, 99);
    // the data shrinks to two rows, then grows to five
    store.ensure_capacity(2, 40, None);
    store.ensure_capacity(5, 40, None);
    assert_eq!(store.as_slice(), &[40, 40, 40, 99, 40]);
}

#[test]
fn get_falls_back_out_of_range() {
    let store = AxisSizingStore::from_sizes(vec![11, 22]);
    assert_eq!(store.get(0, 5), 11);
    assert_eq!(store.get(1, 5), 22);
    assert_eq!(store.get(2, 5), 5);
    assert_eq!(store.get(usize::MAX, 6), 6);
    assert_eq!(AxisSizingStore::default().get(0, 7), 7);
}

#[test]
fn parameters_at_looks_up_by_data_index() {
    let parameters = vec![
        AxisParameters::default().name("a".to_string()),
        AxisParameters::default().name("b".to_string()),
    ];
    assert_eq!(
        parameters_at(Some(&parameters), 1).map(|p| p.name.clone()),
        Some(Some("b".to_string()))
    );
    assert!(parameters_at(Some(&parameters), 2).is_none());
    assert!(parameters_at(None, 0).is_none());
}
