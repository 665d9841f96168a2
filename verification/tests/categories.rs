use reverie::categories::{Category, CategoryFilter};

#[test]
fn default_has_memory_io_and_dream() {
    let f = CategoryFilter::default();
    assert!(f.is_enabled(Category::MemoryIo));
    assert!(f.is_enabled(Category::Dream));
    assert!(!f.is_enabled(Category::Tx));
    assert!(!f.is_enabled(Category::Coord));
}

#[test]
fn toggle_flips_membership() {
    let mut f = CategoryFilter::default();
    assert!(!f.is_enabled(Category::Tx));
    f.toggle(Category::Tx);
    assert!(f.is_enabled(Category::Tx));
    f.toggle(Category::Tx);
    assert!(!f.is_enabled(Category::Tx));
}

#[test]
fn wire_name_round_trip() {
    for c in Category::ALL {
        assert_eq!(Category::from_wire(c.wire_name()), Some(c));
    }
    assert_eq!(Category::from_wire("nonsense"), None);
}

#[test]
fn wire_names_are_kebab_case() {
    assert_eq!(Category::MemoryIo.wire_name(), "memory-io");
    assert_eq!(Category::Dream.wire_name(), "dream");
    assert_eq!(Category::Tx.wire_name(), "tx");
    assert_eq!(Category::Coord.wire_name(), "coord");
    assert_eq!(Category::Gate.wire_name(), "gate");
    assert_eq!(Category::Permission.wire_name(), "permission");
    assert_eq!(Category::Permission.display_name(), "permission");
}

#[test]
fn from_wire_is_exact() {
    assert_eq!(Category::from_wire("memory-io"), Some(Category::MemoryIo));
    assert_eq!(Category::from_wire("Dream"), None);
    assert_eq!(Category::from_wire("dream "), None);
    assert_eq!(Category::from_wire(""), None);
}

#[test]
fn toggling_twice_restores_every_category() {
    for c in Category::ALL {
        let mut f = CategoryFilter::default();
        let before = f.is_enabled(c);
        f.toggle(c);
        assert_ne!(f.is_enabled(c), before);
        f.toggle(c);
        assert_eq!(f.is_enabled(c), before);
        assert_eq!(f.enabled_set(), CategoryFilter::default().enabled_set());
    }
}

#[test]
fn enabled_set_follows_panel_order() {
    let mut f = CategoryFilter::default();
    assert_eq!(f.enabled_set(), vec![Category::MemoryIo, Category::Dream]);
    f.toggle(Category::Permission);
    f.toggle(Category::MemoryIo);
    f.toggle(Category::Tx);
    assert_eq!(
        f.enabled_set(),
        vec![Category::Dream, Category::Tx, Category::Permission]
    );
}

#[test]
fn as_query_joins_wire_names_with_commas() {
    let mut f = CategoryFilter::default();
    assert_eq!(f.as_query(), "memory-io,dream");
    f.toggle(Category::MemoryIo);
    assert_eq!(f.as_query(), "dream");
    f.toggle(Category::Dream);
    assert_eq!(f.as_query(), "");
    f.toggle(Category::Gate);
    f.toggle(Category::Coord);
    assert_eq!(f.as_query(), "coord,gate");
}
