use treebeard::overlay::listing::{compare_bytes, merge_listing, ByteOrder, ScannedEntry};
use treebeard::overlay::ops::{
    cached_lookup_valid, create_layer, flush_plan, lookup_layer, needs_copy_up_on_open,
    open_plan, permission_bits, remove_action, rename_plan, size_after_write,
    unlink_records_deletion, OpenRequest, RemoveAction,
};
use treebeard::overlay::types::{FileKind, LayerType};

fn entry(name: &str, ino: u64) -> ScannedEntry {
    ScannedEntry::Entry(name.as_bytes().to_vec(), ino, FileKind::RegularFile)
}

fn names(v: &[treebeard::overlay::listing::ListingEntry]) -> Vec<(String, u64, LayerType)> {
    v.iter()
        .map(|e| (String::from_utf8(e.name.clone()).unwrap(), e.ino, e.layer))
        .collect()
}

#[test]
fn byte_order() {
    assert_eq!(compare_bytes(&b"a".to_vec(), &b"b".to_vec()), ByteOrder::Less);
    assert_eq!(compare_bytes(&b"ab".to_vec(), &b"a".to_vec()), ByteOrder::Greater);
    assert_eq!(compare_bytes(&b"".to_vec(), &b"".to_vec()), ByteOrder::Equal);
    assert_eq!(compare_bytes(&b"B".to_vec(), &b"a".to_vec()), ByteOrder::Less);
}

#[test]
fn upper_shadows_lower_and_whiteouts_hide() {
    let lower = vec![entry("c.txt", 10), entry("a.txt", 11), entry("gone.txt", 12)];
    let upper = vec![
        entry("a.txt", 11),
        ScannedEntry::Whiteout(b"gone.txt".to_vec()),
        entry("b.txt", 13),
    ];
    let listing = merge_listing(&lower, &upper);
    assert_eq!(
        names(&listing),
        vec![
            ("a.txt".to_string(), 11, LayerType::Upper),
            ("b.txt".to_string(), 13, LayerType::Upper),
            ("c.txt".to_string(), 10, LayerType::Lower),
        ]
    );
}

#[test]
fn passthrough_directories_list_the_lower_layer() {
    let lower = vec![entry("z", 1), entry("y", 2)];
    let listing = merge_listing(&lower, &vec![]);
    assert_eq!(
        names(&listing),
        vec![("y".to_string(), 2, LayerType::Lower), ("z".to_string(), 1, LayerType::Lower)]
    );
}

#[test]
fn a_later_upper_entry_undoes_a_whiteout() {
    let lower = vec![entry("f", 1)];
    let upper = vec![ScannedEntry::Whiteout(b"f".to_vec()), entry("f", 2)];
    assert_eq!(names(&merge_listing(&lower, &upper)), vec![("f".to_string(), 2, LayerType::Upper)]);
    let upper = vec![entry("f", 2), ScannedEntry::Whiteout(b"f".to_vec())];
    assert!(merge_listing(&lower, &upper).is_empty());
}

#[test]
fn opening_files() {
    assert!(needs_copy_up_on_open(LayerType::Lower, false, true));
    assert!(!needs_copy_up_on_open(LayerType::Lower, true, true));
    assert!(!needs_copy_up_on_open(LayerType::Upper, false, true));
    assert!(!needs_copy_up_on_open(LayerType::Lower, false, false));
    let req = OpenRequest { wants_write: true, create: true, truncate: true, append: false };
    let p = open_plan(LayerType::Lower, false, req);
    assert!(p.read && !p.write && p.create && !p.truncate && !p.append);
    let p = open_plan(LayerType::Lower, true, req);
    assert!(p.write && p.truncate);
    let p = open_plan(LayerType::Upper, false, OpenRequest { append: true, ..req });
    assert!(p.write && p.append);
}

#[test]
fn lookups_and_removals() {
    assert_eq!(lookup_layer(true, true, true), None);
    assert_eq!(lookup_layer(false, true, true), Some(LayerType::Upper));
    assert_eq!(lookup_layer(false, false, true), Some(LayerType::Lower));
    assert_eq!(lookup_layer(false, false, false), None);
    assert!(cached_lookup_valid(true, true));
    assert!(!cached_lookup_valid(false, true));
    assert_eq!(remove_action(true, LayerType::Upper, true), RemoveAction::RemoveFromLower);
    assert_eq!(remove_action(false, LayerType::Upper, true), RemoveAction::MarkDeleted);
    assert_eq!(remove_action(false, LayerType::Upper, false), RemoveAction::DeleteNow);
    assert_eq!(remove_action(false, LayerType::Lower, false), RemoveAction::CreateWhiteout);
}

#[test]
fn writes_flushes_creates_and_renames() {
    assert_eq!(size_after_write(100, 10, 20), 100);
    assert_eq!(size_after_write(100, 90, 20), 110);
    let f = flush_plan(LayerType::Upper, false);
    assert!(f.refresh_attrs && f.signal_change);
    let f = flush_plan(LayerType::Lower, true);
    assert!(f.refresh_attrs && !f.signal_change);
    let f = flush_plan(LayerType::Lower, false);
    assert!(!f.refresh_attrs && !f.signal_change);
    assert_eq!(create_layer(true), LayerType::Lower);
    assert_eq!(create_layer(false), LayerType::Upper);
    assert_eq!(permission_bits(0o100644), 0o644);
    assert_eq!(permission_bits(0o4755), 0o4755);
    assert!(unlink_records_deletion(LayerType::Lower, false));
    assert!(!unlink_records_deletion(LayerType::Upper, false));
    let r = rename_plan(false, true);
    assert!(!r.copy_up && r.layer == LayerType::Lower && !r.signal_change);
    let r = rename_plan(false, false);
    assert!(r.copy_up && r.layer == LayerType::Upper && r.signal_change);
}
