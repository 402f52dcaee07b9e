use treebeard::overlay::inode_manager::InodeManager;
use treebeard::overlay::types::{
    FileKind, FileTime, InodeAttrs, InodeData, InodeTable, LayerType,
    DEFAULT_INODE_CACHE_CAPACITY,
};

fn create_test_attrs(ino: u64) -> InodeAttrs {
    let epoch = FileTime { secs: 0, nanos: 0 };
    InodeAttrs {
        ino,
        size: 1000,
        blocks: 2,
        atime: epoch,
        mtime: epoch,
        ctime: epoch,
        crtime: epoch,
        kind: FileKind::RegularFile,
        perm: 0o644,
        nlink: 1,
        uid: 0,
        gid: 0,
        rdev: 0,
        blksize: 512,
        flags: 0,
    }
}

fn file_inode(i: u64, name: &str) -> InodeData {
    InodeData {
        inode: i,
        parent: 1,
        name: name.as_bytes().to_vec(),
        layer: LayerType::Upper,
        path: name.to_string(),
        attrs: create_test_attrs(i),
        open_file_handles: 0,
        hardlinks: 1,
    }
}

#[test]
fn test_inode_table_lru_cache_capacity() {
    let table = InodeTable::new();
    assert_eq!(table.cap(), DEFAULT_INODE_CACHE_CAPACITY);
}

#[test]
fn test_inode_table_insert_and_peek() {
    let mut table = InodeTable::new();
    table.insert(file_inode(100, "test.txt"));
    assert_eq!(table.len(), 1);
    let retrieved = table.peek(100);
    assert!(retrieved.is_some());
    assert_eq!(retrieved.unwrap().name, b"test.txt".to_vec());
}

#[test]
fn test_inode_table_lru_eviction() {
    let mut table = InodeTable::new();
    let capacity = table.cap();
    for i in 1..=capacity as u64 + 1 {
        table.insert(file_inode(i, &format!("file{}.txt", i)));
    }
    assert_eq!(table.len(), capacity);
    assert!(table.peek(1).is_none(), "First entry should be evicted after exceeding capacity");
    assert!(table.peek(capacity as u64 + 1).is_some(), "Most recent entry should still be in cache");
}

#[test]
fn recently_used_entries_survive_eviction() {
    let mut table = InodeTable::new();
    let capacity = table.cap() as u64;
    for i in 1..=capacity {
        table.insert(file_inode(i, &format!("f{}", i)));
    }
    // Using inode 1 makes inode 2 the least recently used one.
    table.update_size(1, 5);
    table.insert(file_inode(capacity + 1, "new"));
    assert!(table.peek(1).is_some());
    assert!(table.peek(2).is_none());
    assert_eq!(table.peek(1).unwrap().attrs.size, 5);
}

#[test]
fn children_by_name() {
    let mut table = InodeTable::new();
    table.insert(file_inode(5, "a.txt"));
    assert_eq!(table.lookup_child(1, b"a.txt"), Some(5));
    assert_eq!(table.lookup_child(1, b"b.txt"), None);
    assert_eq!(table.lookup_child(2, b"a.txt"), None);
    table.add_child(1, b"hardlink", 5);
    assert_eq!(table.lookup_child(1, b"hardlink"), Some(5));
    table.remove_child(1, b"hardlink");
    assert_eq!(table.lookup_child(1, b"hardlink"), None);
    table.remove(5);
    assert!(table.peek(5).is_none());
    assert_eq!(table.lookup_child(1, b"a.txt"), None);
}

#[test]
fn root_is_not_a_child() {
    let mut table = InodeTable::new();
    let mut root = file_inode(1, "");
    root.parent = 1;
    table.insert(root);
    assert_eq!(table.lookup_child(1, b""), None);
    assert!(table.peek(1).is_some());
}

#[test]
fn test_alloc_inode() {
    let mut manager = InodeManager::new();
    assert_eq!(manager.alloc_inode(), 2);
    assert_eq!(manager.alloc_inode(), 3);
    assert_eq!(manager.alloc_inode(), 4);
}

#[test]
fn test_insert_and_get_inode_info() {
    let mut manager = InodeManager::new();
    let inode = InodeManager::create_inode_data(
        100,
        1,
        b"test.txt".to_vec(),
        LayerType::Upper,
        "test.txt".to_string(),
        create_test_attrs(100),
    );
    manager.insert(inode);
    let (path, layer, has_open) = manager.get_inode_info(100).unwrap();
    assert_eq!(path, "test.txt");
    assert_eq!(layer, LayerType::Upper);
    assert!(!has_open);
}

#[test]
fn test_open_handles() {
    let mut manager = InodeManager::new();
    let inode = InodeManager::create_inode_data(
        100,
        1,
        b"test.txt".to_vec(),
        LayerType::Upper,
        "test.txt".to_string(),
        create_test_attrs(100),
    );
    manager.insert(inode);
    let (_, _, has_open) = manager.get_inode_info(100).unwrap();
    assert!(!has_open);
    manager.increment_open_handles(100);
    let (_, _, has_open) = manager.get_inode_info(100).unwrap();
    assert!(has_open);
    let should_gc = manager.decrement_open_handles(100);
    assert!(!should_gc);
    let (_, _, has_open) = manager.get_inode_info(100).unwrap();
    assert!(!has_open);
}

#[test]
fn test_deleted_tracking() {
    let mut manager = InodeManager::new();
    assert!(!manager.is_deleted(100));
    manager.mark_deleted(100);
    assert!(manager.is_deleted(100));
    manager.unmark_deleted(100);
    assert!(!manager.is_deleted(100));
}

#[test]
fn directories_start_with_two_links() {
    let mut attrs = create_test_attrs(7);
    attrs.kind = FileKind::Directory;
    let d = InodeManager::create_inode_data(7, 1, b"d".to_vec(), LayerType::Lower, "d".to_string(), attrs);
    assert_eq!(d.hardlinks, 2);
    assert_eq!(d.open_file_handles, 0);
}

#[test]
fn unlinked_closed_inodes_are_collected() {
    let mut manager = InodeManager::new();
    manager.insert(file_inode(9, "x"));
    manager.increment_open_handles(9);
    manager.decrement_hardlinks(9);
    assert_eq!(manager.get_attrs(9).unwrap().nlink, 0);
    assert!(!manager.should_gc(9));
    assert!(manager.decrement_open_handles(9));
    assert!(manager.should_gc(9));
    manager.increment_hardlinks(9);
    assert_eq!(manager.get_attrs(9).unwrap().nlink, 1);
    assert!(!manager.should_gc(9));
    assert!(!manager.decrement_open_handles(42));
}

#[test]
fn copy_up_and_rename_update_the_inode() {
    let mut manager = InodeManager::new();
    let mut d = file_inode(9, "x");
    d.layer = LayerType::Lower;
    manager.insert(d);
    assert!(!manager.is_in_upper_layer(9));
    let mut attrs = create_test_attrs(9);
    attrs.size = 77;
    manager.update_after_copy_up(9, "x".to_string(), attrs);
    assert!(manager.is_in_upper_layer(9));
    assert_eq!(manager.get_attrs(9).unwrap().size, 77);
    manager.update_after_rename(9, 1, b"x", 3, b"y".to_vec(), "dir/y".to_string(), LayerType::Upper);
    assert_eq!(manager.lookup_child(1, b"x"), None);
    assert_eq!(manager.lookup_child(3, b"y"), Some(9));
    assert_eq!(manager.get_path(9), Some("dir/y".to_string()));
    manager.update_layer_if_needed(9, LayerType::Lower);
    assert_eq!(manager.get_layer(9), Some(LayerType::Lower));
    manager.update_size(9, 3);
    assert_eq!(manager.get_attrs(9).unwrap().size, 3);
    manager.remove(9);
    assert_eq!(manager.get_path(9), None);
}

#[test]
fn counts_have_room_until_their_limit() {
    let mut manager = InodeManager::new();
    let mut inode = InodeManager::create_inode_data(
        100,
        1,
        b"a".to_vec(),
        LayerType::Upper,
        "a".to_string(),
        create_test_attrs(100),
    );
    inode.open_file_handles = u64::MAX;
    manager.insert(inode);
    assert!(!manager.can_count_open_handle(100));
    assert!(manager.can_count_hardlink(100));
    assert!(manager.can_count_open_handle(7));
    assert!(manager.can_count_hardlink(7));
}
