use directio::unix::{OpenOptions, ALIGN_SIZE, BLOCK_SIZE};
use directio::{DirectFileExt, DirectOpenOptionsExt};

#[test]
fn unix_sizes_are_one_page() {
    assert_eq!(ALIGN_SIZE, 4096);
    assert_eq!(BLOCK_SIZE, 4096);
    assert_eq!(BLOCK_SIZE % ALIGN_SIZE, 0);
}

#[test]
fn unix_new_sets_nothing() {
    let options = OpenOptions::new();
    assert_eq!(
        options,
        OpenOptions { read: false, write: false, create: false, custom_flags: 0 }
    );
}

#[test]
fn unix_setters_change_one_field_each() {
    let mut options = OpenOptions::new();
    options.read(true);
    assert_eq!(
        options,
        OpenOptions { read: true, write: false, create: false, custom_flags: 0 }
    );
    options.write(true);
    assert_eq!(
        options,
        OpenOptions { read: true, write: true, create: false, custom_flags: 0 }
    );
    options.create(true);
    assert_eq!(
        options,
        OpenOptions { read: true, write: true, create: true, custom_flags: 0 }
    );
    options.custom_flags(0o2000);
    assert_eq!(
        options,
        OpenOptions { read: true, write: true, create: true, custom_flags: 0o2000 }
    );
}

#[test]
fn unix_setters_keep_the_last_value() {
    let mut options = OpenOptions::new();
    options.read(true).write(true).create(true);
    options.read(false).write(false).create(false);
    assert_eq!(options, OpenOptions::new());
}

#[test]
fn unix_custom_flags_replaces_earlier_flags() {
    let mut options = OpenOptions::new();
    options.custom_flags(0o2000).custom_flags(0o10000);
    assert_eq!(options.custom_flags, 0o10000);
}

#[test]
fn unix_direct_with_sets_the_flag_and_keeps_the_rest() {
    let mut options = OpenOptions::new();
    options.write(true).custom_flags(0x0400).direct_with(0x4000);
    assert_eq!(
        options,
        OpenOptions { read: false, write: true, create: false, custom_flags: 0x4400 }
    );
}

#[test]
fn unix_direct_with_a_flag_that_is_set_changes_nothing() {
    let mut options = OpenOptions::new();
    options.custom_flags(0x4400);
    let before = options;
    options.direct_with(0x4000);
    assert_eq!(options, before);
}

#[test]
fn unix_direct_with_twice_is_once() {
    let mut once = OpenOptions::new();
    once.custom_flags(0x0001).direct_with(0x10000);
    let mut twice = once;
    twice.direct_with(0x10000);
    assert_eq!(twice, once);
    assert_eq!(once.custom_flags, 0x10001);
}

#[test]
fn unix_direct_with_no_flag_changes_nothing() {
    let mut options = OpenOptions::new();
    options.read(true).custom_flags(0x0400).direct_with(0);
    assert_eq!(
        options,
        OpenOptions { read: true, write: false, create: false, custom_flags: 0x0400 }
    );
}

#[test]
fn unix_direct_with_takes_any_bits() {
    let mut options = OpenOptions::new();
    options.custom_flags(i32::MIN).direct_with(i32::MAX);
    assert_eq!(options.custom_flags, -1);
}

#[test]
fn unix_direct_sets_o_direct() {
    let mut options = OpenOptions::new();
    options.direct();
    assert_eq!(options.custom_flags, libc::O_DIRECT);
    assert!(options.custom_flags > 0);
}

#[test]
fn unix_direct_keeps_earlier_flags() {
    let mut options = OpenOptions::new();
    options.custom_flags(libc::O_SYNC).direct();
    assert_eq!(options.custom_flags, libc::O_SYNC | libc::O_DIRECT);
    assert_eq!(options.custom_flags & libc::O_SYNC, libc::O_SYNC);
    assert_eq!(options.custom_flags & libc::O_DIRECT, libc::O_DIRECT);
}

#[test]
fn unix_direct_leaves_access_alone() {
    let mut options = OpenOptions::new();
    options.read(true).create(true).direct();
    assert_eq!(
        options,
        OpenOptions { read: true, write: false, create: true, custom_flags: libc::O_DIRECT }
    );
}

#[test]
fn unix_direct_twice_is_once() {
    let mut once = OpenOptions::new();
    once.direct();
    let mut twice = once;
    twice.direct();
    assert_eq!(twice, once);
}

#[test]
fn unix_direct_hands_back_the_same_options() {
    let mut options = OpenOptions::new();
    options.direct().read(true);
    assert_eq!(
        options,
        OpenOptions { read: true, write: false, create: false, custom_flags: libc::O_DIRECT }
    );
}

#[test]
fn unix_direct_create_asks_for_create_write_and_o_direct() {
    let options = OpenOptions::direct_create();
    assert_eq!(
        options,
        OpenOptions { read: false, write: true, create: true, custom_flags: libc::O_DIRECT }
    );
}

#[test]
fn unix_direct_open_asks_for_read_and_o_direct() {
    let options = OpenOptions::direct_open();
    assert_eq!(
        options,
        OpenOptions { read: true, write: false, create: false, custom_flags: libc::O_DIRECT }
    );
}

#[test]
fn unix_direct_create_is_the_chain_of_setters() {
    let mut chained = OpenOptions::new();
    chained.create(true).write(true).direct();
    assert_eq!(OpenOptions::direct_create(), chained);
}

#[test]
fn unix_direct_open_is_the_chain_of_setters() {
    let mut chained = OpenOptions::new();
    chained.read(true).direct();
    assert_eq!(OpenOptions::direct_open(), chained);
}
