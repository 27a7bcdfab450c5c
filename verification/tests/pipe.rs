use signal_hook::low_level::signal_details::{signal_name_in, Details};
use signal_hook::pipe::{frame_struct, wake_method_for, write_is_torn, WakeMethod, STRUCT_SIZE_MAX};

#[test]
fn wake_method_choice() {
    assert_eq!(wake_method_for(0, false), WakeMethod::Send);
    assert_eq!(wake_method_for(-1, true), WakeMethod::Send);
    assert_eq!(wake_method_for(-1, false), WakeMethod::Write);
    assert_eq!(wake_method_for(5, false), WakeMethod::Write);
}

#[test]
fn torn_writes() {
    assert!(!write_is_torn(1, 1));
    assert!(!write_is_torn(-1, 10));
    assert!(!write_is_torn(0, 10));
    assert!(!write_is_torn(10, 10));
    assert!(write_is_torn(3, 10));
}

#[test]
fn struct_framing() {
    let mut message = [7u8; 64];
    assert_eq!(frame_struct(&mut message, 8), 9);
    assert_eq!(message[0], 8);
    assert_eq!(message[1], 7);
    assert_eq!(frame_struct(&mut message, STRUCT_SIZE_MAX as u8), 64);
    assert_eq!(frame_struct(&mut message, 0), 1);
    assert_eq!(message[0], 0);
}

fn table() -> Vec<Details> {
    vec![
        Details { signal: libc::SIGKILL, name: "SIGKILL" },
        Details { signal: libc::SIGTERM, name: "SIGTERM" },
        Details { signal: libc::SIGUSR1, name: "SIGUSR1" },
    ]
}

#[test]
fn signal_name_in_finds_listed_signal() {
    assert_eq!("SIGTERM", signal_name_in(&table(), libc::SIGTERM).unwrap());
    assert_eq!("SIGKILL", signal_name_in(&table(), 9).unwrap());
}

#[test]
fn signal_name_in_misses_unlisted_signal() {
    assert!(signal_name_in(&table(), 128).is_none());
    assert!(signal_name_in(&table(), 142).is_none());
}

#[test]
fn first_entry_wins() {
    let t = vec![Details { signal: 1, name: "A" }, Details { signal: 1, name: "B" }];
    assert_eq!(signal_name_in(&t, 1), Some("A"));
}
