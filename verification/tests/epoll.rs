use runtime_executor::epoll::{Event, EPOLLET, EPOLLIN, EPOLL_CTL_ADD};

fn check(bitmask: i32) {
    const EPOLLONESHOT: i32 = 0x40000000;

    let read = bitmask & EPOLLIN != 0;
    assert!(read);

    let et = bitmask & EPOLLET != 0;
    assert!(et);

    let oneshot = bitmask & EPOLLONESHOT != 0;
    assert!(!oneshot);
}

#[test]
fn test_bitflag() {
    let bitflag_a: i32 = 1 << 31;
    let bitflag_b: i32 = 0x1;
    let bitmask: i32 = bitflag_a | bitflag_b;

    check(bitmask);
}

#[test]
fn flags_have_their_values() {
    assert_eq!(EPOLL_CTL_ADD, 1);
    assert_eq!(EPOLLIN, 1);
    assert_eq!(EPOLLET, i32::MIN);
}

#[test]
fn event_exposes_its_token() {
    let event = Event { events: 1, epoll_data: 42 };
    assert_eq!(event.token(), 42);
    assert!(event.is_readable());
}

#[test]
fn event_without_the_read_flag_is_not_readable() {
    let event = Event { events: 0x8000_0000, epoll_data: 7 };
    assert_eq!(event.token(), 7);
    assert!(!event.is_readable());
}
