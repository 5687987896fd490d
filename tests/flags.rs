use pty_bridge::fdflags::{flag_is_set, flag_word, nonblocking_from, set_flag, write_back_outcome};
use pty_bridge::OsError;
use pty_bridge::{get_nonblocking, set_nonblocking};

#[test]
fn flag_words() {
    assert_eq!(set_flag(0b1010, 0b0100, true), 0b1110);
    assert_eq!(set_flag(0b1110, 0b0100, false), 0b1010);
    assert_eq!(set_flag(0b1010, 0b0010, true), 0b1010);
    assert_eq!(set_flag(-1, 1, false), -2);
    assert!(flag_is_set(0b1010, 0b0010));
    assert!(!flag_is_set(0b1010, 0b0100));
    assert!(flag_is_set(set_flag(0, 2048, true), 2048));
    assert!(!flag_is_set(set_flag(-1, 2048, false), 2048));
}

#[test]
fn test_nonblocking() {
    let (sock, _other) = filedescriptor::socketpair().unwrap();
    let fd = filedescriptor::AsRawFileDescriptor::as_raw_file_descriptor(&sock);
    set_nonblocking(fd, false).unwrap();
    assert!(!get_nonblocking(fd).unwrap());
    set_nonblocking(fd, true).unwrap();
    assert!(get_nonblocking(fd).unwrap());
    set_nonblocking(fd, false).unwrap();
    assert!(!get_nonblocking(fd).unwrap());
}

#[test]
fn flags_of_a_closed_descriptor_fail() {
    assert!(get_nonblocking(-1).is_err());
    assert_eq!(set_nonblocking(-1, true).unwrap_err().code, 9);
    assert_eq!(pty_bridge::fdflags::cloexec(-1).unwrap_err().code, 9);
}

#[test]
fn nonblocking_answer_from_raw_results() {
    assert_eq!(nonblocking_from(Ok(2048 | 2), 2048), Ok(true));
    assert_eq!(nonblocking_from(Ok(2), 2048), Ok(false));
    assert_eq!(nonblocking_from(Err(9), 2048), Err(OsError { code: 9 }));
}

#[test]
fn flag_word_from_raw_results() {
    assert_eq!(flag_word(Ok(2), 2048, true), Ok(2050));
    assert_eq!(flag_word(Ok(2050), 2048, false), Ok(2));
    assert_eq!(flag_word(Ok(0), 1, true), Ok(1));
    assert_eq!(flag_word(Err(9), 1, true), Err(OsError { code: 9 }));
}

#[test]
fn write_back_outcomes() {
    assert_eq!(write_back_outcome(Ok(1), Ok(())), Ok(()));
    assert_eq!(write_back_outcome(Ok(1), Err(22)), Err(OsError { code: 22 }));
    assert_eq!(write_back_outcome(Err(OsError { code: 9 }), Err(22)), Err(OsError { code: 9 }));
    assert_eq!(write_back_outcome(Err(OsError { code: 9 }), Ok(())), Err(OsError { code: 9 }));
}

#[test]
fn cloexec_on_an_open_descriptor_succeeds() {
    let (sock, _other) = filedescriptor::socketpair().unwrap();
    let fd = filedescriptor::AsRawFileDescriptor::as_raw_file_descriptor(&sock);
    assert_eq!(pty_bridge::fdflags::cloexec(fd), Ok(()));
}
