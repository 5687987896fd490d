use pty_bridge::reap::{exit_status_from, Action, Channel, Event, ExitStatus, Phase, ReapLoop};
use pty_bridge::{openpty, File, PtySize};

#[test]
fn default_size_is_24_by_80() {
    let s = PtySize::default();
    assert_eq!((s.rows, s.cols, s.pixel_width, s.pixel_height), (24, 80, 0, 0));
    assert_eq!(PtySize::new(1, 2, 3, 4), PtySize { rows: 1, cols: 2, pixel_width: 3, pixel_height: 4 });
}

#[test]
fn allocated_pair_reports_requested_geometry() {
    for size in [PtySize::default(), PtySize::new(1, 1, 0, 0), PtySize::new(65535, 65535, 65535, 65535)] {
        let (master, slave) = openpty(size).unwrap();
        assert_eq!(master.size, size);
        assert_eq!(slave.size, size);
        assert_ne!(master.fd.as_raw_fd(), slave.fd.as_raw_fd());
    }
}

#[test]
fn closing_every_slave_copy_reads_as_end_of_stream() {
    let (mut master, slave) = openpty(PtySize::default()).unwrap();
    let copy = slave.try_clone().unwrap();
    drop(slave);
    drop(copy);
    let mut buf = vec![0u8; 64];
    assert_eq!(master.fd.read(&mut buf), Ok(0));
    assert_eq!(buf.len(), 64);
}

#[test]
fn input_written_before_the_reader_starts_is_kept() {
    let (mut master, slave) = openpty(PtySize::default()).unwrap();
    assert_eq!(master.fd.write(&b"asdf\n".to_vec()), Ok(5));
    let mut reader = slave.try_clone().unwrap();
    let mut buf = vec![0u8; 64];
    let n = reader.read(&mut buf).unwrap();
    assert_eq!(&buf[..n], b"asdf\n");
}

#[test]
fn nonblocking_master_without_output_has_no_data() {
    let (master, _slave) = openpty(PtySize::default()).unwrap();
    let mut file = File::new_nb(master.try_clone_reader().unwrap()).unwrap();
    assert!(pty_bridge::get_nonblocking(file.as_raw_fd()).unwrap());
    let mut buf = vec![0u8; 16];
    assert_eq!(file.read_event(Channel::Stdout, &mut buf), Event::NoData(Channel::Stdout));
}

#[test]
fn tty_prints_its_terminal_then_exits() {
    let rt = tokio::runtime::Builder::new_current_thread().enable_all().build().unwrap();
    let (mut master, slave) = openpty(PtySize::default()).unwrap();
    let mut child = rt.block_on(async {
        tokio::process::Command::new("tty")
            .stdin(slave.fd.descriptor().as_stdio().unwrap())
            .stdout(slave.fd.descriptor().as_stdio().unwrap())
            .stderr(slave.fd.descriptor().as_stdio().unwrap())
            .spawn()
            .unwrap()
    });
    drop(slave);
    let mut lp = ReapLoop::new(false);
    let mut out: Vec<u8> = Vec::new();
    let mut buf = vec![0u8; 256];
    while lp.is_open(Channel::Stdout) {
        let ev = master.fd.read_event(Channel::Stdout, &mut buf);
        if let Action::Deliver(_, n) = lp.step(ev) {
            out.extend_from_slice(&buf[..n]);
        }
    }
    let st = rt.block_on(child.wait()).unwrap();
    let status = exit_status_from(st.code(), None).unwrap();
    lp.step(Event::ChildExited(status));
    assert_eq!(lp.phase(), Phase::Draining);
    // The final read finds the closed slave side: end of stream.
    let ev = master.fd.read_event(Channel::Stdout, &mut buf);
    assert_eq!(ev, Event::EndOfStream(Channel::Stdout));
    lp.step(ev);
    assert_eq!(lp.phase(), Phase::Done);
    assert_eq!(lp.status(), Some(ExitStatus::Exited(0)));
    let text = String::from_utf8(out).unwrap();
    let lines: Vec<&str> = text.lines().collect();
    assert_eq!(lines.len(), 1);
    assert!(lines[0].starts_with("/dev/pts/") || lines[0].starts_with("/dev/tty"));
}

#[test]
fn missing_command_gives_no_child() {
    let rt = tokio::runtime::Builder::new_current_thread().enable_all().build().unwrap();
    let (_master, slave) = openpty(PtySize::default()).unwrap();
    let r = rt.block_on(async {
        tokio::process::Command::new("/nonexistent/command-that-is-not-here")
            .stdin(slave.fd.descriptor().as_stdio().unwrap())
            .spawn()
    });
    let e = r.err().unwrap();
    let err = pty_bridge::LaunchError::Spawn(pty_bridge::OsError { code: e.raw_os_error().unwrap() });
    assert_eq!(err.code(), 2);
}

#[test]
fn stdio_duplicates_are_independent() {
    let (mut master, slave) = openpty(PtySize::default()).unwrap();
    let set = slave.stdio_duplicates().unwrap();
    let nums = [set.stdin.as_raw_fd(), set.stdout.as_raw_fd(), set.stderr.as_raw_fd(), slave.fd.as_raw_fd()];
    for i in 0..nums.len() {
        for j in i + 1..nums.len() {
            assert_ne!(nums[i], nums[j]);
        }
    }
    let mut out = set.stdout;
    drop(set.stdin);
    drop(set.stderr);
    drop(slave);
    // The remaining duplicate still reaches the terminal.
    assert_eq!(out.write(&b"x".to_vec()), Ok(1));
    let mut buf = vec![0u8; 8];
    assert_eq!(master.fd.read(&mut buf), Ok(1));
    assert_eq!(buf[0], b'x');
    drop(out);
    assert_eq!(master.fd.read(&mut buf), Ok(0));
}

#[test]
fn clones_get_new_numbers() {
    let (master, slave) = openpty(PtySize::default()).unwrap();
    let reader = master.try_clone_reader().unwrap();
    assert_ne!(reader.as_raw_fd(), master.fd.as_raw_fd());
    let dup = slave.try_clone().unwrap();
    assert_ne!(dup.as_raw_fd(), slave.fd.as_raw_fd());
    let again = dup.try_clone().unwrap();
    assert_ne!(again.as_raw_fd(), dup.as_raw_fd());
    let file = File::new_nb(reader).unwrap();
    let back = file.into_inner();
    assert!(back.as_raw_fd() >= 0);
    let stdin = pty_bridge::raw_stdin().unwrap();
    assert_ne!(stdin.as_raw_fd(), 0);
}

#[test]
fn read_error_other_than_eio_is_kept() {
    let (_master, slave) = openpty(PtySize::default()).unwrap();
    let mut file = File::new_nb(slave.try_clone().unwrap()).unwrap();
    let mut buf = vec![0u8; 8];
    // Nothing typed on the terminal: the nonblocking read would block.
    let e = file.read(&mut buf).unwrap_err();
    assert_eq!(e.code, Some(slave.fd.would_block_code()));
    assert_ne!(e.code, Some(slave.fd.eio_code()));
}
