//! The steps of the operations: which access each asks for after which
//! replies.

use pwmd::{Access, Action, Channel, Controller, IoFailure, Polarity, Pwm, PwmError, Reply, Step};

fn pwm() -> Pwm {
    Pwm::with_sysfs_root("/t".to_string())
}

fn found(found: bool) -> Reply {
    Reply::Found(found)
}

fn contents(text: &str) -> Reply {
    Reply::Contents(text.to_string())
}

fn failed(message: &str) -> Reply {
    Reply::Failed(IoFailure { message: message.to_string() })
}

fn is_dir<T>(path: &str) -> Step<T> {
    Step::Perform(Action::IsDir(path.to_string()))
}

fn is_file<T>(path: &str) -> Step<T> {
    Step::Perform(Action::IsFile(path.to_string()))
}

fn read<T>(path: &str) -> Step<T> {
    Step::Perform(Action::Read(path.to_string()))
}

fn write<T>(path: &str, text: &str) -> Step<T> {
    Step::Perform(Action::Write(path.to_string(), text.to_string()))
}

#[test]
fn set_period_asks_for_its_ten_accesses_in_order() {
    let pwm = pwm();
    let step = |replies: &[Reply]| pwm.set_period(Controller(2), Channel(1), 5000, replies);
    let all = [
        found(true),
        contents("2\n"),
        found(true),
        found(true),
        contents("70\n"),
        found(true),
        contents("2\n"),
        found(true),
        found(true),
        Reply::Written,
    ];

    assert_eq!(step(&all[..0]), is_dir("/t/pwmchip2"));
    assert_eq!(step(&all[..1]), read("/t/pwmchip2/npwm"));
    assert_eq!(step(&all[..2]), is_dir("/t/pwmchip2/pwm1"));
    assert_eq!(step(&all[..3]), is_file("/t/pwmchip2/pwm1/duty_cycle"));
    assert_eq!(step(&all[..4]), read("/t/pwmchip2/pwm1/duty_cycle"));
    assert_eq!(step(&all[..5]), is_dir("/t/pwmchip2"));
    assert_eq!(step(&all[..6]), read("/t/pwmchip2/npwm"));
    assert_eq!(step(&all[..7]), is_dir("/t/pwmchip2/pwm1"));
    assert_eq!(step(&all[..8]), is_file("/t/pwmchip2/pwm1/period"));
    assert_eq!(step(&all[..9]), write("/t/pwmchip2/pwm1/period", "5000"));
    assert_eq!(step(&all[..10]), Step::Done(Ok(())));
}

#[test]
fn set_duty_cycle_reads_the_period_and_writes_the_duty_cycle() {
    let pwm = pwm();
    let step = |replies: &[Reply]| pwm.set_duty_cycle(Controller(0), Channel(0), 30, replies);
    let mut replies = vec![found(true), contents("1"), found(true)];

    assert_eq!(step(&replies), is_file("/t/pwmchip0/pwm0/period"));
    replies.push(found(true));
    assert_eq!(step(&replies), read("/t/pwmchip0/pwm0/period"));
    replies.push(contents("31"));
    assert_eq!(step(&replies), is_dir("/t/pwmchip0"));
    replies.extend([found(true), contents("1"), found(true)]);
    assert_eq!(step(&replies), is_file("/t/pwmchip0/pwm0/duty_cycle"));
    replies.push(found(true));
    assert_eq!(step(&replies), write("/t/pwmchip0/pwm0/duty_cycle", "30"));
    replies.push(failed("Invalid argument (os error 22)"));
    assert_eq!(
        step(&replies),
        Step::Done(Err(PwmError::Sysfs(
            Access::Write("/t/pwmchip0/pwm0/duty_cycle".to_string()),
            IoFailure { message: "Invalid argument (os error 22)".to_string() },
        )))
    );

    // With a period of 30 the write is never asked for.
    let refused = [found(true), contents("1"), found(true), found(true), contents("30")];
    assert_eq!(step(&refused), Step::Done(Err(PwmError::DutyCycleNotLessThanPeriod)));
}

#[test]
fn set_polarity_reads_the_flag_and_writes_the_name() {
    let pwm = pwm();
    let step =
        |replies: &[Reply]| pwm.set_polarity(Controller(0), Channel(3), Polarity::Inversed, replies);
    let mut replies = vec![found(true), contents("4"), found(true)];

    assert_eq!(step(&replies), is_file("/t/pwmchip0/pwm3/enable"));
    replies.push(found(true));
    assert_eq!(step(&replies), read("/t/pwmchip0/pwm3/enable"));
    replies.push(contents("0\n"));
    assert_eq!(step(&replies), is_dir("/t/pwmchip0"));
    replies.extend([found(true), contents("4"), found(true)]);
    assert_eq!(step(&replies), is_file("/t/pwmchip0/pwm3/polarity"));
    replies.push(found(true));
    assert_eq!(step(&replies), write("/t/pwmchip0/pwm3/polarity", "inversed"));
    replies.push(Reply::Written);
    assert_eq!(step(&replies), Step::Done(Ok(())));

    let normal = pwm.set_polarity(Controller(0), Channel(3), Polarity::Normal, &replies[..9]);
    assert_eq!(normal, write("/t/pwmchip0/pwm3/polarity", "normal"));
}

#[test]
fn export_and_unexport_write_one() {
    let pwm = pwm();
    let c = Controller(9);

    assert_eq!(pwm.export(c, &[]), is_file("/t/pwmchip9/export"));
    assert_eq!(pwm.export(c, &[found(true)]), write("/t/pwmchip9/export", "1"));
    assert_eq!(pwm.export(c, &[found(true), Reply::Written]), Step::Done(Ok(())));
    assert_eq!(
        pwm.export(c, &[found(false)]),
        Step::Done(Err(PwmError::ControllerNotFound(Controller(9))))
    );

    assert_eq!(pwm.unexport(c, &[]), is_file("/t/pwmchip9/unexport"));
    assert_eq!(pwm.unexport(c, &[found(true)]), write("/t/pwmchip9/unexport", "1"));
    assert_eq!(pwm.unexport(c, &[found(true), Reply::Written]), Step::Done(Ok(())));
}

#[test]
fn enable_writes_one_and_disable_writes_zero() {
    let pwm = pwm();
    let ready = [found(true), contents("1"), found(true), found(true)];

    assert_eq!(
        pwm.enable(Controller(0), Channel(0), &ready),
        write("/t/pwmchip0/pwm0/enable", "1")
    );
    assert_eq!(
        pwm.disable(Controller(0), Channel(0), &ready),
        write("/t/pwmchip0/pwm0/enable", "0")
    );
}

#[test]
fn is_enabled_reads_the_flag() {
    let pwm = pwm();
    let step = |text: &str| {
        pwm.is_enabled(
            &Controller(0),
            &Channel(0),
            &[found(true), contents("1"), found(true), found(true), contents(text)],
        )
    };

    assert_eq!(step("1\n"), Step::Done(Ok(true)));
    assert_eq!(step("0\n"), Step::Done(Ok(false)));
    assert_eq!(step(""), Step::Done(Ok(false)));
    assert_eq!(step("TRUE"), Step::Done(Ok(true)));
    assert_eq!(step("2"), Step::Done(Err(PwmError::NotBoolean("2".to_string()))));
}

#[test]
fn the_checks_come_in_their_order() {
    let pwm = pwm();
    let c = Controller(1);
    let ch = Channel(4);
    let step = |replies: &[Reply]| pwm.channel_file(&c, &ch, "enable", replies, 0);

    // The controller first.
    assert_eq!(step(&[found(false)]), Step::Done(Err(PwmError::ControllerNotFound(c))));
    // Then the count.
    assert_eq!(
        step(&[found(true), failed("Input/output error (os error 5)")]),
        Step::Done(Err(PwmError::Sysfs(
            Access::Read("/t/pwmchip1/npwm".to_string()),
            IoFailure { message: "Input/output error (os error 5)".to_string() },
        )))
    );
    // Then the channel's number against the count, before any look at its
    // directory.
    assert_eq!(
        step(&[found(true), contents("4")]),
        Step::Done(Err(PwmError::ChannelNotFound(c, ch)))
    );
    assert_eq!(step(&[found(true), contents("5")]), is_dir("/t/pwmchip1/pwm4"));
    // Then the directory, then the file.
    assert_eq!(
        step(&[found(true), contents("5"), found(false)]),
        Step::Done(Err(PwmError::NotExported(c)))
    );
    assert_eq!(
        step(&[found(true), contents("5"), found(true), found(false)]),
        Step::Done(Err(PwmError::NotExported(c)))
    );
    assert_eq!(
        step(&[found(true), contents("5"), found(true), found(true)]),
        Step::Done(Ok("/t/pwmchip1/pwm4/enable".to_string()))
    );
}

#[test]
fn the_resolver_reads_from_the_position_it_is_given() {
    let pwm = pwm();
    let c = Controller(0);
    let ch = Channel(0);
    let replies = [Reply::Written, found(true), contents("1"), found(true), found(true)];

    assert_eq!(pwm.controller_dir(&c, &replies, 1), Step::Done(Ok("/t/pwmchip0".to_string())));
    assert_eq!(pwm.controller_dir(&c, &replies, 5), is_dir("/t/pwmchip0"));
    assert_eq!(pwm.controller_dir(&c, &replies, usize::MAX), is_dir("/t/pwmchip0"));
    assert_eq!(
        pwm.controller_file(&c, "export", &replies, 3),
        Step::Done(Ok("/t/pwmchip0/export".to_string()))
    );
    assert_eq!(pwm.npwm_at(&c, &replies, 1), Step::Done(Ok(1)));
    assert_eq!(pwm.channel_dir(&c, &ch, &replies, 1), Step::Done(Ok("/t/pwmchip0/pwm0".to_string())));
    assert_eq!(
        pwm.channel_file(&c, &ch, "period", &replies, 1),
        Step::Done(Ok("/t/pwmchip0/pwm0/period".to_string()))
    );
    // At position 0 the first reply is no answer to a probe.
    assert_eq!(pwm.controller_dir(&c, &replies, 0), Step::Stuck);
}

#[test]
fn a_reply_of_the_wrong_kind_stops_the_operation() {
    let pwm = pwm();
    let c = Controller(0);
    let ch = Channel(0);

    assert_eq!(pwm.npwm(&c, &[contents("1")]), Step::Stuck);
    assert_eq!(pwm.npwm(&c, &[found(true), found(true)]), Step::Stuck);
    assert_eq!(pwm.npwm(&c, &[found(true), Reply::Written]), Step::Stuck);
    assert_eq!(pwm.export(c, &[failed("no")]), Step::Stuck);
    assert_eq!(pwm.export(c, &[found(true), contents("1")]), Step::Stuck);
    assert_eq!(pwm.export(c, &[found(true), found(true)]), Step::Stuck);
    assert_eq!(
        pwm.is_enabled(&c, &ch, &[found(true), contents("1"), found(true), found(true), found(true)]),
        Step::Stuck
    );
    // A count that is no number is no reply of the wrong kind.
    assert_eq!(
        pwm.npwm(&c, &[found(true), contents("many")]),
        Step::Done(Err(PwmError::Sysfs(
            Access::Read("/t/pwmchip0/npwm".to_string()),
            IoFailure { message: "invalid digit found in string".to_string() },
        )))
    );
}

#[test]
fn replies_past_the_end_do_not_count() {
    let pwm = pwm();
    let c = Controller(0);

    assert_eq!(pwm.npwm(&c, &[found(true), contents("3"), Reply::Written]), Step::Done(Ok(3)));
    assert_eq!(
        pwm.export(c, &[found(false), contents("x"), Reply::Written]),
        Step::Done(Err(PwmError::ControllerNotFound(c)))
    );
}

#[test]
fn the_path_of_a_controller_s_file_is_joined_once() {
    for root in ["/sys/class/pwm", "/sys/class/pwm/", "/", "", "rel"] {
        let pwm = Pwm::with_sysfs_root(root.to_string());
        for (id, name) in [
            (0u32, "export"),
            (7, "unexport"),
            (u32::MAX, "npwm"),
            (1, ""),
            (1, "/etc/passwd"),
            (1, "/"),
            (1, "a/b"),
            (1, "../x"),
        ] {
            let expected = std::path::Path::new(root).join(format!("pwmchip{}/{}", id, name));
            let path = pwm.controller_file_path(&Controller(id), name);
            assert_eq!(Some(path.as_str()), expected.to_str(), "{:?} {:?}", root, name);
            assert!(path.starts_with(root));
            assert_eq!(pwm.controller_file(&Controller(id), name, &[], 0), is_file(&path));
            assert_eq!(
                pwm.controller_file(&Controller(id), name, &[found(true)], 0),
                Step::Done(Ok(path))
            );
        }
    }
    let pwm = pwm();
    assert_eq!(pwm.controller_file_path(&Controller(3), "export"), "/t/pwmchip3/export");
    assert_eq!(pwm.controller_file_path(&Controller(3), "/etc/passwd"), "/t/pwmchip3//etc/passwd");
}

#[test]
fn paths_go_below_the_root() {
    let c = Controller(0);
    for (root, path) in [
        ("/sys/class/pwm", "/sys/class/pwm/pwmchip0"),
        ("/sys/class/pwm/", "/sys/class/pwm/pwmchip0"),
        ("/", "/pwmchip0"),
        ("", "pwmchip0"),
        ("rel", "rel/pwmchip0"),
    ] {
        let pwm = Pwm::with_sysfs_root(root.to_string());
        assert_eq!(pwm.sysfs_root(), root);
        assert_eq!(pwm.controller_path(&c), path);
        assert_eq!(pwm.controller_dir(&c, &[], 0), is_dir(path));
        let expected = std::path::Path::new(root).join(format!("pwmchip{}", 0));
        assert_eq!(expected.to_str(), Some(path));
    }
    let pwm = Pwm::with_sysfs_root("/r".to_string());
    assert_eq!(
        pwm.channel_path(&Controller(u32::MAX), &Channel(u32::MAX)),
        "/r/pwmchip4294967295/pwm4294967295"
    );
}
