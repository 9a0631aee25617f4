use proc_notify::decimal::{push_decimal, to_decimal};
use proc_notify::failure::{Failure, FailureKind};
use proc_notify::notification::{NotificationRequest, Urgency};
use proc_notify::procfs::{get_process_name, process_dir, record_file};

#[test]
fn decimal_of_zero_is_one_digit() {
    assert_eq!(to_decimal(0), "0");
}

#[test]
fn decimal_of_single_digits() {
    assert_eq!(to_decimal(7), "7");
    assert_eq!(to_decimal(9), "9");
}

#[test]
fn decimal_keeps_inner_and_trailing_zeros() {
    assert_eq!(to_decimal(10), "10");
    assert_eq!(to_decimal(1005), "1005");
    assert_eq!(to_decimal(999999), "999999");
}

#[test]
fn decimal_of_largest_identifier() {
    assert_eq!(to_decimal(u32::MAX), "4294967295");
}

#[test]
fn decimal_agrees_with_std_on_a_sweep() {
    let mut n: u32 = 0;
    while n < 4_000_000_000 {
        assert_eq!(to_decimal(n), n.to_string());
        n += 39_916_801;
    }
}

#[test]
fn push_decimal_appends_behind_what_is_there() {
    let mut text = String::from("pid ");
    push_decimal(&mut text, 4321);
    assert_eq!(text, "pid 4321");
}

#[test]
fn paths_of_a_process() {
    assert_eq!(process_dir(1), "/proc/1");
    assert_eq!(process_dir(999999), "/proc/999999");
    assert_eq!(record_file(1), "/proc/1/cmdline");
    assert_eq!(record_file(4294967295), "/proc/4294967295/cmdline");
}

#[test]
fn name_is_the_first_token_of_the_record() {
    assert_eq!(get_process_name(10, "bash\0-c\0sleep 5\0"), Ok(String::from("bash")));
    assert_eq!(get_process_name(10, "/usr/bin/sleep\x00100\0"), Ok(String::from("/usr/bin/sleep")));
}

#[test]
fn name_of_a_record_without_separator_is_the_whole_record() {
    assert_eq!(get_process_name(10, "kworker"), Ok(String::from("kworker")));
}

#[test]
fn name_of_a_record_that_starts_with_a_separator_is_empty() {
    assert_eq!(get_process_name(10, "\0abc"), Ok(String::new()));
    assert_eq!(get_process_name(10, "\0"), Ok(String::new()));
}

#[test]
fn name_may_hold_characters_of_several_bytes() {
    assert_eq!(get_process_name(10, "grüße\0welt"), Ok(String::from("grüße")));
    assert_eq!(get_process_name(10, "日本語"), Ok(String::from("日本語")));
}

#[test]
fn empty_record_is_a_data_format_failure() {
    let failure = get_process_name(42, "").unwrap_err();
    assert_eq!(
        failure,
        Failure::MalformedRecord { pid: 42, path: String::from("/proc/42/cmdline") }
    );
    assert_eq!(failure.kind(), FailureKind::DataFormat);
    assert_eq!(failure.message(), "/proc/42/cmdline contained unknown format");
}

#[test]
fn finished_notification() {
    let request = NotificationRequest::finished("sleep");
    assert_eq!(request.summary, "sleep Finished");
    assert_eq!(request.urgency, Urgency::Critical);
    assert_eq!(request.body, "The command has terminated");
}

#[test]
fn success_notification() {
    let request = NotificationRequest::success("/bin/true");
    assert_eq!(request.summary, "/bin/true Success");
    assert_eq!(request.urgency, Urgency::Critical);
    assert_eq!(request.body, "The command ran successfully");
    assert_eq!(NotificationRequest::exited("/bin/true", true), request);
}

#[test]
fn failure_notification() {
    let request = NotificationRequest::failure("/bin/false");
    assert_eq!(request.summary, "/bin/false FAIL");
    assert_eq!(request.urgency, Urgency::Critical);
    assert_eq!(request.body, "The command failed to run correctly");
    assert_eq!(NotificationRequest::exited("/bin/false", false), request);
}

#[test]
fn notification_of_an_empty_name() {
    assert_eq!(NotificationRequest::finished("").summary, " Finished");
}

#[test]
fn cloned_notification_is_equal() {
    let request = NotificationRequest::finished("make");
    assert_eq!(request.clone(), request);
}

#[test]
fn failure_kinds() {
    let unreadable = Failure::RecordUnreadable {
        pid: 3,
        path: String::from("/proc/3/cmdline"),
        detail: String::from("Permission denied (os error 13)"),
    };
    let spawn = Failure::SpawnFailed {
        program: String::from("nope"),
        detail: String::from("No such file or directory (os error 2)"),
    };
    let dispatch = Failure::DispatchFailed { detail: String::from("no daemon") };
    assert_eq!(unreadable.kind(), FailureKind::Io);
    assert_eq!(spawn.kind(), FailureKind::Io);
    assert_eq!(dispatch.kind(), FailureKind::Io);
    assert_eq!(Failure::EmptyCommand.kind(), FailureKind::InvalidInput);
    assert_eq!(Failure::OutOfTurn.kind(), FailureKind::Protocol);
}

#[test]
fn failure_messages() {
    let unreadable = Failure::RecordUnreadable {
        pid: 3,
        path: String::from("/proc/3/cmdline"),
        detail: String::from("Permission denied (os error 13)"),
    };
    assert_eq!(unreadable.message(), "/proc/3/cmdline: Permission denied (os error 13)");
    let spawn = Failure::SpawnFailed {
        program: String::from("nope"),
        detail: String::from("No such file or directory (os error 2)"),
    };
    assert_eq!(spawn.message(), "nope: No such file or directory (os error 2)");
    let dispatch = Failure::DispatchFailed { detail: String::from("no daemon") };
    assert_eq!(dispatch.message(), "no daemon");
    assert_eq!(Failure::EmptyCommand.message(), "Invalid input");
    assert_eq!(Failure::OutOfTurn.message(), "event does not answer the pending action");
}

#[test]
fn cloned_failure_is_equal() {
    let failure = Failure::SpawnFailed { program: String::from("a"), detail: String::from("b") };
    assert_eq!(failure.clone(), failure);
    assert_eq!(Failure::EmptyCommand.clone(), Failure::EmptyCommand);
}
