use proc_exit::bash;
use proc_exit::sysexits;
use proc_exit::sysexits::ToSysexitsResultExt;
use proc_exit::Code;
use proc_exit::IoFailure;
use proc_exit::IoKind;

#[test]
fn sysexits_constants_fill_64_to_78() {
    let table = [
        sysexits::USAGE_ERR,
        sysexits::DATA_ERR,
        sysexits::NO_INPUT,
        sysexits::NO_USER,
        sysexits::NO_HOST,
        sysexits::SERVICE_UNAVAILABLE,
        sysexits::SOFTWARE_ERR,
        sysexits::OS_ERR,
        sysexits::OS_FILE_ERR,
        sysexits::CANT_CREAT,
        sysexits::IO_ERR,
        sysexits::TEMP_FAIL,
        sysexits::PROTOCOL_ERR,
        sysexits::NO_PERM,
        sysexits::CONFIG_ERR,
    ];
    assert_eq!(table.len(), 15);
    for (i, raw) in table.iter().enumerate() {
        assert_eq!(*raw, 64 + i as i32);
    }
    assert_eq!(sysexits::OK, 0);
}

#[test]
fn signal_constants_are_128_plus_n() {
    assert_eq!(bash::SIGHUP, 128 + 1);
    assert_eq!(bash::SIGINT, 128 + 2);
    assert_eq!(bash::SIGQUIT, 128 + 3);
    assert_eq!(bash::SIGILL, 128 + 4);
    assert_eq!(bash::SIGTRAP, 128 + 5);
    assert_eq!(bash::SIGABRT, 128 + 6);
    assert_eq!(bash::SIGFPE, 128 + 8);
    assert_eq!(bash::SIGKILL, 128 + 9);
    assert_eq!(bash::SIGSEGV, 128 + 11);
    assert_eq!(bash::SIGPIPE, 128 + 13);
    assert_eq!(bash::SIGALRM, 128 + 14);
    assert_eq!(bash::SIGTERM, 128 + 15);
}

#[test]
fn shell_constants_hold_their_documented_values() {
    assert_eq!(bash::USAGE, 2);
    assert_eq!(bash::NOT_EXECUTABLE, 126);
    assert_eq!(bash::NOT_FOUND, 127);
    assert_eq!(bash::INVALID_EXIT, 128);
    assert_eq!(bash::STATUS_OUT_OF_RANGE, 255);
}

const ALL_KINDS: [IoKind; 18] = [
    IoKind::NotFound,
    IoKind::PermissionDenied,
    IoKind::ConnectionRefused,
    IoKind::ConnectionReset,
    IoKind::ConnectionAborted,
    IoKind::NotConnected,
    IoKind::AddrInUse,
    IoKind::AddrNotAvailable,
    IoKind::BrokenPipe,
    IoKind::AlreadyExists,
    IoKind::InvalidInput,
    IoKind::InvalidData,
    IoKind::TimedOut,
    IoKind::WriteZero,
    IoKind::Interrupted,
    IoKind::UnexpectedEof,
    IoKind::Other,
    IoKind::Unclassified,
];

fn classify(kind: IoKind) -> Code {
    let failed: Result<(), IoFailure> = Err(IoFailure::new(kind, "stub".to_string()));
    failed.to_sysexits().unwrap_err().code
}

#[test]
fn io_mapping_is_total_and_deterministic() {
    for kind in ALL_KINDS {
        let first = classify(kind);
        let second = classify(kind);
        assert_eq!(first, second);
    }
}

#[test]
fn io_mapping_follows_the_table() {
    assert_eq!(classify(IoKind::NotFound).as_raw(), 72);
    assert_eq!(classify(IoKind::PermissionDenied).as_raw(), 77);
    assert_eq!(classify(IoKind::ConnectionRefused).as_raw(), 76);
    assert_eq!(classify(IoKind::ConnectionReset).as_raw(), 76);
    assert_eq!(classify(IoKind::ConnectionAborted).as_raw(), 76);
    assert_eq!(classify(IoKind::NotConnected).as_raw(), 76);
    assert_eq!(classify(IoKind::AddrInUse).as_raw(), 69);
    assert_eq!(classify(IoKind::AddrNotAvailable).as_raw(), 69);
    assert_eq!(classify(IoKind::BrokenPipe).as_raw(), 141);
    assert_eq!(classify(IoKind::AlreadyExists).as_raw(), 73);
    assert_eq!(classify(IoKind::InvalidInput).as_raw(), 65);
    assert_eq!(classify(IoKind::InvalidData).as_raw(), 65);
    assert_eq!(classify(IoKind::UnexpectedEof).as_raw(), 65);
    assert_eq!(classify(IoKind::TimedOut).as_raw(), 142);
    assert_eq!(classify(IoKind::WriteZero).as_raw(), 66);
    assert_eq!(classify(IoKind::Interrupted).as_raw(), 130);
    assert_eq!(classify(IoKind::Other).as_raw(), 1);
    assert_eq!(classify(IoKind::Unclassified).as_raw(), 74);
}

#[test]
fn io_to_sysexists_covers_only_its_rows() {
    assert_eq!(sysexits::io_to_sysexists(IoKind::NotFound), Some(Code::new(72)));
    assert_eq!(sysexits::io_to_sysexists(IoKind::WriteZero), Some(Code::new(66)));
    assert_eq!(sysexits::io_to_sysexists(IoKind::Other), Some(Code::new(1)));
    assert_eq!(sysexits::io_to_sysexists(IoKind::BrokenPipe), None);
    assert_eq!(sysexits::io_to_sysexists(IoKind::TimedOut), None);
    assert_eq!(sysexits::io_to_sysexists(IoKind::Interrupted), None);
    assert_eq!(sysexits::io_to_sysexists(IoKind::Unclassified), None);
}

#[test]
fn io_to_signal_covers_only_its_rows() {
    assert_eq!(bash::io_to_signal(IoKind::BrokenPipe), Some(Code::new(141)));
    assert_eq!(bash::io_to_signal(IoKind::TimedOut), Some(Code::new(142)));
    assert_eq!(bash::io_to_signal(IoKind::Interrupted), Some(Code::new(130)));
    assert_eq!(bash::io_to_signal(IoKind::NotFound), None);
    assert_eq!(bash::io_to_signal(IoKind::Other), None);
    assert_eq!(bash::io_to_signal(IoKind::Unclassified), None);
}

#[test]
fn permission_denied_classifies_to_no_perm_with_text() {
    let failed: Result<(), IoFailure> =
        Err(IoFailure::new(IoKind::PermissionDenied, "permission denied".to_string()));
    let exit = failed.to_sysexits().unwrap_err();
    assert_eq!(exit.code.as_raw(), 77);
    assert_eq!(exit.msg, Some("permission denied".to_string()));
}

#[test]
fn broken_pipe_classifies_to_sigpipe() {
    let failed: Result<(), IoFailure> =
        Err(IoFailure::new(IoKind::BrokenPipe, "broken pipe".to_string()));
    let exit = failed.to_sysexits().unwrap_err();
    assert_eq!(exit.code.as_raw(), 141);
}

#[test]
fn to_sysexits_passes_success_through() {
    let fine: Result<u8, IoFailure> = Ok(9);
    assert_eq!(fine.to_sysexits().unwrap(), 9);
}
