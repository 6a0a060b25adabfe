use storage::error::ERR_NOT_FOUND;
use storage::wire;
use storage::Error;
use storage::ErrorCode;
use storage::OpenMode;
use storage::Port;
use storage::Session;
use storage::TryNewError;

#[test]
fn test() {}

#[test]
fn round_trip() {
    let mut s = Session::new(Port::TamperDetect).unwrap();
    s.write("f", b"hello, world").unwrap();
    let mut buf = [0u8; 32];
    let out = s.read("f", &mut buf).unwrap();
    assert_eq!(out, b"hello, world");
}

#[test]
fn round_trip_empty() {
    let mut s = Session::new(Port::TamperDetect).unwrap();
    s.write("empty", b"").unwrap();
    let mut buf = [0u8; 4];
    let out = s.read("empty", &mut buf).unwrap();
    assert_eq!(out, b"");
    assert_eq!(buf, [0u8; 4]);
}

#[test]
fn overwrite_replaces_contents() {
    let mut s = Session::new(Port::TamperDetect).unwrap();
    s.write("f", b"long first contents").unwrap();
    s.write("f", b"short").unwrap();
    let mut buf = [0u8; 32];
    let out = s.read("f", &mut buf).unwrap();
    assert_eq!(out, b"short");
}

#[test]
fn buffer_too_small() {
    let mut s = Session::new(Port::TamperDetect).unwrap();
    s.write("f", b"hello").unwrap();
    let mut buf = [9u8; 3];
    let r = s.read("f", &mut buf);
    assert_eq!(r.unwrap_err(), Error::Code(ErrorCode::NotEnoughBuffer));
    // no partial read: the buffer is untouched
    assert_eq!(buf, [9u8; 3]);
}

#[test]
fn create_exclusive_existing_fails() {
    let mut s = Session::new(Port::TamperDetect).unwrap();
    s.write("f", b"data").unwrap();
    let r = s.open_file("f", OpenMode::CreateExclusive);
    assert_eq!(r.unwrap_err(), Error::Code(ErrorCode::AlreadyExists));
}

#[test]
fn create_exclusive_absent_reads_empty() {
    let mut s = Session::new(Port::TamperDetect).unwrap();
    let f = s.open_file("f", OpenMode::CreateExclusive).unwrap();
    assert_eq!(s.get_size(&f).unwrap(), 0);
    let mut buf = [7u8; 4];
    let out = s.read_all(&f, &mut buf).unwrap();
    assert_eq!(out, b"");
}

#[test]
fn open_absent_not_found() {
    let mut s = Session::new(Port::TamperDetect).unwrap();
    let r = s.open_file("missing", OpenMode::Open);
    assert_eq!(r.unwrap_err(), Error::Code(ErrorCode::NotFound));
}

#[test]
fn truncate_existing_requires_file() {
    let mut s = Session::new(Port::TamperDetect).unwrap();
    let r = s.open_file("missing", OpenMode::TruncateExisting);
    assert_eq!(r.unwrap_err(), Error::Code(ErrorCode::NotFound));
    s.write("f", b"data").unwrap();
    let f = s.open_file("f", OpenMode::TruncateExisting).unwrap();
    assert_eq!(s.get_size(&f).unwrap(), 0);
}

#[test]
fn truncate_or_create_always_empty() {
    let mut s = Session::new(Port::TamperDetect).unwrap();
    let f = s.open_file("fresh", OpenMode::TruncateOrCreate).unwrap();
    assert_eq!(s.get_size(&f).unwrap(), 0);
    f.close(&mut s);
    s.write("f", b"data").unwrap();
    let f = s.open_file("f", OpenMode::TruncateOrCreate).unwrap();
    assert_eq!(s.get_size(&f).unwrap(), 0);
}

#[test]
fn create_keeps_existing_contents() {
    let mut s = Session::new(Port::TamperDetect).unwrap();
    s.write("f", b"keep").unwrap();
    let f = s.open_file("f", OpenMode::Create).unwrap();
    let mut buf = [0u8; 8];
    let out = s.read_all(&f, &mut buf).unwrap();
    assert_eq!(out, b"keep");
}

#[test]
fn rename_moves_contents() {
    let mut s = Session::new(Port::TamperDetect).unwrap();
    s.write("a", b"from a").unwrap();
    s.write("b", b"from b").unwrap();
    s.rename("a", "b").unwrap();
    let mut buf = [0u8; 16];
    let out = s.read("b", &mut buf).unwrap();
    assert_eq!(out, b"from a");
    let r = s.open_file("a", OpenMode::Open);
    assert_eq!(r.unwrap_err(), Error::Code(ErrorCode::NotFound));
}

#[test]
fn rename_missing_source_fails() {
    let mut s = Session::new(Port::TamperDetect).unwrap();
    let r = s.rename("missing", "b");
    assert_eq!(r.unwrap_err(), Error::Code(ErrorCode::NotFound));
}

#[test]
fn remove_deletes() {
    let mut s = Session::new(Port::TamperDetect).unwrap();
    s.write("f", b"data").unwrap();
    s.remove("f").unwrap();
    let r = s.open_file("f", OpenMode::Open);
    assert_eq!(r.unwrap_err(), Error::Code(ErrorCode::NotFound));
    let r = s.remove("f");
    assert_eq!(r.unwrap_err(), Error::Code(ErrorCode::NotFound));
}

#[test]
fn set_size_truncates_and_extends() {
    let mut s = Session::new(Port::TamperDetect).unwrap();
    let mut f = s.open_file("f", OpenMode::Create).unwrap();
    s.write_all(&mut f, b"abcdef").unwrap();
    s.set_size(&mut f, 3).unwrap();
    assert_eq!(s.get_size(&f).unwrap(), 3);
    let mut buf = [9u8; 8];
    assert_eq!(s.read_all(&f, &mut buf).unwrap(), b"abc");
    s.set_size(&mut f, 5).unwrap();
    let mut buf = [9u8; 8];
    assert_eq!(s.read_all(&f, &mut buf).unwrap(), b"abc\0\0");
}

#[test]
fn embedded_nul_rejected_locally() {
    let mut s = Session::new(Port::TamperDetect).unwrap();
    let r = s.write("a\0b", b"data");
    assert_eq!(r.unwrap_err(), Error::TryNew(TryNewError { pos: 1 }));
    // rejected before any request: nothing was created
    let r = s.open_file("a\0b", OpenMode::Open);
    assert_eq!(r.unwrap_err(), Error::TryNew(TryNewError { pos: 1 }));
}

#[test]
fn transaction_discard_drops_staged_operations() {
    let mut s = Session::new(Port::TamperDetect).unwrap();
    s.write("y", b"old").unwrap();
    let mut t = s.begin_transaction();
    let fx = t.open_file("x", OpenMode::CreateExclusive).unwrap();
    t.close_file(fx);
    let mut fy = t.open_file("y", OpenMode::Open).unwrap();
    t.write_all(&mut fy, b"new").unwrap();
    t.close_file(fy);
    // the transaction itself sees its staged state
    let mut buf = [0u8; 8];
    assert_eq!(t.read("y", &mut buf).unwrap(), b"new");
    let mut s = t.discard();
    // neither the create of "x" nor the write of "y" is visible
    let r = s.open_file("x", OpenMode::Open);
    assert_eq!(r.unwrap_err(), Error::Code(ErrorCode::NotFound));
    let mut buf = [0u8; 8];
    assert_eq!(s.read("y", &mut buf).unwrap(), b"old");
}

#[test]
fn transaction_commit_applies_staged_operations_together() {
    let mut s = Session::new(Port::TamperDetect).unwrap();
    s.write("y", b"old").unwrap();
    let mut t = s.begin_transaction();
    let fx = t.open_file("x", OpenMode::CreateExclusive).unwrap();
    t.close_file(fx);
    let mut fy = t.open_file("y", OpenMode::Open).unwrap();
    t.write_all(&mut fy, b"new").unwrap();
    t.close_file(fy);
    let mut s = t.commit().unwrap();
    // both staged operations became visible together
    let fx = s.open_file("x", OpenMode::Open).unwrap();
    fx.close(&mut s);
    let mut buf = [0u8; 8];
    assert_eq!(s.read("y", &mut buf).unwrap(), b"new");
}

#[test]
fn transaction_stages_rename_and_remove() {
    let mut s = Session::new(Port::TamperDetect).unwrap();
    s.write("a", b"alpha").unwrap();
    s.write("b", b"beta").unwrap();
    let mut t = s.begin_transaction();
    t.rename("a", "c").unwrap();
    t.remove("b").unwrap();
    let mut s = t.commit().unwrap();
    let mut buf = [0u8; 8];
    assert_eq!(s.read("c", &mut buf).unwrap(), b"alpha");
    assert_eq!(
        s.open_file("a", OpenMode::Open).unwrap_err(),
        Error::Code(ErrorCode::NotFound)
    );
    assert_eq!(
        s.open_file("b", OpenMode::Open).unwrap_err(),
        Error::Code(ErrorCode::NotFound)
    );
}

#[test]
fn transaction_set_size_staged() {
    let mut s = Session::new(Port::TamperDetect).unwrap();
    s.write("f", b"abcdef").unwrap();
    let mut t = s.begin_transaction();
    let mut f = t.open_file("f", OpenMode::Open).unwrap();
    t.set_size(&mut f, 2).unwrap();
    t.close_file(f);
    let mut s = t.discard();
    let mut buf = [0u8; 8];
    assert_eq!(s.read("f", &mut buf).unwrap(), b"abcdef");
}

#[test]
fn session_close_and_file_close() {
    let mut s = Session::new(Port::TamperProof).unwrap();
    let f = s.open_file("f", OpenMode::Create).unwrap();
    f.close(&mut s);
    s.close();
}

#[test]
fn remove_fails_while_handle_open() {
    let mut s = Session::new(Port::TamperDetect).unwrap();
    s.write("f", b"data").unwrap();
    let f = s.open_file("f", OpenMode::Open).unwrap();
    assert_eq!(s.remove("f").unwrap_err(), Error::Code(ErrorCode::Busy));
    // the file remains, with its contents intact
    let mut buf = [0u8; 8];
    assert_eq!(s.read_all(&f, &mut buf).unwrap(), b"data");
    f.close(&mut s);
    s.remove("f").unwrap();
}

#[test]
fn rename_fails_while_handle_open() {
    let mut s = Session::new(Port::TamperDetect).unwrap();
    s.write("a", b"alpha").unwrap();
    let f = s.open_file("a", OpenMode::Open).unwrap();
    assert_eq!(s.rename("a", "b").unwrap_err(), Error::Code(ErrorCode::Busy));
    s.write("c", b"gamma").unwrap();
    assert_eq!(s.rename("c", "a").unwrap_err(), Error::Code(ErrorCode::Busy));
    f.close(&mut s);
    s.rename("a", "b").unwrap();
    let mut buf = [0u8; 8];
    assert_eq!(s.read("b", &mut buf).unwrap(), b"alpha");
}

#[test]
fn write_fails_while_handle_open() {
    let mut s = Session::new(Port::TamperDetect).unwrap();
    s.write("f", b"data").unwrap();
    let f = s.open_file("f", OpenMode::Open).unwrap();
    assert_eq!(s.write("f", b"other").unwrap_err(), Error::Code(ErrorCode::Busy));
    let mut buf = [0u8; 8];
    assert_eq!(s.read_all(&f, &mut buf).unwrap(), b"data");
    f.close(&mut s);
    s.write("f", b"other").unwrap();
}

#[test]
fn open_fails_while_handle_open() {
    let mut s = Session::new(Port::TamperDetect).unwrap();
    let f = s.open_file("f", OpenMode::Create).unwrap();
    assert_eq!(
        s.open_file("f", OpenMode::Open).unwrap_err(),
        Error::Code(ErrorCode::Busy)
    );
    f.close(&mut s);
    let f = s.open_file("f", OpenMode::Open).unwrap();
    f.close(&mut s);
}

#[test]
fn port_tags_are_distinct() {
    assert_eq!(Port::TamperDetect.tag(), 0);
    assert_eq!(Port::TamperDetectPersist.tag(), 1);
    assert_eq!(Port::TamperDetectEarlyAccess.tag(), 2);
    assert_eq!(Port::TamperProof.tag(), 3);
}

#[test]
fn open_mode_default_is_open() {
    assert_eq!(OpenMode::default(), OpenMode::Open);
}

#[test]
fn open_flags_encode_modes() {
    assert_eq!(wire::open_flags(OpenMode::Open), 0);
    assert_eq!(wire::open_flags(OpenMode::Create), wire::STORAGE_FILE_OPEN_CREATE);
    assert_eq!(
        wire::open_flags(OpenMode::CreateExclusive),
        wire::STORAGE_FILE_OPEN_CREATE + wire::STORAGE_FILE_OPEN_CREATE_EXCLUSIVE
    );
    assert_eq!(wire::open_flags(OpenMode::TruncateExisting), wire::STORAGE_FILE_OPEN_TRUNCATE);
    assert_eq!(
        wire::open_flags(OpenMode::TruncateOrCreate),
        wire::STORAGE_FILE_OPEN_CREATE + wire::STORAGE_FILE_OPEN_TRUNCATE
    );
}

#[test]
fn flags_decode_inverts_encode() {
    for mode in [
        OpenMode::Open,
        OpenMode::Create,
        OpenMode::CreateExclusive,
        OpenMode::TruncateExisting,
        OpenMode::TruncateOrCreate,
    ] {
        assert_eq!(wire::flags_mode(wire::open_flags(mode)), Some(mode));
    }
    assert_eq!(wire::flags_mode(8), None);
}

#[test]
fn ops_flags_encode_finalize() {
    assert_eq!(wire::ops_flags(true), wire::STORAGE_OP_COMPLETE);
    assert_eq!(wire::ops_flags(false), 0);
}

#[test]
fn wire_name_appends_terminator() {
    assert_eq!(wire::wire_name("ab").unwrap(), vec![b'a', b'b', 0]);
    assert_eq!(wire::wire_name("").unwrap(), vec![0]);
    assert_eq!(wire::wire_name("a\0b").unwrap_err(), TryNewError { pos: 1 });
    assert_eq!(wire::wire_name("\0").unwrap_err(), TryNewError { pos: 0 });
}

#[test]
fn error_codes_classify() {
    assert_eq!(ErrorCode::from_code(ERR_NOT_FOUND), ErrorCode::NotFound);
    assert_eq!(ErrorCode::from_code(storage::error::ERR_ALREADY_EXISTS), ErrorCode::AlreadyExists);
    assert_eq!(ErrorCode::from_code(storage::error::ERR_BUSY), ErrorCode::Busy);
    assert_eq!(
        ErrorCode::from_code(storage::error::ERR_NOT_ENOUGH_BUFFER),
        ErrorCode::NotEnoughBuffer
    );
    assert_eq!(ErrorCode::from_code(storage::error::ERR_NOT_VALID), ErrorCode::NotValid);
    assert_eq!(ErrorCode::from_code(storage::error::ERR_NO_SPACE), ErrorCode::NoSpace);
    assert_eq!(ErrorCode::from_code(storage::error::ERR_ACCESS_DENIED), ErrorCode::AccessDenied);
    assert_eq!(ErrorCode::from_code(storage::error::ERR_CHANNEL_CLOSED), ErrorCode::ChannelClosed);
    assert_eq!(ErrorCode::from_code(-1), ErrorCode::Generic);
    assert_eq!(ErrorCode::from_code(-1000), ErrorCode::Generic);
}

#[test]
fn try_from_code_and_size() {
    assert!(Error::try_from_code(0).is_ok());
    assert_eq!(
        Error::try_from_code(ERR_NOT_FOUND).unwrap_err(),
        Error::Code(ErrorCode::NotFound)
    );
    assert_eq!(Error::try_from_size(5).unwrap(), 5);
    assert_eq!(
        Error::try_from_size(-2).unwrap_err(),
        Error::Code(ErrorCode::NotFound)
    );
}

#[test]
fn error_from_try_new() {
    let cause = TryNewError { pos: 3 };
    assert_eq!(Error::from(cause), Error::TryNew(cause));
}
