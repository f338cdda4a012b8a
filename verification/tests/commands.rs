use libunftp::commands::mode::{Mode, ModeParam};
use libunftp::commands::stru::{Stru, StruParam};
use libunftp::reply::{Reply, ReplyCode};

#[test]
fn mode_stream_is_accepted() {
    let r = Mode::new(ModeParam::Stream).handle();
    assert_eq!(r.code, ReplyCode::CommandOkay);
    assert_eq!(r.code.number(), 200);
    assert_eq!(r.msg, "Using Stream transfer mode");
}

#[test]
fn mode_block_and_compressed_are_refused() {
    for p in [ModeParam::Block, ModeParam::Compressed] {
        let r = Mode::new(p).handle();
        assert_eq!(r.code, ReplyCode::CommandNotImplementedForParameter);
        assert_eq!(r.code.number(), 504);
        assert_eq!(r.msg, "Only Stream transfer mode is supported");
    }
}

#[test]
fn stru_file_is_accepted() {
    let r = Stru::new(StruParam::File).handle();
    assert_eq!(r.code, ReplyCode::CommandOkay);
    assert_eq!(r.msg, "In File structure mode");
}

#[test]
fn stru_record_and_page_are_refused() {
    for p in [StruParam::Record, StruParam::Page] {
        let r = Stru::new(p).handle();
        assert_eq!(r.code, ReplyCode::CommandNotImplementedForParameter);
        assert_eq!(r.msg, "Only File structure mode is supported");
    }
}

#[test]
fn reply_codes_have_their_rfc_numbers() {
    assert_eq!(ReplyCode::CommandOkay.number(), 200);
    assert_eq!(ReplyCode::EnteringPassiveMode.number(), 227);
    assert_eq!(ReplyCode::CommandNotImplementedForParameter.number(), 504);
    let r = Reply::new(ReplyCode::CommandOkay, "fine");
    assert_eq!(r.msg, "fine");
}
