use mwa_giant_squid::asvo::error::AsvoError;
use mwa_giant_squid::asvo::hash::HashedStream;
use mwa_giant_squid::asvo::transfer::{
    after_existing, buffer_size, conclude, entry_action, plan_transfer, EntryAction,
    FileTransfer, TransferOptions, TransferPlan,
};

const HELLO: &[u8] = b"Hello World!";
const HELLO_SHA1: &str = "2ef7bde608ce5404e97d5f042f95f89f1c232871";

fn options(keep_tar: bool, no_resume: bool, hash: bool) -> TransferOptions {
    TransferOptions {
        keep_tar,
        no_resume,
        hash,
    }
}

fn stream_of(chunks: &[&[u8]]) -> HashedStream {
    let mut stream = HashedStream::new();
    for chunk in chunks {
        stream.absorb(chunk);
    }
    stream
}

#[test]
fn unpacking_always_requests_the_whole_file() {
    for existing in [None, Some(0), Some(5), Some(12), Some(99)] {
        for no_resume in [false, true] {
            let plan = plan_transfer(options(false, no_resume, true), existing, 12);
            assert_eq!(plan, TransferPlan::Unpack);
            assert!(plan.needs_request());
            assert_eq!(plan.range_header(), None);
        }
    }
}

#[test]
fn a_new_file_is_fetched_from_the_start() {
    let plan = plan_transfer(options(true, false, true), None, 931112960);
    assert_eq!(
        plan,
        TransferPlan::Fetch {
            from: 0,
            until: 931112960
        }
    );
    assert!(plan.needs_request());
    assert_eq!(plan.range_header().as_deref(), Some("bytes=0-931112959"));
    // Without resuming, too.
    assert_eq!(
        plan_transfer(options(true, true, true), None, 12),
        TransferPlan::Fetch { from: 0, until: 12 }
    );
}

#[test]
fn a_complete_file_costs_no_request() {
    let opts = options(true, false, true);
    // Twice in a row: the answer is the same, and no request is sent.
    for _ in 0..2 {
        let plan = plan_transfer(opts, Some(12), 12);
        assert_eq!(plan, TransferPlan::CheckExisting);
        assert!(!plan.needs_request());
        let next = after_existing(opts, 12, HELLO_SHA1, stream_of(&[HELLO]));
        assert_eq!(next, TransferPlan::AlreadyComplete);
        assert!(!next.needs_request());
    }
    // The case of the letters does not matter.
    let upper = HELLO_SHA1.to_uppercase();
    assert_eq!(
        after_existing(opts, 12, &upper, stream_of(&[HELLO])),
        TransferPlan::AlreadyComplete
    );
    // Nor whether resuming is on.
    assert_eq!(
        after_existing(options(true, true, false), 12, HELLO_SHA1, stream_of(&[HELLO])),
        TransferPlan::AlreadyComplete
    );
}

#[test]
fn a_complete_file_with_another_hash() {
    // With resuming, the file is fetched again from the start.
    let plan = after_existing(options(true, false, true), 12, HELLO_SHA1, stream_of(&[b"Hello World?"]));
    assert_eq!(plan, TransferPlan::Fetch { from: 0, until: 12 });
    assert_eq!(plan.range_header().as_deref(), Some("bytes=0-11"));
    // Without, it is left alone.
    let plan = after_existing(options(true, true, true), 12, HELLO_SHA1, stream_of(&[b"Hello World?"]));
    assert_eq!(plan, TransferPlan::MismatchLeftAlone);
    assert!(!plan.needs_request());
    assert_eq!(plan.range_header(), None);
}

#[test]
fn a_partial_file_is_resumed() {
    let opts = options(true, false, true);
    let plan = plan_transfer(opts, Some(5), 12);
    assert_eq!(plan, TransferPlan::Fetch { from: 5, until: 12 });
    assert!(plan.needs_request());
    assert_eq!(plan.range_header().as_deref(), Some("bytes=5-11"));
    // What was on disk passes through the stream first, then the answer to
    // the request: the digest is that of the whole file.
    let mut stream = HashedStream::new();
    stream.absorb(&HELLO[..5]);
    stream.absorb(&HELLO[5..9]);
    stream.absorb(&HELLO[9..]);
    assert!(conclude(opts, 1, "url", HELLO_SHA1, stream).is_ok());
    // A stream without what was on disk is not the file.
    let mut short = HashedStream::new();
    short.absorb(&HELLO[5..]);
    assert!(conclude(opts, 1, "url", HELLO_SHA1, short).is_err());
}

#[test]
fn a_partial_file_is_left_alone_without_resume() {
    let plan = plan_transfer(options(true, true, true), Some(5), 12);
    assert_eq!(plan, TransferPlan::SkipPartial);
    assert!(!plan.needs_request());
    assert_eq!(
        plan_transfer(options(true, true, true), Some(0), 12),
        TransferPlan::SkipPartial
    );
}

#[test]
fn a_file_that_is_too_long() {
    let plan = plan_transfer(options(true, false, true), Some(20), 12);
    assert_eq!(plan, TransferPlan::Fetch { from: 20, until: 12 });
    // There is nothing to ask for.
    assert!(!plan.needs_request());
    assert_eq!(plan.range_header(), None);
    assert_eq!(
        plan_transfer(options(true, true, true), Some(20), 12),
        TransferPlan::Fetch { from: 20, until: 12 }
    );
}

#[test]
fn an_empty_file() {
    assert_eq!(
        plan_transfer(options(true, false, true), Some(0), 0),
        TransferPlan::CheckExisting
    );
    let plan = plan_transfer(options(true, false, true), None, 0);
    assert_eq!(plan, TransferPlan::Fetch { from: 0, until: 0 });
    assert!(!plan.needs_request());
    assert_eq!(plan.range_header(), None);
}

#[test]
fn the_largest_range() {
    let plan = TransferPlan::Fetch {
        from: u64::MAX - 1,
        until: u64::MAX,
    };
    assert_eq!(
        plan.range_header().as_deref(),
        Some("bytes=18446744073709551614-18446744073709551614")
    );
}

#[test]
fn hash_mismatch_on_a_complete_download() {
    let r = conclude(
        options(true, false, true),
        575929,
        "https://host/a/file.tar?sig=1",
        "12b0933ff3985c82a7303d8e57fa7157fe88353e",
        stream_of(&[HELLO]),
    );
    match r {
        Err(AsvoError::HashMismatch {
            jobid,
            file,
            calculated_hash,
            expected_hash,
        }) => {
            assert_eq!(jobid, 575929);
            assert_eq!(file, "https://host/a/file.tar?sig=1");
            assert_eq!(calculated_hash, HELLO_SHA1);
            assert_eq!(expected_hash, "12b0933ff3985c82a7303d8e57fa7157fe88353e");
        }
        other => panic!("unexpected: {:?}", other),
    }
}

#[test]
fn no_hash_check_no_mismatch() {
    let r = conclude(options(false, false, false), 1, "url", "not even a hash", stream_of(&[HELLO]));
    assert!(r.is_ok());
}

#[test]
fn the_hash_covers_what_the_decoder_left_unread() {
    let opts = options(false, false, true);
    // The archive decoder stopped before the end; the rest is drained into
    // the stream.
    let mut stream = HashedStream::new();
    stream.absorb(&HELLO[..7]);
    stream.absorb(&HELLO[7..]);
    assert!(conclude(opts, 1, "url", HELLO_SHA1, stream).is_ok());
    let mut undrained = HashedStream::new();
    undrained.absorb(&HELLO[..7]);
    assert!(conclude(opts, 1, "url", HELLO_SHA1, undrained).is_err());
}

#[test]
fn archive_entries() {
    assert_eq!(entry_action("."), EntryAction::Skip);
    assert_eq!(entry_action("./"), EntryAction::Skip);
    assert_eq!(entry_action("1339896408/"), EntryAction::EnsureDirectory);
    assert_eq!(entry_action("./a/b/"), EntryAction::EnsureDirectory);
    assert_eq!(entry_action("/"), EntryAction::EnsureDirectory);
    assert_eq!(entry_action("1339896408.metafits"), EntryAction::WriteFile);
    assert_eq!(entry_action("./a/b.fits"), EntryAction::WriteFile);
    assert_eq!(entry_action(".."), EntryAction::WriteFile);
    assert_eq!(entry_action(""), EntryAction::WriteFile);
}

#[test]
fn buffer_sizes() {
    assert_eq!(buffer_size(None).unwrap(), 100 * 1024 * 1024);
    assert_eq!(buffer_size(Some("1")).unwrap(), 1024 * 1024);
    assert_eq!(buffer_size(Some("0")).unwrap(), 0);
    assert_eq!(buffer_size(Some("250")).unwrap(), 250 * 1024 * 1024);
    assert!(matches!(buffer_size(Some("ten")), Err(AsvoError::Parse(_))));
    assert!(matches!(buffer_size(Some("")), Err(AsvoError::Parse(_))));
    assert!(matches!(buffer_size(Some("-1")), Err(AsvoError::Parse(_))));
    // More than the machine can address.
    assert_eq!(
        buffer_size(Some("18446744073709551615")).unwrap(),
        usize::MAX
    );
}

#[test]
fn a_transfer_of_a_new_file() {
    let opts = options(true, false, true);
    let mut t = FileTransfer::begin(opts, 7, "https://h/f.tar", 12, HELLO_SHA1, None);
    assert_eq!(t.plan(), TransferPlan::Fetch { from: 0, until: 12 });
    t.absorb(&HELLO[..4]);
    t.absorb(&HELLO[4..]);
    assert!(t.finish().is_ok());
}

#[test]
fn a_transfer_of_a_complete_file() {
    let opts = options(true, false, true);
    for _ in 0..2 {
        let mut t = FileTransfer::begin(opts, 7, "https://h/f.tar", 12, HELLO_SHA1, Some(12));
        assert_eq!(t.plan(), TransferPlan::CheckExisting);
        t.absorb(HELLO);
        t.existing_checked();
        assert_eq!(t.plan(), TransferPlan::AlreadyComplete);
        assert!(!t.plan().needs_request());
        assert!(t.finish().is_ok());
    }
}

#[test]
fn a_transfer_that_starts_over() {
    let opts = options(true, false, true);
    let mut t = FileTransfer::begin(opts, 7, "https://h/f.tar", 12, HELLO_SHA1, Some(12));
    t.absorb(b"Hello World?");
    t.existing_checked();
    assert_eq!(t.plan(), TransferPlan::Fetch { from: 0, until: 12 });
    // What was on disk is forgotten: the digest is that of the new bytes.
    t.absorb(HELLO);
    assert!(t.finish().is_ok());
}

#[test]
fn a_transfer_that_is_resumed() {
    let opts = options(true, false, true);
    let mut t = FileTransfer::begin(opts, 7, "https://h/f.tar", 12, HELLO_SHA1, Some(5));
    assert_eq!(t.plan(), TransferPlan::Fetch { from: 5, until: 12 });
    assert_eq!(t.plan().range_header().as_deref(), Some("bytes=5-11"));
    // Checking what is not to be checked changes nothing.
    t.existing_checked();
    assert_eq!(t.plan(), TransferPlan::Fetch { from: 5, until: 12 });
    t.absorb(&HELLO[..5]);
    t.absorb(&HELLO[5..]);
    assert!(t.finish().is_ok());
}

#[test]
fn a_transfer_with_a_wrong_hash() {
    let opts = options(false, false, true);
    let mut t = FileTransfer::begin(opts, 7, "https://h/f.tar", 12, "00ff", None);
    assert_eq!(t.plan(), TransferPlan::Unpack);
    t.absorb(HELLO);
    match t.finish() {
        Err(AsvoError::HashMismatch {
            jobid,
            file,
            calculated_hash,
            expected_hash,
        }) => {
            assert_eq!(jobid, 7);
            assert_eq!(file, "https://h/f.tar");
            assert_eq!(calculated_hash, HELLO_SHA1);
            assert_eq!(expected_hash, "00ff");
        }
        other => panic!("unexpected: {:?}", other),
    }
}

#[test]
fn a_transfer_that_leaves_the_file_alone() {
    let t = FileTransfer::begin(options(true, true, true), 7, "u", 12, "00ff", Some(5));
    assert_eq!(t.plan(), TransferPlan::SkipPartial);
    assert!(t.finish().is_ok());
    let mut t = FileTransfer::begin(options(true, true, true), 7, "u", 12, "00ff", Some(12));
    t.absorb(HELLO);
    t.existing_checked();
    assert_eq!(t.plan(), TransferPlan::MismatchLeftAlone);
    assert!(t.finish().is_ok());
}

#[test]
fn a_transfer_that_was_never_checked() {
    // Ended before the file on disk was checked: no success without the
    // right hash.
    let mut t = FileTransfer::begin(options(true, false, false), 7, "u", 12, "00ff", Some(12));
    t.absorb(HELLO);
    assert!(matches!(t.finish(), Err(AsvoError::HashMismatch { .. })));
    let mut t = FileTransfer::begin(options(true, false, false), 7, "u", 12, HELLO_SHA1, Some(12));
    t.absorb(HELLO);
    assert!(t.finish().is_ok());
}
