use mwa_giant_squid::asvo::error::AsvoError;
use mwa_giant_squid::asvo::hash::{check_file_sha1_hash, check_hash, HashedStream};
use mwa_giant_squid::asvo::types::{AsvoJobState, AsvoJobType};
use mwa_giant_squid::helpers::{
    get_job_state_table_style, get_job_type_table_style, parse_jobid_or_obsid,
    parse_jobids_and_obsids_from_file, parse_key_value_pairs, parse_many_jobids_or_obsids,
    Identifiers, ObsidOrJobID, ParseError, Progress,
};

#[test]
fn check_file_sha1_hash_ok() {
    // Check the checksum of contents of known sha1sum hash
    assert!(check_file_sha1_hash(
        "Hello World!".as_bytes(),
        "tmpfile",
        "2ef7bde608ce5404e97d5f042f95f89f1c232871",
        123
    )
    .is_ok());
}

#[test]
fn check_file_sha1_hash_err() {
    // Check the checksum - but the expected checksum is wrong
    assert!(check_file_sha1_hash("Hello World!".as_bytes(), "tmpfile", "abcd123", 123).is_err());
}

#[test]
fn parse_map_simple() {
    let result = parse_key_value_pairs("avg_time_res=0.5,avg_freq_res=10");
    assert!(result.is_ok());
    let map = result.unwrap();
    assert_eq!(map.get("avg_time_res"), Some("0.5"));
    assert_eq!(map.get("avg_freq_res"), Some("10"));
}

#[test]
fn parse_map_complex() {
    let result = parse_key_value_pairs(
        r#"avg_time_res=0.5 ,

            avg_freq_res = 10 "#,
    );
    assert!(result.is_ok());
    let map = result.unwrap();
    assert_eq!(map.get("avg_time_res"), Some("0.5"));
    assert_eq!(map.get("avg_freq_res"), Some("10"));
}

#[test]
fn bad_parse_map() {
    let result = parse_key_value_pairs("avg_time_res=0.5=1,avg_freq_res=10");
    assert!(result.is_err());

    let result = parse_key_value_pairs("avg_time_res=0.5,avg_freq_res");
    assert!(result.is_err());
}

#[test]
fn parse_map_names_the_bad_pair() {
    match parse_key_value_pairs("a=1, b ,c=d=e") {
        Err(ParseError::NotKeyValue(pair)) => assert_eq!(pair, " b "),
        other => panic!("unexpected: {:?}", other),
    }
    // The empty text is one pair without a `=`.
    assert!(matches!(parse_key_value_pairs(""), Err(ParseError::NotKeyValue(_))));
}

#[test]
fn parse_map_later_pair_wins() {
    let map = parse_key_value_pairs("a=1,b=2,a=3").unwrap();
    assert_eq!(map.get("a"), Some("3"));
    assert_eq!(map.get("b"), Some("2"));
    assert_eq!(map.get("c"), None);
    assert!(map.contains_key("a"));
    assert!(!map.contains_key("c"));
}

#[test]
fn parse_map_empty_key_and_value() {
    let map = parse_key_value_pairs(" = ").unwrap();
    assert_eq!(map.get(""), Some(""));
}

#[test]
fn hash_is_case_insensitive() {
    assert!(check_file_sha1_hash(
        b"Hello World!",
        "f",
        "2EF7BDE608CE5404E97D5F042F95F89F1C232871",
        1
    )
    .is_ok());
}

#[test]
fn hash_of_nothing() {
    assert_eq!(
        HashedStream::new().finish(),
        "da39a3ee5e6b4b0d3255bfef95601890afd80709"
    );
}

#[test]
fn hash_covers_every_chunk_in_order() {
    let mut stream = HashedStream::new();
    stream.absorb(b"Hello ");
    stream.absorb(b"");
    stream.absorb(b"World!");
    assert_eq!(stream.finish(), "2ef7bde608ce5404e97d5f042f95f89f1c232871");
    let mut other = HashedStream::new();
    other.absorb(b"World!");
    other.absorb(b"Hello ");
    assert_ne!(other.finish(), "2ef7bde608ce5404e97d5f042f95f89f1c232871");
}

#[test]
fn hash_mismatch_names_everything() {
    let r = check_file_sha1_hash(b"Hello World!", "some/file.tar", "abcd123", 123);
    match r {
        Err(AsvoError::HashMismatch {
            jobid,
            file,
            calculated_hash,
            expected_hash,
        }) => {
            assert_eq!(jobid, 123);
            assert_eq!(file, "some/file.tar");
            assert_eq!(calculated_hash, "2ef7bde608ce5404e97d5f042f95f89f1c232871");
            assert_eq!(expected_hash, "abcd123");
        }
        other => panic!("unexpected: {:?}", other),
    }
}

#[test]
fn check_hash_compares_texts() {
    assert!(check_hash(1, "f", "ABCDEF", "abcdef".to_string()).is_ok());
    assert!(check_hash(1, "f", "abcde", "abcdef".to_string()).is_err());
    assert!(check_hash(1, "f", "abcdeg", "abcdef".to_string()).is_err());
}

#[test]
fn jobid_or_obsid() {
    assert!(matches!(
        parse_jobid_or_obsid("1065880128"),
        Some(ObsidOrJobID::O(o)) if o.value() == 1065880128
    ));
    assert!(matches!(parse_jobid_or_obsid("575929"), Some(ObsidOrJobID::J(575929))));
    assert!(matches!(parse_jobid_or_obsid("0"), Some(ObsidOrJobID::J(0))));
    // Of a number that needs more than 32 bits and is no obsid, the low 32
    // bits count.
    assert!(matches!(parse_jobid_or_obsid("4294967296"), Some(ObsidOrJobID::O(_))));
    assert!(matches!(parse_jobid_or_obsid("10000000000"), Some(ObsidOrJobID::J(1410065408))));
    assert!(parse_jobid_or_obsid("jobs.txt").is_none());
    assert!(parse_jobid_or_obsid("").is_none());
    assert!(parse_jobid_or_obsid("12 ").is_none());
}

#[test]
fn ids_from_text() {
    let mut ids = Identifiers::new();
    let r = parse_jobids_and_obsids_from_file(
        "jobs.txt",
        "1065880128 17\n\n 1061311664\t3 ",
        &mut ids,
    );
    assert!(r.is_ok());
    assert_eq!(ids.jobids, vec![17, 3]);
    assert_eq!(ids.obsids.len(), 2);
    assert_eq!(ids.obsids[0].value(), 1065880128);
    assert_eq!(ids.obsids[1].value(), 1061311664);
}

#[test]
fn ids_from_text_names_the_bad_word() {
    let mut ids = Identifiers::new();
    let r = parse_jobids_and_obsids_from_file("jobs.txt", "17 x9 1065880128 y", &mut ids);
    match r {
        Err(ParseError::InsideFile { file, text }) => {
            assert_eq!(file, "jobs.txt");
            assert_eq!(text, "x9");
        }
        other => panic!("unexpected: {:?}", other),
    }
    assert_eq!(ids.jobids, vec![17]);
    assert_eq!(ids.obsids.len(), 0);
}

#[test]
fn many_ids_stop_at_a_file() {
    let args: Vec<String> = ["12", "1065880128", "list.txt", "13", "more.txt"]
        .iter()
        .map(|s| s.to_string())
        .collect();
    let mut ids = Identifiers::new();
    assert_eq!(
        parse_many_jobids_or_obsids(&args, 0, &mut ids),
        Progress::NeedsFile(2)
    );
    assert_eq!(ids.jobids, vec![12]);
    assert_eq!(ids.obsids.len(), 1);
    assert!(parse_jobids_and_obsids_from_file("list.txt", "5 6", &mut ids).is_ok());
    assert_eq!(
        parse_many_jobids_or_obsids(&args, 3, &mut ids),
        Progress::NeedsFile(4)
    );
    assert!(parse_jobids_and_obsids_from_file("more.txt", "", &mut ids).is_ok());
    assert_eq!(
        parse_many_jobids_or_obsids(&args, 5, &mut ids),
        Progress::Finished
    );
    assert_eq!(ids.jobids, vec![12, 5, 6, 13]);
    assert_eq!(
        parse_many_jobids_or_obsids(&args, 99, &mut ids),
        Progress::Finished
    );
    assert_eq!(ids.jobids, vec![12, 5, 6, 13]);
}

#[test]
fn many_ids_without_files() {
    let args: Vec<String> = vec!["1".to_string(), "2".to_string()];
    let mut ids = Identifiers::new();
    assert_eq!(
        parse_many_jobids_or_obsids(&args, 0, &mut ids),
        Progress::Finished
    );
    assert_eq!(ids.jobids, vec![1, 2]);
    let none: Vec<String> = vec![];
    assert_eq!(
        parse_many_jobids_or_obsids(&none, 0, &mut ids),
        Progress::Finished
    );
}

#[test]
fn type_styles() {
    assert_eq!(get_job_type_table_style(AsvoJobType::Conversion, false), "Fb");
    assert_eq!(get_job_type_table_style(AsvoJobType::DownloadVisibilities, false), "Fb");
    assert_eq!(get_job_type_table_style(AsvoJobType::DownloadMetadata, false), "Fy");
    assert_eq!(get_job_type_table_style(AsvoJobType::DownloadVoltage, false), "Fm");
    assert_eq!(get_job_type_table_style(AsvoJobType::CancelJob, false), "Fr");
    assert_eq!(get_job_type_table_style(AsvoJobType::CancelJob, true), "");
}

#[test]
fn state_styles() {
    assert_eq!(get_job_state_table_style(AsvoJobState::Queued, false), "Fw");
    assert_eq!(get_job_state_table_style(AsvoJobState::Staging, false), "Fm");
    assert_eq!(get_job_state_table_style(AsvoJobState::Delivering, false), "Fm");
    assert_eq!(get_job_state_table_style(AsvoJobState::Ready, false), "Fg");
    assert_eq!(
        get_job_state_table_style(AsvoJobState::Error("x".to_string()), false),
        "Fr"
    );
    assert_eq!(get_job_state_table_style(AsvoJobState::Expired, false), "Fr");
    assert_eq!(get_job_state_table_style(AsvoJobState::Cancelled, false), "Fr");
    assert_eq!(get_job_state_table_style(AsvoJobState::Ready, true), "");
}
