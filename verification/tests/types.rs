use mwa_giant_squid::asvo::error::AsvoError;
use mwa_giant_squid::asvo::types::{
    AsvoJobState, AsvoJobType, Delivery, DeliveryFormat, EnvSetting,
};
use std::str::FromStr;

#[test]
fn test_asvo_job_state_fromstr() {
    assert!(matches!(
        AsvoJobState::from_str("__Q_u_e_u_e_D__"),
        Ok(AsvoJobState::Queued)
    ));
    assert!(matches!(
        AsvoJobState::from_str("invalid job state"),
        Err(AsvoError::InvalidJobState { .. })
    ));
}

#[test]
fn test_asvo_job_type_fromstr() {
    assert!(matches!(
        AsvoJobType::from_str("DownloadVisibilities"),
        Ok(AsvoJobType::DownloadVisibilities)
    ));
    assert!(matches!(
        AsvoJobType::from_str("download_visibilities"),
        Ok(AsvoJobType::DownloadVisibilities)
    ));
    assert!(matches!(
        AsvoJobType::from_str("invalid job type"),
        Err(AsvoError::InvalidJobType { .. })
    ));
}

#[test]
fn job_type_names() {
    assert_eq!(AsvoJobType::parse("conversion").unwrap(), AsvoJobType::Conversion);
    assert_eq!(AsvoJobType::parse("Download Metadata").unwrap(), AsvoJobType::DownloadMetadata);
    assert_eq!(AsvoJobType::parse("download-voltage").unwrap(), AsvoJobType::DownloadVoltage);
    assert_eq!(AsvoJobType::parse("CANCEL_JOB").unwrap(), AsvoJobType::CancelJob);
    match AsvoJobType::parse("Cancel") {
        Err(AsvoError::InvalidJobType { str }) => assert_eq!(str, "Cancel"),
        other => panic!("unexpected: {:?}", other),
    }
    assert!(AsvoJobType::parse("").is_err());
    assert_eq!(AsvoJobType::Conversion.name(), "Conversion");
    assert_eq!(AsvoJobType::DownloadVisibilities.name(), "Download Visibilities");
    assert_eq!(AsvoJobType::DownloadMetadata.name(), "Download Metadata");
    assert_eq!(AsvoJobType::DownloadVoltage.name(), "Download Voltage");
    assert_eq!(AsvoJobType::CancelJob.name(), "Cancel Job");
}

#[test]
fn job_state_names() {
    assert_eq!(AsvoJobState::parse("Ready").unwrap(), AsvoJobState::Ready);
    assert_eq!(AsvoJobState::parse("wait_cal").unwrap(), AsvoJobState::WaitCal);
    assert_eq!(AsvoJobState::parse("processing").unwrap(), AsvoJobState::Processing);
    assert_eq!(AsvoJobState::parse("ERROR").unwrap(), AsvoJobState::Error(String::new()));
    assert_eq!(AsvoJobState::parse("expired").unwrap(), AsvoJobState::Expired);
    assert_eq!(AsvoJobState::parse("cancelled").unwrap(), AsvoJobState::Cancelled);
    match AsvoJobState::parse("completed") {
        Err(AsvoError::InvalidJobState { str }) => assert_eq!(str, "completed"),
        other => panic!("unexpected: {:?}", other),
    }
    assert_eq!(AsvoJobState::Queued.name(), "Queued");
    assert_eq!(AsvoJobState::Ready.name(), "Ready");
    assert_eq!(AsvoJobState::Error("boom".to_string()).name(), "Error: boom");
}

#[test]
fn job_state_comparisons() {
    let a = AsvoJobState::Error("a".to_string());
    let b = AsvoJobState::Error("b".to_string());
    assert!(a.same(&a.clone()));
    assert!(!a.same(&b));
    assert!(a.same_kind(&b));
    assert!(!a.same_kind(&AsvoJobState::Ready));
    assert!(!AsvoJobState::Ready.same_kind(&a));
    assert!(AsvoJobState::Ready.same(&AsvoJobState::Ready));
    assert!(!AsvoJobState::Ready.same(&AsvoJobState::Queued));
    assert!(AsvoJobState::Staging.same_kind(&AsvoJobState::Staging));
}

#[test]
fn delivery_validation() {
    let absent = EnvSetting::NotPresent;
    assert_eq!(Delivery::validate(Some("acacia"), &absent).unwrap(), Delivery::Acacia);
    assert_eq!(Delivery::validate(Some("scratch"), &absent).unwrap(), Delivery::Scratch);
    assert!(matches!(
        Delivery::validate(Some("dug"), &absent),
        Err(AsvoError::InvalidDelivery(d)) if d == "dug"
    ));
    // What was asked for wins over the environment.
    let env = EnvSetting::Value("scratch".to_string());
    assert_eq!(Delivery::validate(Some("acacia"), &env).unwrap(), Delivery::Acacia);
    assert_eq!(Delivery::validate(None, &env).unwrap(), Delivery::Scratch);
    let bad = EnvSetting::Value("Acacia".to_string());
    assert!(matches!(
        Delivery::validate(None, &bad),
        Err(AsvoError::InvalidDeliveryEnv(d)) if d == "Acacia"
    ));
    assert!(matches!(
        Delivery::validate(Some("x"), &bad),
        Err(AsvoError::InvalidDelivery(d)) if d == "x"
    ));
    assert_eq!(Delivery::validate(None, &absent).unwrap(), Delivery::Acacia);
    assert!(matches!(
        Delivery::validate(None, &EnvSetting::NotUnicode),
        Err(AsvoError::InvalidDeliveryEnvUnicode)
    ));
    assert_eq!(Delivery::Acacia.name(), "acacia");
    assert_eq!(Delivery::Dug.name(), "dug");
    assert_eq!(Delivery::Scratch.name(), "scratch");
}

#[test]
fn delivery_format_validation() {
    let absent = EnvSetting::NotPresent;
    assert_eq!(
        DeliveryFormat::validate(Some("tar"), &absent).unwrap(),
        Some(DeliveryFormat::Tar)
    );
    assert!(matches!(
        DeliveryFormat::validate(Some("zip"), &absent),
        Err(AsvoError::InvalidDeliveryFormat(d)) if d == "zip"
    ));
    assert_eq!(DeliveryFormat::validate(None, &absent).unwrap(), None);
    let env = EnvSetting::Value("tar".to_string());
    assert_eq!(DeliveryFormat::validate(None, &env).unwrap(), Some(DeliveryFormat::Tar));
    let bad = EnvSetting::Value("zip".to_string());
    assert!(matches!(
        DeliveryFormat::validate(None, &bad),
        Err(AsvoError::InvalidDeliveryFormatEnv(d)) if d == "zip"
    ));
    assert!(matches!(
        DeliveryFormat::validate(None, &EnvSetting::NotUnicode),
        Err(AsvoError::InvalidDeliveryFormatEnvUnicode)
    ));
    assert_eq!(DeliveryFormat::Tar.name(), "tar");
}
