use mwa_giant_squid::asvo::form::{
    conv_form, default_conversion_parameters, meta_form, signed_decimal, vis_form, volt_form,
    Parameters,
};
use mwa_giant_squid::asvo::types::{Delivery, DeliveryFormat};
use mwa_giant_squid::obsid::Obsid;
use std::collections::BTreeMap;

fn obsid() -> Obsid {
    Obsid::validate(1343457784).unwrap()
}

fn as_map(form: &Parameters) -> BTreeMap<String, String> {
    form.pairs().iter().cloned().collect()
}

fn map_of(pairs: &[(&str, &str)]) -> BTreeMap<String, String> {
    pairs
        .iter()
        .map(|(k, v)| (k.to_string(), v.to_string()))
        .collect()
}

#[test]
fn parameters_are_a_map() {
    let mut p = Parameters::new();
    assert_eq!(p.get("a"), None);
    p.insert("a", "1");
    p.insert("b", "2");
    p.insert("a", "3");
    assert_eq!(p.get("a"), Some("3"));
    assert_eq!(p.get("b"), Some("2"));
    assert_eq!(p.get(""), None);
    assert!(p.contains_key("b"));
    assert_eq!(as_map(&p), map_of(&[("a", "3"), ("b", "2")]));
    let mut q = Parameters::new();
    q.insert("b", "4");
    q.insert("c", "5");
    p.extend(&q);
    assert_eq!(as_map(&p), map_of(&[("a", "3"), ("b", "4"), ("c", "5")]));
}

#[test]
fn conversion_defaults() {
    assert_eq!(
        as_map(&default_conversion_parameters()),
        map_of(&[
            ("output", "uvfits"),
            ("avg_freq_res", "80"),
            ("flag_edge_width", "80")
        ])
    );
}

#[test]
fn visibility_form() {
    assert_eq!(
        as_map(&vis_form(obsid(), Delivery::Acacia, None, false)),
        map_of(&[
            ("obs_id", "1343457784"),
            ("delivery", "acacia"),
            ("download_type", "vis"),
            ("allow_resubmit", "false")
        ])
    );
    assert_eq!(
        as_map(&vis_form(obsid(), Delivery::Scratch, Some(DeliveryFormat::Tar), true)),
        map_of(&[
            ("obs_id", "1343457784"),
            ("delivery", "scratch"),
            ("delivery_format", "tar"),
            ("download_type", "vis"),
            ("allow_resubmit", "true")
        ])
    );
}

#[test]
fn metadata_form() {
    assert_eq!(
        as_map(&meta_form(obsid(), Delivery::Acacia, Some(DeliveryFormat::Tar), false)),
        map_of(&[
            ("obs_id", "1343457784"),
            ("delivery", "acacia"),
            ("delivery_format", "tar"),
            ("download_type", "vis_meta"),
            ("allow_resubmit", "false")
        ])
    );
}

#[test]
fn voltage_form() {
    assert_eq!(
        as_map(&volt_form(obsid(), Delivery::Scratch, 0, 8, None, None, false)),
        map_of(&[
            ("obs_id", "1343457784"),
            ("delivery", "scratch"),
            ("offset", "0"),
            ("duration", "8"),
            ("download_type", "volt"),
            ("allow_resubmit", "false")
        ])
    );
    assert_eq!(
        as_map(&volt_form(obsid(), Delivery::Scratch, -4, 8, Some(109), Some(132), true)),
        map_of(&[
            ("obs_id", "1343457784"),
            ("delivery", "scratch"),
            ("offset", "-4"),
            ("duration", "8"),
            ("channel_range", "true"),
            ("from_channel", "109"),
            ("to_channel", "132"),
            ("download_type", "volt"),
            ("allow_resubmit", "true")
        ])
    );
    // One bound is a range too.
    assert_eq!(
        as_map(&volt_form(obsid(), Delivery::Scratch, 0, 8, None, Some(5), false)),
        map_of(&[
            ("obs_id", "1343457784"),
            ("delivery", "scratch"),
            ("offset", "0"),
            ("duration", "8"),
            ("channel_range", "true"),
            ("to_channel", "5"),
            ("download_type", "volt"),
            ("allow_resubmit", "false")
        ])
    );
}

#[test]
fn conversion_form() {
    let mut user = Parameters::new();
    user.insert("avg_freq_res", "40");
    user.insert("avg_time_res", "0.5");
    // What the user says of the delivery here does not count.
    user.insert("delivery", "scratch");
    user.insert("allow_resubmit", "true");
    assert_eq!(
        as_map(&conv_form(obsid(), Delivery::Acacia, None, &user, false)),
        map_of(&[
            ("obs_id", "1343457784"),
            ("output", "uvfits"),
            ("avg_freq_res", "40"),
            ("flag_edge_width", "80"),
            ("avg_time_res", "0.5"),
            ("delivery", "acacia"),
            ("allow_resubmit", "false")
        ])
    );
    assert_eq!(
        as_map(&conv_form(
            obsid(),
            Delivery::Scratch,
            Some(DeliveryFormat::Tar),
            &Parameters::new(),
            true
        )),
        map_of(&[
            ("obs_id", "1343457784"),
            ("output", "uvfits"),
            ("avg_freq_res", "80"),
            ("flag_edge_width", "80"),
            ("delivery", "scratch"),
            ("delivery_format", "tar"),
            ("allow_resubmit", "true")
        ])
    );
}

#[test]
fn signed_numbers() {
    assert_eq!(signed_decimal(0), "0");
    assert_eq!(signed_decimal(7), "7");
    assert_eq!(signed_decimal(-7), "-7");
    assert_eq!(signed_decimal(i32::MAX), "2147483647");
    assert_eq!(signed_decimal(i32::MIN), "-2147483648");
}
