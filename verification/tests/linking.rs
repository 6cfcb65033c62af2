use papyrus::data::ReplData;
use papyrus::linking::{staging_request, LinkingConfiguration};

#[test]
fn default_configuration_is_empty() {
    let c = LinkingConfiguration::default();
    assert!(c.external_crates.is_empty());
    assert!(c.data_type.is_none());
    assert_eq!(c.artifact_of("rand"), None);
}

#[test]
fn staging_goes_from_the_given_path_into_the_workspace() {
    let req = staging_request("/tmp/ws", "rand", Some("/build/librand-1.rlib"));
    assert_eq!(req.from, "/build/librand-1.rlib");
    assert_eq!(req.to, "/tmp/ws/librand.rlib");
}

#[test]
fn staging_without_a_path_uses_the_convention() {
    let req = staging_request("ws", "rand", None);
    assert_eq!(req.from, "librand.rlib");
    assert_eq!(req.to, "ws/librand.rlib");
}

#[test]
fn linking_registers_the_artifact() {
    let c = LinkingConfiguration::default();
    let d = c.link_external_crate("rand", Some("a/librand.rlib"), Ok(())).unwrap();
    assert_eq!(d.artifact_of("rand"), Some(String::from("a/librand.rlib")));
    assert_eq!(d.artifact_of("Rand"), None);
    assert_eq!(c.artifact_of("rand"), None);
    assert_eq!(d.external_crates.len(), 1);
}

#[test]
fn linking_without_a_path_registers_the_convention() {
    let d = LinkingConfiguration::default().link_external_crate("rand", None, Ok(())).unwrap();
    assert_eq!(d.artifact_of("rand"), Some(String::from("librand.rlib")));
}

#[test]
fn relinking_a_name_keeps_the_second_path() {
    let c = LinkingConfiguration::default()
        .link_external_crate("rand", Some("first.rlib"), Ok(()))
        .unwrap()
        .link_external_crate("serde", Some("serde.rlib"), Ok(()))
        .unwrap()
        .link_external_crate("rand", Some("second.rlib"), Ok(()))
        .unwrap();
    assert_eq!(c.artifact_of("rand"), Some(String::from("second.rlib")));
    assert_eq!(c.artifact_of("serde"), Some(String::from("serde.rlib")));
    assert_eq!(c.external_crates.len(), 2);
}

#[test]
fn failed_staging_registers_nothing() {
    let c = LinkingConfiguration::default()
        .link_external_crate("rand", Some("first.rlib"), Ok(()))
        .unwrap();
    let e = c
        .link_external_crate("rand", Some("second.rlib"), Err(String::from("disk full")))
        .unwrap_err();
    assert_eq!(e, "disk full");
    assert_eq!(c.artifact_of("rand"), Some(String::from("first.rlib")));
}

#[test]
fn carried_type_is_set_and_units_stay() {
    let c = LinkingConfiguration::default()
        .link_external_crate("rand", Some("first.rlib"), Ok(()))
        .unwrap()
        .with_data("String");
    assert_eq!(c.data_type, Some(String::from("String")));
    assert_eq!(c.artifact_of("rand"), Some(String::from("first.rlib")));
    let d = c.link_external_crate("x", None, Ok(())).unwrap();
    assert_eq!(d.data_type, Some(String::from("String")));
}

#[test]
fn clone_keeps_units_and_type() {
    let c = LinkingConfiguration::default()
        .link_external_crate("rand", Some("first.rlib"), Ok(()))
        .unwrap()
        .with_data("u8");
    let d = c.clone();
    assert_eq!(d.artifact_of("rand"), Some(String::from("first.rlib")));
    assert_eq!(d.data_type, Some(String::from("u8")));
}

#[test]
fn session_links_and_relinks() {
    let data = ReplData::default()
        .with_compilation_dir("/tmp/ws", Ok(()))
        .unwrap();
    let req = data.extern_crate_staging("rand", Some("one.rlib"));
    assert_eq!(req.from, "one.rlib");
    assert_eq!(req.to, "/tmp/ws/librand.rlib");
    let data = data.with_extern_crate("rand", Some("one.rlib"), Ok(())).unwrap();
    let data = data.with_extern_crate("rand", Some("two.rlib"), Ok(())).unwrap();
    assert_eq!(data.linking().artifact_of("rand"), Some(String::from("two.rlib")));
    assert_eq!(data.compilation_dir, "/tmp/ws");
    assert_eq!(data.cmdtree.len(), 1);
}

#[test]
fn session_reports_a_failed_staging() {
    let r = ReplData::default().with_extern_crate("rand", None, Err(String::from("no such file")));
    assert_eq!(r.unwrap_err(), "no such file");
}

#[test]
fn session_reports_a_failed_directory() {
    let r = ReplData::default().with_compilation_dir("/x", Err(String::from("denied")));
    assert_eq!(r.unwrap_err(), "denied");
}

#[test]
fn session_sets_the_carried_type() {
    let data = ReplData::default()
        .with_extern_crate("rand", Some("one.rlib"), Ok(()))
        .unwrap()
        .set_data_type("Vec<u8>");
    assert_eq!(data.linking().data_type, Some(String::from("Vec<u8>")));
    assert_eq!(data.linking().artifact_of("rand"), Some(String::from("one.rlib")));
    assert_eq!(data.current_file, "lib.rs");
}
