use redfish::{build_uri, ApiVersion};

#[test]
fn uri_with_port_and_version() {
    let host = String::from("bmc01");
    let uri = build_uri(&host, Some(443), Some(ApiVersion::V2), "Managers/");
    assert_eq!(uri, "https://bmc01:443/redfish/v2/Managers/");
}

#[test]
fn uri_without_port_and_version() {
    let host = String::from("bmc01");
    let uri = build_uri(&host, None, None, "Managers/");
    assert_eq!(uri, "https://bmc01/Managers/");
}

#[test]
fn uri_with_port_only() {
    let host = String::from("10.0.0.7");
    let uri = build_uri(&host, Some(8443), None, "Chassis/1/Power/");
    assert_eq!(uri, "https://10.0.0.7:8443/Chassis/1/Power/");
}

#[test]
fn uri_with_version_only() {
    let host = String::from("bmc01.example.org");
    let uri = build_uri(&host, None, Some(ApiVersion::V1), "Chassis/1/Thermal/");
    assert_eq!(uri, "https://bmc01.example.org/redfish/v1/Chassis/1/Thermal/");
}

#[test]
fn uri_default_version_is_not_implied() {
    let host = String::from("bmc01");
    let unset = build_uri(&host, None, None, "Managers/");
    let v1 = build_uri(&host, None, Some(ApiVersion::default()), "Managers/");
    assert_eq!(unset, "https://bmc01/Managers/");
    assert_eq!(v1, "https://bmc01/redfish/v1/Managers/");
    assert_ne!(unset, v1);
}

#[test]
fn uri_port_bounds() {
    let host = String::from("bmc01");
    assert_eq!(build_uri(&host, Some(0), None, "Managers/"), "https://bmc01:0/Managers/");
    assert_eq!(
        build_uri(&host, Some(u16::MAX), Some(ApiVersion::V2), "Managers/"),
        "https://bmc01:65535/redfish/v2/Managers/"
    );
}

#[test]
fn uri_keeps_fragment_verbatim() {
    let host = String::from("bmc01");
    assert_eq!(build_uri(&host, None, None, ""), "https://bmc01/");
    assert_eq!(build_uri(&host, None, None, "Managers"), "https://bmc01/Managers");
    assert_eq!(
        build_uri(&host, Some(443), None, "a b/../%2F?x=1#y"),
        "https://bmc01:443/a b/../%2F?x=1#y"
    );
    assert_eq!(
        build_uri(&host, None, Some(ApiVersion::V1), "/Managers/"),
        "https://bmc01/redfish/v1//Managers/"
    );
}

#[test]
fn uri_does_not_validate_host() {
    let empty = String::new();
    assert_eq!(build_uri(&empty, None, None, "Managers/"), "https:///Managers/");
    let odd = String::from("bmc 01/é");
    assert_eq!(
        build_uri(&odd, Some(1), Some(ApiVersion::V2), "Managers/"),
        "https://bmc 01/é:1/redfish/v2/Managers/"
    );
}

#[test]
fn uri_matches_format_of_its_parts() {
    let hosts = ["bmc01", "192.168.1.20", "lom.rack7.example.net"];
    let ports = [None, Some(0u16), Some(80), Some(443), Some(65535)];
    let versions = [None, Some(ApiVersion::V1), Some(ApiVersion::V2)];
    let paths = ["Managers/", "Chassis/1/Power/", "Systems/1/SmartStorage/ArrayControllers/0/"];
    for host in hosts {
        for port in ports {
            for version in versions {
                for path in paths {
                    let expected = match (port, version) {
                        (Some(p), Some(v)) => {
                            format!("https://{}:{}/{}/{}", host, p, v.to_string(), path)
                        }
                        (Some(p), None) => format!("https://{}:{}/{}", host, p, path),
                        (None, Some(v)) => format!("https://{}/{}/{}", host, v.to_string(), path),
                        (None, None) => format!("https://{}/{}", host, path),
                    };
                    assert_eq!(build_uri(&host.to_string(), port, version, path), expected);
                }
            }
        }
    }
}

#[test]
fn uri_is_https_of_the_host_and_ends_with_the_fragment() {
    let host = String::from("bmc01");
    for port in [None, Some(443u16)] {
        for version in [None, Some(ApiVersion::V1), Some(ApiVersion::V2)] {
            for path in ["", "Managers/", "Chassis/1/Power/"] {
                let uri = build_uri(&host, port, version, path);
                assert!(uri.starts_with("https://bmc01"));
                assert!(uri.ends_with(path));
            }
        }
    }
}
