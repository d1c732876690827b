use inventory_store::models::{
    Action, AvailabilityManagement, EnvVar, Hub, MountPoint, Proxy, Rule, RoutingChain, Service,
    SetDeviceId, Timestamp, Zone,
};

fn ts(secs: i64) -> Timestamp {
    Timestamp { secs, nanos: 0 }
}

#[test]
fn records_clone_to_equal_records() {
    let chain = RoutingChain {
        name: "main".to_string(),
        title: "Main".to_string(),
        description: None,
        urn: None,
        rules: vec![
            Rule {
                match_condition: "true".to_string(),
                action: Action::Proxy(Proxy { target: "http://backend".to_string(), no_body: false }),
            },
            Rule {
                match_condition: "path == '/'".to_string(),
                action: Action::SetDeviceId(SetDeviceId { expiration: Some(3600) }),
            },
        ],
        realm: Some("r1".to_string()),
        created_at: ts(1),
        updated_at: ts(2),
    };
    assert_eq!(chain.clone(), chain);
    assert_ne!(chain.rules[0], chain.rules[1]);
}

#[test]
fn services_carry_availability_settings() {
    let service = Service {
        name: "s".to_string(),
        title: "S".to_string(),
        description: None,
        realm: "r".to_string(),
        provider: vec!["p".to_string()],
        consumers: vec![],
        availability_management: Some(AvailabilityManagement {
            cluster_manager_urn: "urn:cm".to_string(),
            service_id: "id".to_string(),
            start_at: None,
            stop_at: None,
            ondemand_start: Some(true),
            idle_timeout: Some(30),
            image: None,
            command: None,
            env: Some(vec![EnvVar { name: "A".to_string(), value: "1".to_string() }]),
            mount_points: Some(vec![MountPoint { volume_size: 10, target: "/data".to_string() }]),
        }),
        singleton: None,
        hub: "h".to_string(),
        urn: "urn:s".to_string(),
        created_at: ts(0),
        updated_at: ts(0),
    };
    assert_eq!(service.clone(), service);
}

#[test]
fn hubs_and_zones_hold_their_fields() {
    let hub = Hub {
        name: "h".to_string(),
        title: "H".to_string(),
        fqdn: "hub.example.com".to_string(),
        server_port: Some(443),
        server_cert: "cert".to_string(),
        server_cert_key: "key".to_string(),
        description: None,
        realm: None,
        urn: None,
        attributes: serde_json::Value::Null,
        created_at: ts(5),
        updated_at: ts(6),
    };
    assert_eq!(hub.server_port, Some(443));
    let zone = Zone {
        name: "z".to_string(),
        title: "Z".to_string(),
        description: None,
        urn: None,
        dns_provider: None,
        realm: None,
        acme_certificate_provider: None,
        created_at: ts(1),
        updated_at: ts(1),
    };
    assert_eq!(zone.clone(), zone);
    assert_eq!(Timestamp { secs: 1, nanos: 5 }, Timestamp { secs: 1, nanos: 5 });
}
