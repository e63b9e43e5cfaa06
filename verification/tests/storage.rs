use mini_mqtt_client::models::{
    CreateEnvVariableRequest, CreateScriptRequest, CreateTemplateRequest, MqttServer, Subscription,
    UpdateEnvVariableRequest, UpdateScriptRequest, UpdateSubscriptionRequest, UpdateTemplateRequest,
};
use mini_mqtt_client::storage::{
    sanitize_message_limit, sanitize_message_retention_count, sanitize_message_retention_days,
    sanitize_mqtt_packet_size_limit_kb, AppConfig, AppData,
};

fn broker(name: &str) -> MqttServer {
    MqttServer {
        id: None,
        name: name.to_string(),
        host: "localhost".to_string(),
        port: 1883,
        protocol: None,
        websocket_path: None,
        protocol_version: "3.1.1".to_string(),
        username: None,
        password: None,
        client_id: None,
        keep_alive: 60,
        clean_session: true,
        use_tls: false,
        ssl_secure: true,
        alpn: None,
        certificate_type: "ca_signed".to_string(),
        ca_cert: None,
        client_cert: None,
        client_key: None,
        client_key_password: None,
        created_at: None,
        updated_at: None,
    }
}

fn template(server_id: i64, name: &str, category: Option<&str>) -> CreateTemplateRequest {
    CreateTemplateRequest {
        server_id,
        name: name.to_string(),
        topic: "t".to_string(),
        payload: "{}".to_string(),
        payload_type: "json".to_string(),
        qos: 1,
        retain: false,
        description: None,
        category: category.map(str::to_string),
    }
}

#[test]
fn brokers_get_increasing_ids_and_are_read_back() {
    let mut data = AppData::new();
    let a = data.create_server_at(broker("a"), "t0".to_string());
    let b = data.create_server_at(broker("b"), "t1".to_string());
    assert_eq!((a, b), (1, 2));
    let stored = data.get_server(2).unwrap();
    assert_eq!(stored.name, "b");
    assert_eq!(stored.id, Some(2));
    assert_eq!(stored.created_at.as_deref(), Some("t1"));
    assert_eq!(stored.updated_at.as_deref(), Some("t1"));
    assert!(data.get_server(3).is_none());
    assert_eq!(data.get_servers().len(), 2);

    let mut changed = stored;
    changed.name = "renamed".to_string();
    data.update_server_at(changed, "t2".to_string());
    let again = data.get_server(2).unwrap();
    assert_eq!(again.name, "renamed");
    assert_eq!(again.updated_at.as_deref(), Some("t2"));
    let c = data.create_server(broker("c"));
    assert_eq!(c, 3);
    assert!(data.get_server(3).unwrap().created_at.is_some());
}

#[test]
fn deleting_a_broker_removes_what_belongs_to_it() {
    let mut data = AppData::new();
    let a = data.create_server_at(broker("a"), "t".to_string());
    let b = data.create_server_at(broker("b"), "t".to_string());
    for (server_id, topic) in [(a, "x"), (b, "y"), (a, "z")] {
        data.create_subscription_at(
            Subscription {
                id: None,
                server_id,
                topic: topic.to_string(),
                qos: 0,
                is_active: true,
                color: None,
                created_at: None,
            },
            "t".to_string(),
        );
    }
    data.create_template_at(template(a, "ta", None), "t".to_string());
    data.create_template_at(template(b, "tb", None), "t".to_string());
    data.delete_server(a);
    assert!(data.get_server(a).is_none());
    assert_eq!(data.get_servers().len(), 1);
    assert!(data.get_subscriptions(a).is_empty());
    assert_eq!(data.get_subscriptions(b).len(), 1);
    assert_eq!(data.templates.len(), 1);
    assert_eq!(data.templates[0].server_id, b);
}

#[test]
fn subscriptions_are_updated_in_place() {
    let mut data = AppData::new();
    let created = data.create_subscription_at(
        Subscription {
            id: None,
            server_id: 1,
            topic: "a".to_string(),
            qos: 0,
            is_active: true,
            color: Some("red".to_string()),
            created_at: None,
        },
        "t".to_string(),
    );
    assert_eq!(created.id, Some(1));
    assert_eq!(created.created_at.as_deref(), Some("t"));
    data.update_subscription_status(1, false);
    assert!(!data.get_subscriptions(1)[0].is_active);
    let updated = data
        .update_subscription(UpdateSubscriptionRequest {
            id: 1,
            topic: None,
            qos: Some(2),
            color: None,
        })
        .unwrap();
    assert_eq!(updated.topic, "a");
    assert_eq!(updated.qos, 2);
    assert_eq!(updated.color, None);
    assert_eq!(
        data.update_subscription(UpdateSubscriptionRequest {
            id: 9,
            topic: None,
            qos: None,
            color: None
        })
        .unwrap_err(),
        "Subscription not found"
    );
    data.delete_subscription(1);
    assert!(data.get_subscriptions(1).is_empty());
}

#[test]
fn templates_are_shown_with_global_ones_and_counted() {
    let mut data = AppData::new();
    data.create_template_at(template(1, "own", Some("net")), "t".to_string());
    data.create_template_at(template(0, "global", Some("alpha")), "t".to_string());
    data.create_template_at(template(2, "other", Some("zeta")), "t".to_string());
    data.create_template_at(template(1, "dup", Some("net")), "t".to_string());
    data.create_template_at(template(1, "none", None), "t".to_string());
    let shown: Vec<String> = data.get_templates(1).into_iter().map(|t| t.name).collect();
    assert_eq!(shown, vec!["own", "global", "dup", "none"]);
    assert_eq!(data.get_template_categories(1), vec!["alpha".to_string(), "net".to_string()]);
    assert_eq!(data.get_template_categories(2), vec!["alpha".to_string(), "zeta".to_string()]);

    data.increment_template_use_count_at(1, "u1".to_string());
    data.increment_template_use_count_at(1, "u2".to_string());
    let t = data.get_template(1).unwrap();
    assert_eq!(t.use_count, 2);
    assert_eq!(t.last_used_at.as_deref(), Some("u2"));

    data.update_template_at(
        UpdateTemplateRequest {
            id: 2,
            name: Some("renamed".to_string()),
            topic: None,
            payload: None,
            payload_type: None,
            qos: Some(0),
            retain: None,
            description: Some("d".to_string()),
            category: None,
        },
        "u3".to_string(),
    );
    let t = data.get_template(2).unwrap();
    assert_eq!(t.name, "renamed");
    assert_eq!(t.qos, 0);
    assert_eq!(t.description.as_deref(), Some("d"));
    assert_eq!(t.category.as_deref(), Some("alpha"));
    assert_eq!(t.updated_at.as_deref(), Some("u3"));
    data.delete_template(2);
    assert!(data.get_template(2).is_none());
}

#[test]
fn categories_are_sorted_by_code_point() {
    let mut data = AppData::new();
    for c in ["b", "B", "ab", "a", "é", "b"] {
        data.create_template_at(template(1, c, Some(c)), "t".to_string());
    }
    let mut expected: Vec<String> = ["b", "B", "ab", "a", "é"].iter().map(|s| s.to_string()).collect();
    expected.sort();
    expected.dedup();
    assert_eq!(data.get_template_categories(1), expected);
}

#[test]
fn scripts_are_filtered_and_toggled() {
    let mut data = AppData::new();
    for (name, kind, enabled) in [("a", "receive", true), ("b", "send", true), ("c", "receive", false)] {
        data.create_script_at(
            CreateScriptRequest {
                server_id: 4,
                name: name.to_string(),
                script_type: kind.to_string(),
                code: "x".to_string(),
                enabled,
                description: None,
            },
            "t".to_string(),
        );
    }
    let names = |v: Vec<mini_mqtt_client::models::Script>| v.into_iter().map(|s| s.name).collect::<Vec<_>>();
    assert_eq!(names(data.get_enabled_scripts(4, "receive")), vec!["a"]);
    data.toggle_script_at(3, true, "t2".to_string());
    assert_eq!(names(data.get_enabled_scripts(4, "receive")), vec!["a", "c"]);
    data.update_script_at(
        UpdateScriptRequest { id: 1, name: None, code: Some("y".to_string()), enabled: Some(false), description: None },
        "t3".to_string(),
    );
    assert_eq!(names(data.get_enabled_scripts(4, "receive")), vec!["c"]);
    assert_eq!(data.get_script(1).unwrap().code, "y");
    assert_eq!(data.get_scripts(4).len(), 3);
    data.delete_script(1);
    assert_eq!(data.get_scripts(4).len(), 2);
}

#[test]
fn variable_names_are_unique_per_broker() {
    let mut data = AppData::new();
    let req = |server_id: i64, name: &str| CreateEnvVariableRequest {
        server_id,
        name: name.to_string(),
        value: "v".to_string(),
        description: None,
    };
    assert_eq!(data.create_env_variable_at(req(1, "HOST"), "t".to_string()), Ok(1));
    assert_eq!(data.create_env_variable_at(req(2, "HOST"), "t".to_string()), Ok(2));
    assert_eq!(
        data.create_env_variable_at(req(1, "HOST"), "t".to_string()),
        Err("Variable name already exists".to_string())
    );
    assert_eq!(data.create_env_variable_at(req(1, "PORT"), "t".to_string()), Ok(3));
    let rename = |id: i64, name: &str| UpdateEnvVariableRequest {
        id,
        name: Some(name.to_string()),
        value: None,
        description: None,
    };
    assert_eq!(
        data.update_env_variable_at(rename(3, "HOST"), "t".to_string()),
        Err("Variable name already exists".to_string())
    );
    assert_eq!(data.update_env_variable_at(rename(3, "PORT"), "t".to_string()), Ok(()));
    assert_eq!(data.update_env_variable_at(rename(3, "URL"), "t2".to_string()), Ok(()));
    let v = data.get_env_variable(3).unwrap();
    assert_eq!(v.name, "URL");
    assert_eq!(v.updated_at.as_deref(), Some("t2"));
    assert_eq!(data.update_env_variable_at(rename(99, "HOST"), "t".to_string()), Ok(()));
    assert_eq!(data.get_env_variables(1).len(), 2);
    data.delete_env_variable(3);
    assert_eq!(data.get_env_variables(1).len(), 1);
}

#[test]
fn settings_are_kept_in_range() {
    assert_eq!(sanitize_message_limit(None), 1000);
    assert_eq!(sanitize_message_limit(Some(5)), 100);
    assert_eq!(sanitize_message_limit(Some(50_000)), 10_000);
    assert_eq!(sanitize_mqtt_packet_size_limit_kb(Some(0)), 10);
    assert_eq!(sanitize_message_retention_days(Some(0)), 1);
    assert_eq!(sanitize_message_retention_count(Some(1)), 1000);

    let mut config = AppConfig::default();
    assert_eq!(config.get_message_limit(), 1000);
    assert_eq!(config.get_mqtt_packet_size_limit_kb(), 1024);
    assert_eq!(config.get_mqtt_packet_size_limit_bytes(), 1024 * 1024);
    assert_eq!(config.get_message_retention_days(), 30);
    assert_eq!(config.get_message_retention_count(), 100_000);
    config.set_message_limit(20_000);
    assert_eq!(config.message_limit, Some(10_000));
    config.set_mqtt_packet_size_limit_kb(64);
    assert_eq!(config.get_mqtt_packet_size_limit_bytes(), 65_536);
    config.set_message_cleanup_policy(10_000, 5);
    assert_eq!(config.message_retention_days, Some(3650));
    assert_eq!(config.message_retention_count, Some(1000));
    config.set_data_path("/data/x.yaml".to_string());
    assert_eq!(config.data_path.as_deref(), Some("/data/x.yaml"));
}

#[test]
fn default_data_is_empty_and_counts_from_one() {
    let mut data = AppData::default();
    assert!(data.get_servers().is_empty());
    assert!(data.get_templates(0).is_empty());
    assert!(data.get_template_categories(0).is_empty());
    assert_eq!(data.create_server_at(broker("first"), "t".to_string()), 1);
}
