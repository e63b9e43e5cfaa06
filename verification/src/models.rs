//! The records the application stores: brokers, subscriptions, message
//! history, command templates, scripts and environment variables, and the
//! requests that create or change them.
use vstd::prelude::*;

verus! {

/// A copy of an optional string equal to it.
pub fn copy_opt(o: &Option<String>) -> (r: Option<String>)
    ensures
        r == *o,
{
    match o {
        Some(s) => Some(s.clone()),
        None => None,
    }
}

/// A broker the user connects to.
#[derive(Debug)]
pub struct MqttServer {
    pub id: Option<i64>,
    pub name: String,
    pub host: String,
    pub port: i32,
    pub protocol: Option<String>,
    pub websocket_path: Option<String>,
    pub protocol_version: String,
    pub username: Option<String>,
    pub password: Option<String>,
    pub client_id: Option<String>,
    pub keep_alive: i32,
    pub clean_session: bool,
    pub use_tls: bool,
    pub ssl_secure: bool,
    pub alpn: Option<String>,
    pub certificate_type: String,
    pub ca_cert: Option<String>,
    pub client_cert: Option<String>,
    pub client_key: Option<String>,
    pub client_key_password: Option<String>,
    pub created_at: Option<String>,
    pub updated_at: Option<String>,
}

impl MqttServer {
    pub fn duplicate(&self) -> (r: MqttServer)
        ensures
            r == *self,
    {
        MqttServer {
            id: self.id,
            name: self.name.clone(),
            host: self.host.clone(),
            port: self.port,
            protocol: copy_opt(&self.protocol),
            websocket_path: copy_opt(&self.websocket_path),
            protocol_version: self.protocol_version.clone(),
            username: copy_opt(&self.username),
            password: copy_opt(&self.password),
            client_id: copy_opt(&self.client_id),
            keep_alive: self.keep_alive,
            clean_session: self.clean_session,
            use_tls: self.use_tls,
            ssl_secure: self.ssl_secure,
            alpn: copy_opt(&self.alpn),
            certificate_type: self.certificate_type.clone(),
            ca_cert: copy_opt(&self.ca_cert),
            client_cert: copy_opt(&self.client_cert),
            client_key: copy_opt(&self.client_key),
            client_key_password: copy_opt(&self.client_key_password),
            created_at: copy_opt(&self.created_at),
            updated_at: copy_opt(&self.updated_at),
        }
    }
}

/// A topic subscription of a broker; `is_active` is the user's intent.
#[derive(Debug)]
pub struct Subscription {
    pub id: Option<i64>,
    pub server_id: i64,
    pub topic: String,
    pub qos: i32,
    pub is_active: bool,
    pub color: Option<String>,
    pub created_at: Option<String>,
}

impl Subscription {
    pub fn duplicate(&self) -> (r: Subscription)
        ensures
            r == *self,
    {
        Subscription {
            id: self.id,
            server_id: self.server_id,
            topic: self.topic.clone(),
            qos: self.qos,
            is_active: self.is_active,
            color: copy_opt(&self.color),
            created_at: copy_opt(&self.created_at),
        }
    }
}

/// A published or received message kept in the history.
#[derive(Debug)]
pub struct MessageHistory {
    pub id: Option<i64>,
    pub server_id: i64,
    pub topic: String,
    pub payload: Option<String>,
    pub payload_format: Option<String>,
    pub direction: String,
    pub qos: i32,
    pub retain: bool,
    pub created_at: Option<String>,
    pub operation_id: Option<String>,
    pub publish_status: Option<String>,
    pub packet_id: Option<u16>,
    pub publish_error: Option<String>,
    pub sent_at: Option<String>,
    pub confirmed_at: Option<String>,
}

impl MessageHistory {
    pub fn duplicate(&self) -> (r: MessageHistory)
        ensures
            r == *self,
    {
        MessageHistory {
            id: self.id,
            server_id: self.server_id,
            topic: self.topic.clone(),
            payload: copy_opt(&self.payload),
            payload_format: copy_opt(&self.payload_format),
            direction: self.direction.clone(),
            qos: self.qos,
            retain: self.retain,
            created_at: copy_opt(&self.created_at),
            operation_id: copy_opt(&self.operation_id),
            publish_status: copy_opt(&self.publish_status),
            packet_id: self.packet_id,
            publish_error: copy_opt(&self.publish_error),
            sent_at: copy_opt(&self.sent_at),
            confirmed_at: copy_opt(&self.confirmed_at),
        }
    }
}

/// A reusable publish command.
#[derive(Debug)]
pub struct CommandTemplate {
    pub id: Option<i64>,
    pub server_id: i64,
    pub name: String,
    pub topic: String,
    pub payload: String,
    pub payload_type: String,
    pub qos: i32,
    pub retain: bool,
    pub description: Option<String>,
    pub category: Option<String>,
    pub use_count: i64,
    pub last_used_at: Option<String>,
    pub created_at: Option<String>,
    pub updated_at: Option<String>,
}

impl CommandTemplate {
    pub fn duplicate(&self) -> (r: CommandTemplate)
        ensures
            r == *self,
    {
        CommandTemplate {
            id: self.id,
            server_id: self.server_id,
            name: self.name.clone(),
            topic: self.topic.clone(),
            payload: self.payload.clone(),
            payload_type: self.payload_type.clone(),
            qos: self.qos,
            retain: self.retain,
            description: copy_opt(&self.description),
            category: copy_opt(&self.category),
            use_count: self.use_count,
            last_used_at: copy_opt(&self.last_used_at),
            created_at: copy_opt(&self.created_at),
            updated_at: copy_opt(&self.updated_at),
        }
    }
}

/// A user script run on messages of a broker.
#[derive(Debug)]
pub struct Script {
    pub id: Option<i64>,
    pub server_id: i64,
    pub name: String,
    pub script_type: String,
    pub code: String,
    pub enabled: bool,
    pub description: Option<String>,
    pub created_at: Option<String>,
    pub updated_at: Option<String>,
}

impl Script {
    pub fn duplicate(&self) -> (r: Script)
        ensures
            r == *self,
    {
        Script {
            id: self.id,
            server_id: self.server_id,
            name: self.name.clone(),
            script_type: self.script_type.clone(),
            code: self.code.clone(),
            enabled: self.enabled,
            description: copy_opt(&self.description),
            created_at: copy_opt(&self.created_at),
            updated_at: copy_opt(&self.updated_at),
        }
    }
}

/// A named value available to templates and scripts of a broker.
#[derive(Debug)]
pub struct EnvVariable {
    pub id: Option<i64>,
    pub server_id: i64,
    pub name: String,
    pub value: String,
    pub description: Option<String>,
    pub created_at: Option<String>,
    pub updated_at: Option<String>,
}

impl EnvVariable {
    pub fn duplicate(&self) -> (r: EnvVariable)
        ensures
            r == *self,
    {
        EnvVariable {
            id: self.id,
            server_id: self.server_id,
            name: self.name.clone(),
            value: self.value.clone(),
            description: copy_opt(&self.description),
            created_at: copy_opt(&self.created_at),
            updated_at: copy_opt(&self.updated_at),
        }
    }
}

#[derive(Debug)]
pub struct CreateTemplateRequest {
    pub server_id: i64,
    pub name: String,
    pub topic: String,
    pub payload: String,
    pub payload_type: String,
    pub qos: i32,
    pub retain: bool,
    pub description: Option<String>,
    pub category: Option<String>,
}

#[derive(Debug)]
pub struct UpdateTemplateRequest {
    pub id: i64,
    pub name: Option<String>,
    pub topic: Option<String>,
    pub payload: Option<String>,
    pub payload_type: Option<String>,
    pub qos: Option<i32>,
    pub retain: Option<bool>,
    pub description: Option<String>,
    pub category: Option<String>,
}

#[derive(Debug)]
pub struct CreateScriptRequest {
    pub server_id: i64,
    pub name: String,
    pub script_type: String,
    pub code: String,
    pub enabled: bool,
    pub description: Option<String>,
}

#[derive(Debug)]
pub struct UpdateScriptRequest {
    pub id: i64,
    pub name: Option<String>,
    pub code: Option<String>,
    pub enabled: Option<bool>,
    pub description: Option<String>,
}

#[derive(Debug)]
pub struct CreateEnvVariableRequest {
    pub server_id: i64,
    pub name: String,
    pub value: String,
    pub description: Option<String>,
}

#[derive(Debug)]
pub struct UpdateEnvVariableRequest {
    pub id: i64,
    pub name: Option<String>,
    pub value: Option<String>,
    pub description: Option<String>,
}

#[derive(Debug)]
pub struct UpdateSubscriptionRequest {
    pub id: i64,
    pub topic: Option<String>,
    pub qos: Option<i32>,
    pub color: Option<String>,
}

/// How many history rows a cleanup removed, and whether it compacted the database.
#[derive(Debug, Clone, Copy, PartialEq, Eq, Structural)]
pub struct MessageCleanupResult {
    pub deleted_by_age: usize,
    pub deleted_by_count: usize,
    pub vacuumed: bool,
}

/// A publish requested by the user interface.
#[derive(Debug)]
pub struct PublishPayload {
    pub operation_id: String,
    pub topic: String,
    pub payload: String,
    pub payload_bytes: Vec<u8>,
    pub format: String,
    pub qos: i32,
    pub retain: bool,
}

} // verus!
