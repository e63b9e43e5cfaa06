//! The application's stored data and settings, kept in memory: brokers,
//! subscriptions, templates, scripts and environment variables with their ID
//! counters, and the settings with their allowed ranges. Persisting them is
//! the caller's part.
use vstd::prelude::*;
use crate::keyed::lemma_filter_take_step;
use crate::models::{
    CommandTemplate, CreateEnvVariableRequest, CreateScriptRequest, CreateTemplateRequest, EnvVariable,
    MessageHistory, MqttServer, Script, Subscription, UpdateEnvVariableRequest, UpdateScriptRequest,
    UpdateSubscriptionRequest, UpdateTemplateRequest,
};
use crate::records::{
    copy_all, copy_not_of_server, copy_of_server, copy_without_id, find_first, first_with_id, get_first,
    lemma_first_with_id,
    not_of_server, of_server, without_id, Identified,
};
use crate::stamps::now_rfc3339;
use crate::text::{holds_text, insert_sorted_unique, opt_view, str_equals, string_equals, strictly_sorted};

verus! {

pub const DEFAULT_MESSAGE_LIMIT: usize = 1000;
pub const MIN_MESSAGE_LIMIT: usize = 100;
pub const MAX_MESSAGE_LIMIT: usize = 10000;
pub const DEFAULT_MQTT_PACKET_SIZE_LIMIT_KB: usize = 1024;
pub const MIN_MQTT_PACKET_SIZE_LIMIT_KB: usize = 10;
pub const MAX_MQTT_PACKET_SIZE_LIMIT_KB: usize = 102400;
pub const DEFAULT_MESSAGE_RETENTION_DAYS: u32 = 30;
pub const MIN_MESSAGE_RETENTION_DAYS: u32 = 1;
pub const MAX_MESSAGE_RETENTION_DAYS: u32 = 3650;
pub const DEFAULT_MESSAGE_RETENTION_COUNT: usize = 100000;
pub const MIN_MESSAGE_RETENTION_COUNT: usize = 1000;
pub const MAX_MESSAGE_RETENTION_COUNT: usize = 10000000;

/// `value` (or `default` when absent) brought into `[min, max]`.
pub open spec fn clamp_setting(value: Option<int>, default: int, min: int, max: int) -> int {
    let v = match value {
        Some(v) => v,
        None => default,
    };
    if v < min {
        min
    } else if v > max {
        max
    } else {
        v
    }
}

pub open spec fn opt_int_usize(o: Option<usize>) -> Option<int> {
    match o {
        Some(v) => Some(v as int),
        None => None,
    }
}

pub open spec fn opt_int_u32(o: Option<u32>) -> Option<int> {
    match o {
        Some(v) => Some(v as int),
        None => None,
    }
}

pub fn sanitize_message_limit(limit: Option<usize>) -> (r: usize)
    ensures
        r == clamp_setting(opt_int_usize(limit), DEFAULT_MESSAGE_LIMIT as int, MIN_MESSAGE_LIMIT as int, MAX_MESSAGE_LIMIT as int),
{
    let v = match limit {
        Some(v) => v,
        None => DEFAULT_MESSAGE_LIMIT,
    };
    if v < MIN_MESSAGE_LIMIT {
        MIN_MESSAGE_LIMIT
    } else if v > MAX_MESSAGE_LIMIT {
        MAX_MESSAGE_LIMIT
    } else {
        v
    }
}

pub fn sanitize_mqtt_packet_size_limit_kb(limit: Option<usize>) -> (r: usize)
    ensures
        r == clamp_setting(
            opt_int_usize(limit),
            DEFAULT_MQTT_PACKET_SIZE_LIMIT_KB as int,
            MIN_MQTT_PACKET_SIZE_LIMIT_KB as int,
            MAX_MQTT_PACKET_SIZE_LIMIT_KB as int,
        ),
{
    let v = match limit {
        Some(v) => v,
        None => DEFAULT_MQTT_PACKET_SIZE_LIMIT_KB,
    };
    if v < MIN_MQTT_PACKET_SIZE_LIMIT_KB {
        MIN_MQTT_PACKET_SIZE_LIMIT_KB
    } else if v > MAX_MQTT_PACKET_SIZE_LIMIT_KB {
        MAX_MQTT_PACKET_SIZE_LIMIT_KB
    } else {
        v
    }
}

pub fn sanitize_message_retention_days(limit: Option<u32>) -> (r: u32)
    ensures
        r == clamp_setting(
            opt_int_u32(limit),
            DEFAULT_MESSAGE_RETENTION_DAYS as int,
            MIN_MESSAGE_RETENTION_DAYS as int,
            MAX_MESSAGE_RETENTION_DAYS as int,
        ),
{
    let v = match limit {
        Some(v) => v,
        None => DEFAULT_MESSAGE_RETENTION_DAYS,
    };
    if v < MIN_MESSAGE_RETENTION_DAYS {
        MIN_MESSAGE_RETENTION_DAYS
    } else if v > MAX_MESSAGE_RETENTION_DAYS {
        MAX_MESSAGE_RETENTION_DAYS
    } else {
        v
    }
}

pub fn sanitize_message_retention_count(limit: Option<usize>) -> (r: usize)
    ensures
        r == clamp_setting(
            opt_int_usize(limit),
            DEFAULT_MESSAGE_RETENTION_COUNT as int,
            MIN_MESSAGE_RETENTION_COUNT as int,
            MAX_MESSAGE_RETENTION_COUNT as int,
        ),
{
    let v = match limit {
        Some(v) => v,
        None => DEFAULT_MESSAGE_RETENTION_COUNT,
    };
    if v < MIN_MESSAGE_RETENTION_COUNT {
        MIN_MESSAGE_RETENTION_COUNT
    } else if v > MAX_MESSAGE_RETENTION_COUNT {
        MAX_MESSAGE_RETENTION_COUNT
    } else {
        v
    }
}

/// A sanitized setting lies in its range, and a value already in range is kept.
pub proof fn law_sanitized_setting_in_range(value: Option<int>, default: int, min: int, max: int)
    requires
        min <= default <= max,
    ensures
        min <= clamp_setting(value, default, min, max) <= max,
        forall|v: int| value == Some(v) && min <= v <= max ==> clamp_setting(value, default, min, max) == v,
        value is None ==> clamp_setting(value, default, min, max) == default,
        clamp_setting(Some(clamp_setting(value, default, min, max)), default, min, max) == clamp_setting(
            value,
            default,
            min,
            max,
        ),
{
}

/// Application settings; absent values take their defaults.
#[derive(Debug)]
pub struct AppConfig {
    pub data_path: Option<String>,
    pub message_limit: Option<usize>,
    pub mqtt_packet_size_limit_kb: Option<usize>,
    pub message_retention_days: Option<u32>,
    pub message_retention_count: Option<usize>,
}

impl Default for AppConfig {
    fn default() -> (r: AppConfig)
        ensures
            r == (AppConfig {
                data_path: None,
                message_limit: None,
                mqtt_packet_size_limit_kb: None,
                message_retention_days: None,
                message_retention_count: None,
            }),
    {
        AppConfig {
            data_path: None,
            message_limit: None,
            mqtt_packet_size_limit_kb: None,
            message_retention_days: None,
            message_retention_count: None,
        }
    }
}

impl AppConfig {
    /// The number of messages kept in view, within its allowed range.
    pub fn get_message_limit(&self) -> (r: usize)
        ensures
            r == clamp_setting(opt_int_usize(self.message_limit), DEFAULT_MESSAGE_LIMIT as int, MIN_MESSAGE_LIMIT as int, MAX_MESSAGE_LIMIT as int),
    {
        sanitize_message_limit(self.message_limit)
    }

    /// Stores the message limit, brought into its allowed range.
    pub fn set_message_limit(&mut self, limit: usize)
        ensures
            *final(self) == (AppConfig {
                message_limit: Some(
                    clamp_setting(Some(limit as int), DEFAULT_MESSAGE_LIMIT as int, MIN_MESSAGE_LIMIT as int, MAX_MESSAGE_LIMIT as int) as usize,
                ),
                ..*old(self)
            }),
    {
        self.message_limit = Some(sanitize_message_limit(Some(limit)));
    }

    /// The largest MQTT packet accepted, in KiB, within its allowed range.
    pub fn get_mqtt_packet_size_limit_kb(&self) -> (r: usize)
        ensures
            r == clamp_setting(
                opt_int_usize(self.mqtt_packet_size_limit_kb),
                DEFAULT_MQTT_PACKET_SIZE_LIMIT_KB as int,
                MIN_MQTT_PACKET_SIZE_LIMIT_KB as int,
                MAX_MQTT_PACKET_SIZE_LIMIT_KB as int,
            ),
    {
        sanitize_mqtt_packet_size_limit_kb(self.mqtt_packet_size_limit_kb)
    }

    /// The largest MQTT packet accepted, in bytes.
    pub fn get_mqtt_packet_size_limit_bytes(&self) -> (r: usize)
        ensures
            r == 1024 * clamp_setting(
                opt_int_usize(self.mqtt_packet_size_limit_kb),
                DEFAULT_MQTT_PACKET_SIZE_LIMIT_KB as int,
                MIN_MQTT_PACKET_SIZE_LIMIT_KB as int,
                MAX_MQTT_PACKET_SIZE_LIMIT_KB as int,
            ),
    {
        let kb = self.get_mqtt_packet_size_limit_kb();
        kb * 1024
    }

    /// Stores the packet size limit in KiB, brought into its allowed range.
    pub fn set_mqtt_packet_size_limit_kb(&mut self, limit: usize)
        ensures
            *final(self) == (AppConfig {
                mqtt_packet_size_limit_kb: Some(
                    clamp_setting(
                        Some(limit as int),
                        DEFAULT_MQTT_PACKET_SIZE_LIMIT_KB as int,
                        MIN_MQTT_PACKET_SIZE_LIMIT_KB as int,
                        MAX_MQTT_PACKET_SIZE_LIMIT_KB as int,
                    ) as usize,
                ),
                ..*old(self)
            }),
    {
        self.mqtt_packet_size_limit_kb = Some(sanitize_mqtt_packet_size_limit_kb(Some(limit)));
    }

    /// How many days of history are kept, within its allowed range.
    pub fn get_message_retention_days(&self) -> (r: u32)
        ensures
            r == clamp_setting(
                opt_int_u32(self.message_retention_days),
                DEFAULT_MESSAGE_RETENTION_DAYS as int,
                MIN_MESSAGE_RETENTION_DAYS as int,
                MAX_MESSAGE_RETENTION_DAYS as int,
            ),
    {
        sanitize_message_retention_days(self.message_retention_days)
    }

    /// How many history rows are kept per broker, within its allowed range.
    pub fn get_message_retention_count(&self) -> (r: usize)
        ensures
            r == clamp_setting(
                opt_int_usize(self.message_retention_count),
                DEFAULT_MESSAGE_RETENTION_COUNT as int,
                MIN_MESSAGE_RETENTION_COUNT as int,
                MAX_MESSAGE_RETENTION_COUNT as int,
            ),
    {
        sanitize_message_retention_count(self.message_retention_count)
    }

    /// Stores the history retention, each value brought into its allowed range.
    pub fn set_message_cleanup_policy(&mut self, retention_days: u32, retention_count: usize)
        ensures
            *final(self) == (AppConfig {
                message_retention_days: Some(
                    clamp_setting(
                        Some(retention_days as int),
                        DEFAULT_MESSAGE_RETENTION_DAYS as int,
                        MIN_MESSAGE_RETENTION_DAYS as int,
                        MAX_MESSAGE_RETENTION_DAYS as int,
                    ) as u32,
                ),
                message_retention_count: Some(
                    clamp_setting(
                        Some(retention_count as int),
                        DEFAULT_MESSAGE_RETENTION_COUNT as int,
                        MIN_MESSAGE_RETENTION_COUNT as int,
                        MAX_MESSAGE_RETENTION_COUNT as int,
                    ) as usize,
                ),
                ..*old(self)
            }),
    {
        self.message_retention_days = Some(sanitize_message_retention_days(Some(retention_days)));
        self.message_retention_count = Some(sanitize_message_retention_count(Some(retention_count)));
    }

    /// Stores the path of the data file to use from the next start on.
    pub fn set_data_path(&mut self, path: String)
        ensures
            *final(self) == (AppConfig { data_path: Some(path), ..*old(self) }),
    {
        self.data_path = Some(path);
    }
}

/// `CommandTemplate::server_id` of templates shown for every broker.
pub const GLOBAL_TEMPLATE_SERVER_ID: i64 = 0;

/// Everything the application stores besides the message history.
#[derive(Debug)]
pub struct AppData {
    pub servers: Vec<MqttServer>,
    pub subscriptions: Vec<Subscription>,
    /// Messages of data files written before the history moved to its own database.
    pub messages: Vec<MessageHistory>,
    pub templates: Vec<CommandTemplate>,
    pub scripts: Vec<Script>,
    pub env_variables: Vec<EnvVariable>,
    pub next_server_id: i64,
    pub next_subscription_id: i64,
    pub next_message_id: i64,
    pub next_template_id: i64,
    pub next_script_id: i64,
    pub next_env_variable_id: i64,
}

/// `s` with the record at the first position of ID `id` replaced by `f` of it.
pub open spec fn replace_first<T: Identified>(s: Seq<T>, id: Option<i64>, new: T) -> Seq<T> {
    match first_with_id(s, id) {
        Some(i) => s.update(i, new),
        None => s,
    }
}

/// The template after an update request.
pub open spec fn updated_template(t: CommandTemplate, req: UpdateTemplateRequest, now: String) -> CommandTemplate {
    CommandTemplate {
        name: match req.name { Some(v) => v, None => t.name },
        topic: match req.topic { Some(v) => v, None => t.topic },
        payload: match req.payload { Some(v) => v, None => t.payload },
        payload_type: match req.payload_type { Some(v) => v, None => t.payload_type },
        qos: match req.qos { Some(v) => v, None => t.qos },
        retain: match req.retain { Some(v) => v, None => t.retain },
        description: match req.description { Some(v) => Some(v), None => t.description },
        category: match req.category { Some(v) => Some(v), None => t.category },
        updated_at: Some(now),
        ..t
    }
}

/// The script after an update request.
pub open spec fn updated_script(t: Script, req: UpdateScriptRequest, now: String) -> Script {
    Script {
        name: match req.name { Some(v) => v, None => t.name },
        code: match req.code { Some(v) => v, None => t.code },
        enabled: match req.enabled { Some(v) => v, None => t.enabled },
        description: match req.description { Some(v) => Some(v), None => t.description },
        updated_at: Some(now),
        ..t
    }
}

/// The environment variable after an update request.
pub open spec fn updated_env_variable(t: EnvVariable, req: UpdateEnvVariableRequest, now: String) -> EnvVariable {
    EnvVariable {
        name: match req.name { Some(v) => v, None => t.name },
        value: match req.value { Some(v) => v, None => t.value },
        description: match req.description { Some(v) => Some(v), None => t.description },
        updated_at: Some(now),
        ..t
    }
}

/// The subscription after an update request; the colour is always replaced.
pub open spec fn updated_subscription(t: Subscription, req: UpdateSubscriptionRequest) -> Subscription {
    Subscription {
        topic: match req.topic { Some(v) => v, None => t.topic },
        qos: match req.qos { Some(v) => v, None => t.qos },
        color: req.color,
        ..t
    }
}

/// An update request sets each field of a template that it gives, keeps
/// each field that it does not give, keeps the template's identity, owner,
/// use count and creation time, and stamps the update time.
pub proof fn law_template_update_sets_given_fields(t: CommandTemplate, req: UpdateTemplateRequest, now: String, u: CommandTemplate)
    requires
        u == updated_template(t, req, now),
    ensures
        req.name matches Some(x) ==> u.name == x,
        req.name is None ==> u.name == t.name,
        req.topic matches Some(x) ==> u.topic == x,
        req.topic is None ==> u.topic == t.topic,
        req.payload matches Some(x) ==> u.payload == x,
        req.payload is None ==> u.payload == t.payload,
        req.payload_type matches Some(x) ==> u.payload_type == x,
        req.payload_type is None ==> u.payload_type == t.payload_type,
        req.qos matches Some(x) ==> u.qos == x,
        req.qos is None ==> u.qos == t.qos,
        req.retain matches Some(x) ==> u.retain == x,
        req.retain is None ==> u.retain == t.retain,
        req.description matches Some(x) ==> u.description == Some(x),
        req.description is None ==> u.description == t.description,
        req.category matches Some(x) ==> u.category == Some(x),
        req.category is None ==> u.category == t.category,
        u.id == t.id,
        u.server_id == t.server_id,
        u.use_count == t.use_count,
        u.last_used_at == t.last_used_at,
        u.created_at == t.created_at,
        u.updated_at == Some(now),
{
}

/// An update request sets each field of a script that it gives, keeps each
/// field that it does not give, keeps the script's identity, owner, type and
/// creation time, and stamps the update time.
pub proof fn law_script_update_sets_given_fields(t: Script, req: UpdateScriptRequest, now: String, u: Script)
    requires
        u == updated_script(t, req, now),
    ensures
        req.name matches Some(x) ==> u.name == x,
        req.name is None ==> u.name == t.name,
        req.code matches Some(x) ==> u.code == x,
        req.code is None ==> u.code == t.code,
        req.enabled matches Some(x) ==> u.enabled == x,
        req.enabled is None ==> u.enabled == t.enabled,
        req.description matches Some(x) ==> u.description == Some(x),
        req.description is None ==> u.description == t.description,
        u.id == t.id,
        u.server_id == t.server_id,
        u.script_type == t.script_type,
        u.created_at == t.created_at,
        u.updated_at == Some(now),
{
}

/// An update request sets each field of an environment variable that it
/// gives, keeps each field that it does not give, keeps the variable's
/// identity, owner and creation time, and stamps the update time.
pub proof fn law_env_variable_update_sets_given_fields(t: EnvVariable, req: UpdateEnvVariableRequest, now: String, u: EnvVariable)
    requires
        u == updated_env_variable(t, req, now),
    ensures
        req.name matches Some(x) ==> u.name == x,
        req.name is None ==> u.name == t.name,
        req.value matches Some(x) ==> u.value == x,
        req.value is None ==> u.value == t.value,
        req.description matches Some(x) ==> u.description == Some(x),
        req.description is None ==> u.description == t.description,
        u.id == t.id,
        u.server_id == t.server_id,
        u.created_at == t.created_at,
        u.updated_at == Some(now),
{
}

/// An update request sets a subscription's topic and QoS when it gives
/// them and keeps them otherwise, always replaces its colour, and keeps its
/// identity, owner, activity and creation time.
pub proof fn law_subscription_update_sets_given_fields(t: Subscription, req: UpdateSubscriptionRequest, u: Subscription)
    requires
        u == updated_subscription(t, req),
    ensures
        req.topic matches Some(x) ==> u.topic == x,
        req.topic is None ==> u.topic == t.topic,
        req.qos matches Some(x) ==> u.qos == x,
        req.qos is None ==> u.qos == t.qos,
        u.color == req.color,
        u.id == t.id,
        u.server_id == t.server_id,
        u.is_active == t.is_active,
        u.created_at == t.created_at,
{
}

/// A created template holds what the request gives, under the new ID, unused,
/// created and updated at the same time; one more use counts one and
/// records when, changing nothing else.
pub proof fn law_template_creation_and_use(req: CreateTemplateRequest, id: i64, now: String, t: CommandTemplate)
    ensures
        ({
            let n = new_template(req, id, now);
            &&& n.id == Some(id) && n.server_id == req.server_id && n.name == req.name && n.topic == req.topic
            &&& n.payload == req.payload && n.payload_type == req.payload_type && n.qos == req.qos
            &&& n.retain == req.retain && n.description == req.description && n.category == req.category
            &&& n.use_count == 0 && n.last_used_at is None && n.created_at == Some(now) && n.updated_at == Some(now)
        }),
        t.use_count < i64::MAX ==> ({
            let used = used_template(t, now);
            &&& used.use_count == t.use_count + 1
            &&& used.last_used_at == Some(now)
            &&& used == (CommandTemplate { use_count: used.use_count, last_used_at: used.last_used_at, ..t })
        }),
{
}

/// The templates shown for broker `server_id`: its own and the global ones.
pub open spec fn visible_template(server_id: i64) -> spec_fn(CommandTemplate) -> bool {
    |t: CommandTemplate| t.server_id == server_id || t.server_id == GLOBAL_TEMPLATE_SERVER_ID
}

/// The enabled scripts of a broker of a given type.
pub open spec fn enabled_script_of(server_id: i64, script_type: Seq<char>) -> spec_fn(Script) -> bool {
    |s: Script| s.server_id == server_id && s.enabled && s.script_type@ == script_type
}

/// Whether broker `server_id` has a variable named `name`, other than the one with ID `except`.
pub open spec fn name_taken(vars: Seq<EnvVariable>, server_id: i64, name: Seq<char>, except: Option<i64>) -> bool {
    exists|i: int|
        0 <= i < vars.len() && vars[i].server_id == server_id && vars[i].name@ == name && (except is None || vars[i].id != except)
}

/// The template that a create request makes, with ID `id`, created at `now`.
pub open spec fn new_template(req: CreateTemplateRequest, id: i64, now: String) -> CommandTemplate {
    CommandTemplate {
        id: Some(id),
        server_id: req.server_id,
        name: req.name,
        topic: req.topic,
        payload: req.payload,
        payload_type: req.payload_type,
        qos: req.qos,
        retain: req.retain,
        description: req.description,
        category: req.category,
        use_count: 0,
        last_used_at: None,
        created_at: Some(now),
        updated_at: Some(now),
    }
}

/// The template after one more use at `now`.
pub open spec fn used_template(t: CommandTemplate, now: String) -> CommandTemplate {
    CommandTemplate { use_count: (t.use_count + 1) as i64, last_used_at: Some(now), ..t }
}

/// The script that a create request makes, with ID `id`, created at `now`.
pub open spec fn new_script(req: CreateScriptRequest, id: i64, now: String) -> Script {
    Script {
        id: Some(id),
        server_id: req.server_id,
        name: req.name,
        script_type: req.script_type,
        code: req.code,
        enabled: req.enabled,
        description: req.description,
        created_at: Some(now),
        updated_at: Some(now),
    }
}

/// A created script or environment variable holds what the request gives,
/// under the new ID, created and updated at the same time. A broker is shown
/// its own templates and the global ones, and runs its own enabled scripts
/// of the asked type.
pub proof fn law_creations_and_views(
    sreq: CreateScriptRequest,
    ereq: CreateEnvVariableRequest,
    id: i64,
    now: String,
    t: CommandTemplate,
    sc: Script,
    server_id: i64,
    script_type: Seq<char>,
)
    ensures
        ({
            let n = new_script(sreq, id, now);
            &&& n.id == Some(id) && n.server_id == sreq.server_id && n.name == sreq.name
            &&& n.script_type == sreq.script_type && n.code == sreq.code && n.enabled == sreq.enabled
            &&& n.description == sreq.description && n.created_at == Some(now) && n.updated_at == Some(now)
        }),
        ({
            let n = new_env_variable(ereq, id, now);
            &&& n.id == Some(id) && n.server_id == ereq.server_id && n.name == ereq.name && n.value == ereq.value
            &&& n.description == ereq.description && n.created_at == Some(now) && n.updated_at == Some(now)
        }),
        visible_template(server_id)(t) <==> (t.server_id == server_id || t.server_id == GLOBAL_TEMPLATE_SERVER_ID),
        enabled_script_of(server_id, script_type)(sc) <==> (sc.server_id == server_id && sc.enabled
            && sc.script_type@ == script_type),
{
}

/// Some template shown for broker `server_id` has category `c`.
pub open spec fn has_category(templates: Seq<CommandTemplate>, server_id: i64, c: Seq<char>) -> bool {
    exists|k: int|
        0 <= k < templates.len() && visible_template(server_id)(#[trigger] templates[k]) && opt_view(templates[k].category)
            == Some(c)
}

/// The variable that a create request makes, with ID `id`, created at `now`.
pub open spec fn new_env_variable(req: CreateEnvVariableRequest, id: i64, now: String) -> EnvVariable {
    EnvVariable {
        id: Some(id),
        server_id: req.server_id,
        name: req.name,
        value: req.value,
        description: req.description,
        created_at: Some(now),
        updated_at: Some(now),
    }
}

/// An update request renames an existing variable to a name that another
/// variable of the same broker has.
pub open spec fn rename_conflict(vars: Seq<EnvVariable>, req: UpdateEnvVariableRequest) -> bool {
    &&& req.name is Some
    &&& first_with_id(vars, Some(req.id)) is Some
    &&& name_taken(vars, vars[first_with_id(vars, Some(req.id))->0].server_id, req.name->0@, Some(req.id))
}

/// No two variables of a broker share a name.
pub open spec fn names_unique(vars: Seq<EnvVariable>) -> bool {
    forall|i: int, j: int|
        0 <= i < vars.len() && 0 <= j < vars.len() && i != j ==> !(#[trigger] vars[i].server_id == #[trigger] vars[j].server_id
            && vars[i].name@ == vars[j].name@)
}

/// No two variables share an ID.
pub open spec fn env_ids_unique(vars: Seq<EnvVariable>) -> bool {
    forall|i: int, j: int| 0 <= i < vars.len() && 0 <= j < vars.len() && i != j ==> #[trigger] vars[i].id != #[trigger] vars[j].id
}

/// Creating a variable that the broker does not have by name keeps the
/// names of each broker distinct.
pub proof fn law_env_names_stay_unique_on_create(vars: Seq<EnvVariable>, req: CreateEnvVariableRequest, id: i64, now: String)
    requires
        names_unique(vars),
        !name_taken(vars, req.server_id, req.name@, None),
    ensures
        names_unique(vars.push(new_env_variable(req, id, now))),
{
    let n = vars.push(new_env_variable(req, id, now));
    assert forall|i: int, j: int|
        0 <= i < n.len() && 0 <= j < n.len() && i != j implies !(#[trigger] n[i].server_id == #[trigger] n[j].server_id
        && n[i].name@ == n[j].name@) by {
        if i < vars.len() && j < vars.len() {
            assert(n[i] == vars[i] && n[j] == vars[j]);
        } else if i < vars.len() {
            assert(n[i] == vars[i]);
        } else {
            assert(n[j] == vars[j]);
        }
    }
}

/// An update that the name check lets through keeps the names of each
/// broker distinct, as long as IDs are distinct too.
pub proof fn law_env_names_stay_unique_on_update(vars: Seq<EnvVariable>, req: UpdateEnvVariableRequest, now: String)
    requires
        names_unique(vars),
        env_ids_unique(vars),
        !rename_conflict(vars, req),
    ensures
        names_unique(
            match first_with_id(vars, Some(req.id)) {
                Some(k) => vars.update(k, updated_env_variable(vars[k], req, now)),
                None => vars,
            },
        ),
{
    lemma_first_with_id(vars, Some(req.id));
    if let Some(k) = first_with_id(vars, Some(req.id)) {
        let u = updated_env_variable(vars[k], req, now);
        let n = vars.update(k, u);
        assert forall|i: int, j: int|
            0 <= i < n.len() && 0 <= j < n.len() && i != j implies !(#[trigger] n[i].server_id == #[trigger] n[j].server_id
            && n[i].name@ == n[j].name@) by {
            if i != k && j != k {
                assert(n[i] == vars[i] && n[j] == vars[j]);
            } else {
                let other = if i == k { j } else { i };
                assert(n[other] == vars[other]);
                assert(vars[other].id != vars[k].id);
                if req.name is None {
                    assert(u.name == vars[k].name);
                } else if n[other].server_id == u.server_id && n[other].name@ == u.name@ {
                    assert(name_taken(vars, vars[k].server_id, req.name->0@, Some(req.id)));
                }
            }
        }
    }
}

impl AppData {
    pub fn new() -> (d: AppData)
        ensures
            d.servers@.len() == 0 && d.subscriptions@.len() == 0 && d.messages@.len() == 0,
            d.templates@.len() == 0 && d.scripts@.len() == 0 && d.env_variables@.len() == 0,
            d.next_server_id == 0 && d.next_subscription_id == 0 && d.next_message_id == 0,
            d.next_template_id == 0 && d.next_script_id == 0 && d.next_env_variable_id == 0,
    {
        AppData {
            servers: Vec::new(),
            subscriptions: Vec::new(),
            messages: Vec::new(),
            templates: Vec::new(),
            scripts: Vec::new(),
            env_variables: Vec::new(),
            next_server_id: 0,
            next_subscription_id: 0,
            next_message_id: 0,
            next_template_id: 0,
            next_script_id: 0,
            next_env_variable_id: 0,
        }
    }

    // ===== Brokers =====

    pub fn get_servers(&self) -> (r: Vec<MqttServer>)
        ensures
            r@ == self.servers@,
    {
        copy_all(&self.servers)
    }

    pub fn get_server(&self, id: i64) -> (r: Option<MqttServer>)
        ensures
            match first_with_id(self.servers@, Some(id)) {
                Some(i) => r == Some(self.servers@[i]),
                None => r is None,
            },
    {
        get_first(&self.servers, Some(id))
    }

    /// Stores a new broker under the next ID, stamped with the current time.
    pub fn create_server(&mut self, server: MqttServer) -> (r: i64)
        requires
            old(self).next_server_id < i64::MAX,
        ensures
            r == old(self).next_server_id + 1,
            final(self).next_server_id == r,
            final(self).servers@.len() == old(self).servers@.len() + 1,
            final(self).servers@.drop_last() == old(self).servers@,
            final(self).servers@.last() == (MqttServer {
                id: Some(r),
                created_at: final(self).servers@.last().created_at,
                updated_at: final(self).servers@.last().created_at,
                ..server
            }),
            final(self).servers@.last().created_at is Some,
            final(self).subscriptions@ == old(self).subscriptions@ && final(self).templates@ == old(self).templates@
                && final(self).scripts@ == old(self).scripts@ && final(self).env_variables@ == old(self).env_variables@,
    {
        let now = now_rfc3339();
        self.create_server_at(server, now)
    }

    /// Stores a new broker under the next ID, created and updated at `now`.
    pub fn create_server_at(&mut self, server: MqttServer, now: String) -> (r: i64)
        requires
            old(self).next_server_id < i64::MAX,
        ensures
            r == old(self).next_server_id + 1,
            *final(self) == (AppData {
                next_server_id: r,
                servers: final(self).servers,
                ..*old(self)
            }),
            final(self).servers@ == old(self).servers@.push(
                MqttServer { id: Some(r), created_at: Some(now), updated_at: Some(now), ..server },
            ),
    {
        self.next_server_id = self.next_server_id + 1;
        let id = self.next_server_id;
        let mut server = server;
        server.id = Some(id);
        server.created_at = Some(now.clone());
        server.updated_at = Some(now);
        self.servers.push(server);
        id
    }

    /// Replaces the first broker with the same ID, stamped with the current time.
    pub fn update_server(&mut self, server: MqttServer)
        ensures
            *final(self) == (AppData { servers: final(self).servers, ..*old(self) }),
            first_with_id(old(self).servers@, server.id) is None ==> final(self).servers@ == old(self).servers@,
            first_with_id(old(self).servers@, server.id) matches Some(i) ==> ({
                let s = final(self).servers@[i];
                &&& final(self).servers@ == old(self).servers@.update(i, s)
                &&& s == (MqttServer { updated_at: s.updated_at, ..server })
                &&& s.updated_at is Some
            }),
    {
        proof {
            lemma_first_with_id(self.servers@, server.id);
        }
        let now = now_rfc3339();
        self.update_server_at(server, now)
    }

    /// Replaces the first broker with the same ID, updated at `now`.
    pub fn update_server_at(&mut self, server: MqttServer, now: String)
        ensures
            *final(self) == (AppData { servers: final(self).servers, ..*old(self) }),
            final(self).servers@ == replace_first(
                old(self).servers@,
                server.id,
                MqttServer { updated_at: Some(now), ..server },
            ),
    {
        match find_first(&self.servers, server.id) {
            Some(i) => {
                let mut server = server;
                server.updated_at = Some(now);
                self.servers.set(i, server);
            },
            None => {},
        }
    }

    /// Removes a broker with everything that belongs to it.
    pub fn delete_server(&mut self, id: i64)
        ensures
            final(self).servers@ == old(self).servers@.filter(without_id(Some(id))),
            final(self).subscriptions@ == old(self).subscriptions@.filter(not_of_server(id)),
            final(self).templates@ == old(self).templates@.filter(not_of_server(id)),
            final(self).scripts@ == old(self).scripts@.filter(not_of_server(id)),
            final(self).env_variables@ == old(self).env_variables@.filter(not_of_server(id)),
            *final(self) == (AppData {
                servers: final(self).servers,
                subscriptions: final(self).subscriptions,
                templates: final(self).templates,
                scripts: final(self).scripts,
                env_variables: final(self).env_variables,
                ..*old(self)
            }),
    {
        self.servers = copy_without_id(&self.servers, Some(id));
        self.subscriptions = copy_not_of_server(&self.subscriptions, id);
        self.templates = copy_not_of_server(&self.templates, id);
        self.scripts = copy_not_of_server(&self.scripts, id);
        self.env_variables = copy_not_of_server(&self.env_variables, id);
    }

    // ===== Subscriptions =====

    pub fn get_subscriptions(&self, server_id: i64) -> (r: Vec<Subscription>)
        ensures
            r@ == self.subscriptions@.filter(of_server(server_id)),
    {
        copy_of_server(&self.subscriptions, server_id)
    }

    /// Stores a new subscription under the next ID, stamped with the current time.
    pub fn create_subscription(&mut self, sub: Subscription) -> (r: Subscription)
        requires
            old(self).next_subscription_id < i64::MAX,
        ensures
            r.id == Some((old(self).next_subscription_id + 1) as i64),
            r == (Subscription { id: r.id, created_at: r.created_at, ..sub }),
            r.created_at is Some,
            final(self).next_subscription_id == old(self).next_subscription_id + 1,
            final(self).subscriptions@ == old(self).subscriptions@.push(r),
            *final(self) == (AppData {
                next_subscription_id: final(self).next_subscription_id,
                subscriptions: final(self).subscriptions,
                ..*old(self)
            }),
    {
        let now = now_rfc3339();
        self.create_subscription_at(sub, now)
    }

    /// Stores a new subscription under the next ID, created at `now`.
    pub fn create_subscription_at(&mut self, sub: Subscription, now: String) -> (r: Subscription)
        requires
            old(self).next_subscription_id < i64::MAX,
        ensures
            r == (Subscription { id: Some((old(self).next_subscription_id + 1) as i64), created_at: Some(now), ..sub }),
            final(self).next_subscription_id == old(self).next_subscription_id + 1,
            final(self).subscriptions@ == old(self).subscriptions@.push(r),
            *final(self) == (AppData {
                next_subscription_id: final(self).next_subscription_id,
                subscriptions: final(self).subscriptions,
                ..*old(self)
            }),
    {
        self.next_subscription_id = self.next_subscription_id + 1;
        let mut sub = sub;
        sub.id = Some(self.next_subscription_id);
        sub.created_at = Some(now);
        let result = sub.duplicate();
        self.subscriptions.push(sub);
        result
    }

    /// Sets whether the first subscription with ID `id` is active.
    pub fn update_subscription_status(&mut self, id: i64, is_active: bool)
        ensures
            *final(self) == (AppData { subscriptions: final(self).subscriptions, ..*old(self) }),
            final(self).subscriptions@ == match first_with_id(old(self).subscriptions@, Some(id)) {
                Some(i) => old(self).subscriptions@.update(i, Subscription { is_active, ..old(self).subscriptions@[i] }),
                None => old(self).subscriptions@,
            },
    {
        match find_first(&self.subscriptions, Some(id)) {
            Some(i) => {
                let mut sub = self.subscriptions[i].duplicate();
                sub.is_active = is_active;
                self.subscriptions.set(i, sub);
            },
            None => {},
        }
    }

    /// Changes the topic, QoS and colour of a subscription.
    pub fn update_subscription(&mut self, req: UpdateSubscriptionRequest) -> (r: Result<Subscription, String>)
        ensures
            *final(self) == (AppData { subscriptions: final(self).subscriptions, ..*old(self) }),
            first_with_id(old(self).subscriptions@, Some(req.id)) is None ==> r is Err && r->Err_0@
                == "Subscription not found"@ && final(self).subscriptions@ == old(self).subscriptions@,
            first_with_id(old(self).subscriptions@, Some(req.id)) matches Some(i) ==> ({
                let u = updated_subscription(old(self).subscriptions@[i], req);
                &&& r == Ok::<Subscription, String>(u)
                &&& final(self).subscriptions@ == old(self).subscriptions@.update(i, u)
            }),
    {
        match find_first(&self.subscriptions, Some(req.id)) {
            Some(i) => {
                let mut sub = self.subscriptions[i].duplicate();
                match req.topic {
                    Some(topic) => {
                        sub.topic = topic;
                    },
                    None => {},
                }
                match req.qos {
                    Some(qos) => {
                        sub.qos = qos;
                    },
                    None => {},
                }
                sub.color = req.color;
                let result = sub.duplicate();
                self.subscriptions.set(i, sub);
                Ok(result)
            },
            None => Err(String::from_str("Subscription not found")),
        }
    }

    pub fn delete_subscription(&mut self, id: i64)
        ensures
            *final(self) == (AppData { subscriptions: final(self).subscriptions, ..*old(self) }),
            final(self).subscriptions@ == old(self).subscriptions@.filter(without_id(Some(id))),
    {
        self.subscriptions = copy_without_id(&self.subscriptions, Some(id));
    }

    // ===== Templates =====

    /// The templates of broker `server_id` together with the global ones, in order.
    pub fn get_templates(&self, server_id: i64) -> (r: Vec<CommandTemplate>)
        ensures
            r@ == self.templates@.filter(visible_template(server_id)),
    {
        let mut r: Vec<CommandTemplate> = Vec::new();
        let mut i: usize = 0;
        while i < self.templates.len()
            invariant
                i <= self.templates@.len(),
                r@ == self.templates@.take(i as int).filter(visible_template(server_id)),
            decreases self.templates@.len() - i,
        {
            proof {
                lemma_filter_take_step(self.templates@, visible_template(server_id), i as int);
            }
            let t = &self.templates[i];
            if t.server_id == server_id || t.server_id == GLOBAL_TEMPLATE_SERVER_ID {
                r.push(t.duplicate());
            }
            i = i + 1;
        }
        proof {
            assert(self.templates@.take(i as int) =~= self.templates@);
        }
        r
    }

    pub fn get_template(&self, id: i64) -> (r: Option<CommandTemplate>)
        ensures
            match first_with_id(self.templates@, Some(id)) {
                Some(i) => r == Some(self.templates@[i]),
                None => r is None,
            },
    {
        get_first(&self.templates, Some(id))
    }

    /// Stores a new template under the next ID, stamped with the current time.
    pub fn create_template(&mut self, req: CreateTemplateRequest) -> (r: i64)
        requires
            old(self).next_template_id < i64::MAX,
        ensures
            r == old(self).next_template_id + 1,
            *final(self) == (AppData { next_template_id: r, templates: final(self).templates, ..*old(self) }),
            final(self).templates@.len() == old(self).templates@.len() + 1,
            final(self).templates@.drop_last() == old(self).templates@,
            final(self).templates@.last().created_at matches Some(now) && final(self).templates@.last() == new_template(req, r, now),
    {
        let now = now_rfc3339();
        self.create_template_at(req, now)
    }

    /// Stores a new template under the next ID, created and updated at `now`.
    pub fn create_template_at(&mut self, req: CreateTemplateRequest, now: String) -> (r: i64)
        requires
            old(self).next_template_id < i64::MAX,
        ensures
            r == old(self).next_template_id + 1,
            *final(self) == (AppData { next_template_id: r, templates: final(self).templates, ..*old(self) }),
            final(self).templates@ == old(self).templates@.push(new_template(req, r, now)),
    {
        self.next_template_id = self.next_template_id + 1;
        let id = self.next_template_id;
        let template = CommandTemplate {
            id: Some(id),
            server_id: req.server_id,
            name: req.name,
            topic: req.topic,
            payload: req.payload,
            payload_type: req.payload_type,
            qos: req.qos,
            retain: req.retain,
            description: req.description,
            category: req.category,
            use_count: 0,
            last_used_at: None,
            created_at: Some(now.clone()),
            updated_at: Some(now),
        };
        self.templates.push(template);
        id
    }

    /// Applies an update request to the first template with its ID, stamped with the current time.
    pub fn update_template(&mut self, req: UpdateTemplateRequest)
        ensures
            *final(self) == (AppData { templates: final(self).templates, ..*old(self) }),
            first_with_id(old(self).templates@, Some(req.id)) is None ==> final(self).templates@ == old(self).templates@,
            first_with_id(old(self).templates@, Some(req.id)) matches Some(i) ==> final(self).templates@[i].updated_at matches Some(
                now,
            ) && final(self).templates@ == old(self).templates@.update(i, updated_template(old(self).templates@[i], req, now)),
    {
        proof {
            lemma_first_with_id(self.templates@, Some(req.id));
        }
        let now = now_rfc3339();
        self.update_template_at(req, now)
    }

    /// Applies an update request to the first template with its ID, updated at `now`.
    pub fn update_template_at(&mut self, req: UpdateTemplateRequest, now: String)
        ensures
            *final(self) == (AppData { templates: final(self).templates, ..*old(self) }),
            final(self).templates@ == match first_with_id(old(self).templates@, Some(req.id)) {
                Some(i) => old(self).templates@.update(i, updated_template(old(self).templates@[i], req, now)),
                None => old(self).templates@,
            },
    {
        match find_first(&self.templates, Some(req.id)) {
            Some(i) => {
                let mut t = self.templates[i].duplicate();
                match req.name {
                    Some(v) => {
                        t.name = v;
                    },
                    None => {},
                }
                match req.topic {
                    Some(v) => {
                        t.topic = v;
                    },
                    None => {},
                }
                match req.payload {
                    Some(v) => {
                        t.payload = v;
                    },
                    None => {},
                }
                match req.payload_type {
                    Some(v) => {
                        t.payload_type = v;
                    },
                    None => {},
                }
                match req.qos {
                    Some(v) => {
                        t.qos = v;
                    },
                    None => {},
                }
                match req.retain {
                    Some(v) => {
                        t.retain = v;
                    },
                    None => {},
                }
                match req.description {
                    Some(v) => {
                        t.description = Some(v);
                    },
                    None => {},
                }
                match req.category {
                    Some(v) => {
                        t.category = Some(v);
                    },
                    None => {},
                }
                t.updated_at = Some(now);
                self.templates.set(i, t);
            },
            None => {},
        }
    }

    pub fn delete_template(&mut self, id: i64)
        ensures
            *final(self) == (AppData { templates: final(self).templates, ..*old(self) }),
            final(self).templates@ == old(self).templates@.filter(without_id(Some(id))),
    {
        self.templates = copy_without_id(&self.templates, Some(id));
    }

    /// Counts one more use of a template and records when, at the current time.
    pub fn increment_template_use_count(&mut self, id: i64)
        requires
            first_with_id(old(self).templates@, Some(id)) matches Some(i) ==> old(self).templates@[i].use_count < i64::MAX,
        ensures
            *final(self) == (AppData { templates: final(self).templates, ..*old(self) }),
            first_with_id(old(self).templates@, Some(id)) is None ==> final(self).templates@ == old(self).templates@,
            first_with_id(old(self).templates@, Some(id)) matches Some(i) ==> final(self).templates@[i].last_used_at matches Some(
                now,
            ) && final(self).templates@ == old(self).templates@.update(i, used_template(old(self).templates@[i], now)),
    {
        proof {
            lemma_first_with_id(self.templates@, Some(id));
        }
        let now = now_rfc3339();
        self.increment_template_use_count_at(id, now)
    }

    /// Counts one more use of a template, used at `now`.
    pub fn increment_template_use_count_at(&mut self, id: i64, now: String)
        requires
            first_with_id(old(self).templates@, Some(id)) matches Some(i) ==> old(self).templates@[i].use_count < i64::MAX,
        ensures
            *final(self) == (AppData { templates: final(self).templates, ..*old(self) }),
            final(self).templates@ == match first_with_id(old(self).templates@, Some(id)) {
                Some(i) => old(self).templates@.update(i, used_template(old(self).templates@[i], now)),
                None => old(self).templates@,
            },
    {
        match find_first(&self.templates, Some(id)) {
            Some(i) => {
                let mut t = self.templates[i].duplicate();
                t.use_count = t.use_count + 1;
                t.last_used_at = Some(now);
                self.templates.set(i, t);
            },
            None => {},
        }
    }

    /// The distinct categories of the templates shown for broker `server_id`, sorted.
    pub fn get_template_categories(&self, server_id: i64) -> (r: Vec<String>)
        ensures
            strictly_sorted(r@),
            forall|c: Seq<char>| holds_text(r@, c) <==> has_category(self.templates@, server_id, c),
    {
        let mut r: Vec<String> = Vec::new();
        let mut i: usize = 0;
        while i < self.templates.len()
            invariant
                i <= self.templates@.len(),
                strictly_sorted(r@),
                forall|c: Seq<char>| holds_text(r@, c) <==> has_category(self.templates@.take(i as int), server_id, c),
            decreases self.templates@.len() - i,
        {
            let t = &self.templates[i];
            let ghost before = r@;
            if t.server_id == server_id || t.server_id == GLOBAL_TEMPLATE_SERVER_ID {
                match &t.category {
                    Some(c) => {
                        insert_sorted_unique(&mut r, c.clone());
                    },
                    None => {},
                }
            }
            proof {
                let s = self.templates@;
                assert forall|c: Seq<char>| holds_text(r@, c) <==> has_category(s.take(i + 1), server_id, c) by {
                    if has_category(s.take(i + 1), server_id, c) {
                        let k = choose|k: int| 0 <= k < s.take(i + 1).len() && visible_template(server_id)(#[trigger] s.take(i + 1)[k])
                            && opt_view(s.take(i + 1)[k].category) == Some(c);
                        if k < i {
                            assert(s.take(i as int)[k] == s.take(i + 1)[k]);
                        }
                    }
                    if has_category(s.take(i as int), server_id, c) {
                        let k = choose|k: int| 0 <= k < s.take(i as int).len() && visible_template(server_id)(#[trigger] s.take(i as int)[k])
                            && opt_view(s.take(i as int)[k].category) == Some(c);
                        assert(s.take(i + 1)[k] == s.take(i as int)[k]);
                    }
                    if visible_template(server_id)(s[i as int]) && opt_view(s[i as int].category) == Some(c) {
                        assert(s.take(i + 1)[i as int] == s[i as int]);
                    }
                }
            }
            i = i + 1;
        }
        proof {
            assert(self.templates@.take(i as int) =~= self.templates@);
        }
        r
    }

    // ===== Scripts =====

    pub fn get_scripts(&self, server_id: i64) -> (r: Vec<Script>)
        ensures
            r@ == self.scripts@.filter(of_server(server_id)),
    {
        copy_of_server(&self.scripts, server_id)
    }

    pub fn get_script(&self, id: i64) -> (r: Option<Script>)
        ensures
            match first_with_id(self.scripts@, Some(id)) {
                Some(i) => r == Some(self.scripts@[i]),
                None => r is None,
            },
    {
        get_first(&self.scripts, Some(id))
    }

    /// The enabled scripts of broker `server_id` of type `script_type`, in order.
    pub fn get_enabled_scripts(&self, server_id: i64, script_type: &str) -> (r: Vec<Script>)
        ensures
            r@ == self.scripts@.filter(enabled_script_of(server_id, script_type@)),
    {
        let mut r: Vec<Script> = Vec::new();
        let mut i: usize = 0;
        while i < self.scripts.len()
            invariant
                i <= self.scripts@.len(),
                r@ == self.scripts@.take(i as int).filter(enabled_script_of(server_id, script_type@)),
            decreases self.scripts@.len() - i,
        {
            proof {
                lemma_filter_take_step(self.scripts@, enabled_script_of(server_id, script_type@), i as int);
            }
            let s = &self.scripts[i];
            if s.server_id == server_id && s.enabled && str_equals(s.script_type.as_str(), script_type) {
                r.push(s.duplicate());
            }
            i = i + 1;
        }
        proof {
            assert(self.scripts@.take(i as int) =~= self.scripts@);
        }
        r
    }

    /// Stores a new script under the next ID, stamped with the current time.
    pub fn create_script(&mut self, req: CreateScriptRequest) -> (r: i64)
        requires
            old(self).next_script_id < i64::MAX,
        ensures
            r == old(self).next_script_id + 1,
            *final(self) == (AppData { next_script_id: r, scripts: final(self).scripts, ..*old(self) }),
            final(self).scripts@.len() == old(self).scripts@.len() + 1,
            final(self).scripts@.drop_last() == old(self).scripts@,
            final(self).scripts@.last().created_at matches Some(now) && final(self).scripts@.last() == new_script(req, r, now),
    {
        let now = now_rfc3339();
        self.create_script_at(req, now)
    }

    /// Stores a new script under the next ID, created and updated at `now`.
    pub fn create_script_at(&mut self, req: CreateScriptRequest, now: String) -> (r: i64)
        requires
            old(self).next_script_id < i64::MAX,
        ensures
            r == old(self).next_script_id + 1,
            *final(self) == (AppData { next_script_id: r, scripts: final(self).scripts, ..*old(self) }),
            final(self).scripts@ == old(self).scripts@.push(new_script(req, r, now)),
    {
        self.next_script_id = self.next_script_id + 1;
        let id = self.next_script_id;
        let script = Script {
            id: Some(id),
            server_id: req.server_id,
            name: req.name,
            script_type: req.script_type,
            code: req.code,
            enabled: req.enabled,
            description: req.description,
            created_at: Some(now.clone()),
            updated_at: Some(now),
        };
        self.scripts.push(script);
        id
    }

    /// Applies an update request to the first script with its ID, stamped with the current time.
    pub fn update_script(&mut self, req: UpdateScriptRequest)
        ensures
            *final(self) == (AppData { scripts: final(self).scripts, ..*old(self) }),
            first_with_id(old(self).scripts@, Some(req.id)) is None ==> final(self).scripts@ == old(self).scripts@,
            first_with_id(old(self).scripts@, Some(req.id)) matches Some(i) ==> final(self).scripts@[i].updated_at matches Some(
                now,
            ) && final(self).scripts@ == old(self).scripts@.update(i, updated_script(old(self).scripts@[i], req, now)),
    {
        proof {
            lemma_first_with_id(self.scripts@, Some(req.id));
        }
        let now = now_rfc3339();
        self.update_script_at(req, now)
    }

    /// Applies an update request to the first script with its ID, updated at `now`.
    pub fn update_script_at(&mut self, req: UpdateScriptRequest, now: String)
        ensures
            *final(self) == (AppData { scripts: final(self).scripts, ..*old(self) }),
            final(self).scripts@ == match first_with_id(old(self).scripts@, Some(req.id)) {
                Some(i) => old(self).scripts@.update(i, updated_script(old(self).scripts@[i], req, now)),
                None => old(self).scripts@,
            },
    {
        match find_first(&self.scripts, Some(req.id)) {
            Some(i) => {
                let mut t = self.scripts[i].duplicate();
                match req.name {
                    Some(v) => {
                        t.name = v;
                    },
                    None => {},
                }
                match req.code {
                    Some(v) => {
                        t.code = v;
                    },
                    None => {},
                }
                match req.enabled {
                    Some(v) => {
                        t.enabled = v;
                    },
                    None => {},
                }
                match req.description {
                    Some(v) => {
                        t.description = Some(v);
                    },
                    None => {},
                }
                t.updated_at = Some(now);
                self.scripts.set(i, t);
            },
            None => {},
        }
    }

    pub fn delete_script(&mut self, id: i64)
        ensures
            *final(self) == (AppData { scripts: final(self).scripts, ..*old(self) }),
            final(self).scripts@ == old(self).scripts@.filter(without_id(Some(id))),
    {
        self.scripts = copy_without_id(&self.scripts, Some(id));
    }

    /// Enables or disables the first script with ID `id`, stamped with the current time.
    pub fn toggle_script(&mut self, id: i64, enabled: bool)
        ensures
            *final(self) == (AppData { scripts: final(self).scripts, ..*old(self) }),
            first_with_id(old(self).scripts@, Some(id)) is None ==> final(self).scripts@ == old(self).scripts@,
            first_with_id(old(self).scripts@, Some(id)) matches Some(i) ==> final(self).scripts@[i].updated_at matches Some(now)
                && final(self).scripts@ == old(self).scripts@.update(
                i,
                Script { enabled, updated_at: Some(now), ..old(self).scripts@[i] },
            ),
    {
        proof {
            lemma_first_with_id(self.scripts@, Some(id));
        }
        let now = now_rfc3339();
        self.toggle_script_at(id, enabled, now)
    }

    /// Enables or disables the first script with ID `id`, updated at `now`.
    pub fn toggle_script_at(&mut self, id: i64, enabled: bool, now: String)
        ensures
            *final(self) == (AppData { scripts: final(self).scripts, ..*old(self) }),
            final(self).scripts@ == match first_with_id(old(self).scripts@, Some(id)) {
                Some(i) => old(self).scripts@.update(i, Script { enabled, updated_at: Some(now), ..old(self).scripts@[i] }),
                None => old(self).scripts@,
            },
    {
        match find_first(&self.scripts, Some(id)) {
            Some(i) => {
                let mut t = self.scripts[i].duplicate();
                t.enabled = enabled;
                t.updated_at = Some(now);
                self.scripts.set(i, t);
            },
            None => {},
        }
    }

    // ===== Environment variables =====

    pub fn get_env_variables(&self, server_id: i64) -> (r: Vec<EnvVariable>)
        ensures
            r@ == self.env_variables@.filter(of_server(server_id)),
    {
        copy_of_server(&self.env_variables, server_id)
    }

    pub fn get_env_variable(&self, id: i64) -> (r: Option<EnvVariable>)
        ensures
            match first_with_id(self.env_variables@, Some(id)) {
                Some(i) => r == Some(self.env_variables@[i]),
                None => r is None,
            },
    {
        get_first(&self.env_variables, Some(id))
    }

    /// Whether broker `server_id` has a variable named `name` other than the one with ID `except`.
    fn env_name_taken(&self, server_id: i64, name: &String, except: Option<i64>) -> (r: bool)
        ensures
            r == name_taken(self.env_variables@, server_id, name@, except),
    {
        let mut i: usize = 0;
        while i < self.env_variables.len()
            invariant
                i <= self.env_variables@.len(),
                forall|k: int|
                    0 <= k < i ==> !(#[trigger] self.env_variables@[k].server_id == server_id && self.env_variables@[k].name@
                        == name@ && (except is None || self.env_variables@[k].id != except)),
            decreases self.env_variables@.len() - i,
        {
            let e = &self.env_variables[i];
            let other = match except {
                Some(_) => e.id != except,
                None => true,
            };
            if e.server_id == server_id && string_equals(&e.name, name) && other {
                return true;
            }
            i = i + 1;
        }
        false
    }

    /// Stores a new variable under the next ID, stamped with the current time,
    /// unless the broker already has a variable of that name.
    pub fn create_env_variable(&mut self, req: CreateEnvVariableRequest) -> (r: Result<i64, String>)
        requires
            old(self).next_env_variable_id < i64::MAX,
        ensures
            name_taken(old(self).env_variables@, req.server_id, req.name@, None) ==> r is Err && r->Err_0@
                == "Variable name already exists"@ && *final(self) == *old(self),
            !name_taken(old(self).env_variables@, req.server_id, req.name@, None) ==> ({
                &&& r == Ok::<i64, String>((old(self).next_env_variable_id + 1) as i64)
                &&& *final(self) == (AppData {
                    next_env_variable_id: r->Ok_0,
                    env_variables: final(self).env_variables,
                    ..*old(self)
                })
                &&& final(self).env_variables@.len() == old(self).env_variables@.len() + 1
                &&& final(self).env_variables@.drop_last() == old(self).env_variables@
                &&& final(self).env_variables@.last().created_at matches Some(now) && final(self).env_variables@.last()
                    == new_env_variable(req, r->Ok_0, now)
            }),
    {
        let now = now_rfc3339();
        self.create_env_variable_at(req, now)
    }

    /// Stores a new variable under the next ID, created and updated at `now`,
    /// unless the broker already has a variable of that name.
    pub fn create_env_variable_at(&mut self, req: CreateEnvVariableRequest, now: String) -> (r: Result<i64, String>)
        requires
            old(self).next_env_variable_id < i64::MAX,
        ensures
            name_taken(old(self).env_variables@, req.server_id, req.name@, None) ==> r is Err && r->Err_0@
                == "Variable name already exists"@ && *final(self) == *old(self),
            !name_taken(old(self).env_variables@, req.server_id, req.name@, None) ==> ({
                &&& r == Ok::<i64, String>((old(self).next_env_variable_id + 1) as i64)
                &&& *final(self) == (AppData {
                    next_env_variable_id: r->Ok_0,
                    env_variables: final(self).env_variables,
                    ..*old(self)
                })
                &&& final(self).env_variables@ == old(self).env_variables@.push(new_env_variable(req, r->Ok_0, now))
            }),
    {
        if self.env_name_taken(req.server_id, &req.name, None) {
            return Err(String::from_str("Variable name already exists"));
        }
        self.next_env_variable_id = self.next_env_variable_id + 1;
        let id = self.next_env_variable_id;
        let var = EnvVariable {
            id: Some(id),
            server_id: req.server_id,
            name: req.name,
            value: req.value,
            description: req.description,
            created_at: Some(now.clone()),
            updated_at: Some(now),
        };
        self.env_variables.push(var);
        Ok(id)
    }

    /// Applies an update request to the first variable with its ID, stamped
    /// with the current time, unless the new name is taken on its broker.
    pub fn update_env_variable(&mut self, req: UpdateEnvVariableRequest) -> (r: Result<(), String>)
        ensures
            *final(self) == (AppData { env_variables: final(self).env_variables, ..*old(self) }),
            rename_conflict(old(self).env_variables@, req) ==> r is Err && r->Err_0@ == "Variable name already exists"@
                && final(self).env_variables@ == old(self).env_variables@,
            !rename_conflict(old(self).env_variables@, req) ==> r is Ok,
            !rename_conflict(old(self).env_variables@, req) && first_with_id(old(self).env_variables@, Some(req.id)) is None
                ==> final(self).env_variables@ == old(self).env_variables@,
            !rename_conflict(old(self).env_variables@, req) ==> (first_with_id(old(self).env_variables@, Some(req.id)) matches Some(
                i,
            ) ==> final(self).env_variables@[i].updated_at matches Some(now) && final(self).env_variables@
                == old(self).env_variables@.update(i, updated_env_variable(old(self).env_variables@[i], req, now))),
    {
        proof {
            lemma_first_with_id(self.env_variables@, Some(req.id));
        }
        let now = now_rfc3339();
        self.update_env_variable_at(req, now)
    }

    /// Applies an update request to the first variable with its ID, updated
    /// at `now`, unless the new name is taken on its broker.
    pub fn update_env_variable_at(&mut self, req: UpdateEnvVariableRequest, now: String) -> (r: Result<(), String>)
        ensures
            *final(self) == (AppData { env_variables: final(self).env_variables, ..*old(self) }),
            rename_conflict(old(self).env_variables@, req) ==> r is Err && r->Err_0@ == "Variable name already exists"@
                && final(self).env_variables@ == old(self).env_variables@,
            !rename_conflict(old(self).env_variables@, req) ==> r is Ok && final(self).env_variables@ == match first_with_id(
                old(self).env_variables@,
                Some(req.id),
            ) {
                Some(i) => old(self).env_variables@.update(i, updated_env_variable(old(self).env_variables@[i], req, now)),
                None => old(self).env_variables@,
            },
    {
        let found = find_first(&self.env_variables, Some(req.id));
        match found {
            Some(i) => {
                match &req.name {
                    Some(new_name) => {
                        let owner = self.env_variables[i].server_id;
                        if self.env_name_taken(owner, new_name, Some(req.id)) {
                            return Err(String::from_str("Variable name already exists"));
                        }
                    },
                    None => {},
                }
                let mut t = self.env_variables[i].duplicate();
                match req.name {
                    Some(v) => {
                        t.name = v;
                    },
                    None => {},
                }
                match req.value {
                    Some(v) => {
                        t.value = v;
                    },
                    None => {},
                }
                match req.description {
                    Some(v) => {
                        t.description = Some(v);
                    },
                    None => {},
                }
                t.updated_at = Some(now);
                self.env_variables.set(i, t);
                Ok(())
            },
            None => Ok(()),
        }
    }

    pub fn delete_env_variable(&mut self, id: i64)
        ensures
            *final(self) == (AppData { env_variables: final(self).env_variables, ..*old(self) }),
            final(self).env_variables@ == old(self).env_variables@.filter(without_id(Some(id))),
    {
        self.env_variables = copy_without_id(&self.env_variables, Some(id));
    }
}

impl Default for AppData {
    fn default() -> (d: AppData)
        ensures
            d.servers@.len() == 0 && d.subscriptions@.len() == 0 && d.messages@.len() == 0,
            d.templates@.len() == 0 && d.scripts@.len() == 0 && d.env_variables@.len() == 0,
            d.next_server_id == 0 && d.next_subscription_id == 0 && d.next_message_id == 0,
            d.next_template_id == 0 && d.next_script_id == 0 && d.next_env_variable_id == 0,
    {
        AppData::new()
    }
}

} // verus!
