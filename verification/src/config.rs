//! The recorder's settings, from the values of its environment variables.
use vstd::prelude::*;

verus! {

/// The broker port used when `MQTT_PORT` is not set.
pub open spec fn default_port() -> Seq<char> {
    "1883"@
}

/// A required setting that is missing, in the order in which they are looked up.
#[derive(Clone, Copy, Debug, PartialEq, Eq)]
pub enum MissingSetting {
    MqttUrl,
    MqttUsername,
    MqttPassword,
    Topic,
    SqliteDbUrl,
}

impl MissingSetting {
    /// The text the recorder stops with when this setting is missing.
    pub open spec fn spec_message(self) -> Seq<char> {
        match self {
            MissingSetting::MqttUrl => "MQTT_URL must be set!"@,
            MissingSetting::MqttUsername => "MQTT_USERNAME must be set!"@,
            MissingSetting::MqttPassword => "MQTT_PASSWORD must be set!"@,
            MissingSetting::Topic => "TOPIC for MQTT must be set!"@,
            MissingSetting::SqliteDbUrl => "SQLITE_DB_URL must be set"@,
        }
    }

    /// The text the recorder stops with when this setting is missing.
    pub fn message(&self) -> (text: String)
        ensures
            text@ == self.spec_message(),
    {
        match self {
            MissingSetting::MqttUrl => "MQTT_URL must be set!".to_owned(),
            MissingSetting::MqttUsername => "MQTT_USERNAME must be set!".to_owned(),
            MissingSetting::MqttPassword => "MQTT_PASSWORD must be set!".to_owned(),
            MissingSetting::Topic => "TOPIC for MQTT must be set!".to_owned(),
            MissingSetting::SqliteDbUrl => "SQLITE_DB_URL must be set".to_owned(),
        }
    }
}

/// What the recorder needs to run.
#[derive(Clone, Debug)]
pub struct RecorderConfig {
    pub mqtt_url: String,
    pub mqtt_port: String,
    pub mqtt_username: String,
    pub mqtt_password: String,
    pub mqtt_client_id: String,
    pub topic: String,
    pub database_url: String,
}

/// The first required setting that is missing, in the order `MQTT_URL`,
/// `MQTT_USERNAME`, `MQTT_PASSWORD`, `TOPIC`, `SQLITE_DB_URL`.
pub open spec fn first_missing(
    mqtt_url: Option<String>,
    mqtt_username: Option<String>,
    mqtt_password: Option<String>,
    topic: Option<String>,
    database_url: Option<String>,
) -> Option<MissingSetting> {
    if mqtt_url is None {
        Some(MissingSetting::MqttUrl)
    } else if mqtt_username is None {
        Some(MissingSetting::MqttUsername)
    } else if mqtt_password is None {
        Some(MissingSetting::MqttPassword)
    } else if topic is None {
        Some(MissingSetting::Topic)
    } else if database_url is None {
        Some(MissingSetting::SqliteDbUrl)
    } else {
        None
    }
}

/// The recorder's settings from the values of `MQTT_URL`, `MQTT_PORT`,
/// `MQTT_USERNAME`, `MQTT_PASSWORD`, `MQTT_CLIENT_ID`, `TOPIC` and `SQLITE_DB_URL`
/// (`None` where one is not set). The port defaults to `1883` and the client id to
/// `generated_client_id`; the first missing required setting is the error.
pub fn recorder_config(
    mqtt_url: Option<String>,
    mqtt_port: Option<String>,
    mqtt_username: Option<String>,
    mqtt_password: Option<String>,
    mqtt_client_id: Option<String>,
    generated_client_id: String,
    topic: Option<String>,
    database_url: Option<String>,
) -> (res: Result<RecorderConfig, MissingSetting>)
    ensures
        res is Err <==> first_missing(mqtt_url, mqtt_username, mqtt_password, topic, database_url)
            is Some,
        res matches Err(m) ==> Some(m) == first_missing(
            mqtt_url,
            mqtt_username,
            mqtt_password,
            topic,
            database_url,
        ),
        res matches Ok(c) ==> {
            &&& Some(c.mqtt_url) == mqtt_url
            &&& Some(c.mqtt_username) == mqtt_username
            &&& Some(c.mqtt_password) == mqtt_password
            &&& Some(c.topic) == topic
            &&& Some(c.database_url) == database_url
            &&& c.mqtt_port@ == match mqtt_port {
                Some(p) => p@,
                None => default_port(),
            }
            &&& c.mqtt_client_id == match mqtt_client_id {
                Some(id) => id,
                None => generated_client_id,
            }
        },
{
    let mqtt_url = match mqtt_url {
        Some(v) => v,
        None => return Err(MissingSetting::MqttUrl),
    };
    let mqtt_username = match mqtt_username {
        Some(v) => v,
        None => return Err(MissingSetting::MqttUsername),
    };
    let mqtt_password = match mqtt_password {
        Some(v) => v,
        None => return Err(MissingSetting::MqttPassword),
    };
    let mqtt_port = match mqtt_port {
        Some(v) => v,
        None => "1883".to_owned(),
    };
    let mqtt_client_id = match mqtt_client_id {
        Some(v) => v,
        None => generated_client_id,
    };
    let topic = match topic {
        Some(v) => v,
        None => return Err(MissingSetting::Topic),
    };
    let database_url = match database_url {
        Some(v) => v,
        None => return Err(MissingSetting::SqliteDbUrl),
    };
    Ok(
        RecorderConfig {
            mqtt_url,
            mqtt_port,
            mqtt_username,
            mqtt_password,
            mqtt_client_id,
            topic,
            database_url,
        },
    )
}

/// The address of the broker: `tcp://<url>:<port>`.
pub fn server_uri(mqtt_url: &str, mqtt_port: &str) -> (uri: String)
    ensures
        uri@ == "tcp://"@ + mqtt_url@ + ":"@ + mqtt_port@,
{
    let mut uri = "tcp://".to_owned();
    uri.append(mqtt_url);
    uri.append(":");
    uri.append(mqtt_port);
    uri
}

impl RecorderConfig {
    /// The address of the broker these settings name.
    pub fn server_uri(&self) -> (uri: String)
        ensures
            uri@ == "tcp://"@ + self.mqtt_url@ + ":"@ + self.mqtt_port@,
    {
        server_uri(self.mqtt_url.as_str(), self.mqtt_port.as_str())
    }
}

} // verus!
