//! What the coordinator tells elan-central about itself and its datasets.

use vstd::prelude::*;
use crate::coordinator::config::{
    CoordinatorConfig, DatasetConfig, MetadataValue, MetadataView, config_metadata, config_name,
    config_namespace, config_source_type, entries_view,
};
use crate::ids::{is_v4_uuid, new_uuid_v4, uuid_text, uuid_to_text};

verus! {

/// A coordinator's registration with elan-central.
#[derive(Debug, Clone)]
pub struct RegisterRequest {
    pub coordinator_id: String,
    pub environment: String,
    pub hostname: String,
    pub executor_endpoint: String,
}

/// A dataset's registration with elan-central. `dataset_id` is a UUID text,
/// `arrow_schema_ipc` the Arrow schema in IPC stream format and
/// `metadata_json` the JSON text of the dataset's metadata.
#[derive(Debug, Clone)]
pub struct DatasetRegistration {
    pub coordinator_id: String,
    pub dataset_id: String,
    pub name: String,
    pub namespace: String,
    pub source_type: String,
    pub arrow_schema_ipc: Vec<u8>,
    pub metadata_json: String,
}

/// The registration of the configured coordinator.
pub fn register_request(cfg: &CoordinatorConfig) -> (r: RegisterRequest)
    ensures
        r.coordinator_id == cfg.coordinator.id,
        r.environment == cfg.coordinator.environment,
        r.hostname == cfg.coordinator.hostname,
        r.executor_endpoint == cfg.executor.endpoint,
{
    RegisterRequest {
        coordinator_id: cfg.coordinator.id.clone(),
        environment: cfg.coordinator.environment.clone(),
        hostname: cfg.coordinator.hostname.clone(),
        executor_endpoint: cfg.executor.endpoint.clone(),
    }
}

/// What `serde_json` renders a JSON object with these entries as.
pub uninterp spec fn json_object_text(entries: Seq<(Seq<char>, MetadataView)>) -> Seq<char>;

/// `serde_json::Value::to_string` on the JSON object holding the entries.
#[verifier::external_body]
fn render_metadata(entries: &Vec<(String, MetadataValue)>) -> (r: String)
    ensures
        r@ == json_object_text(entries_view(entries@)),
{
    let object: serde_json::Map<String, serde_json::Value> = entries.iter().map(|(k, v)| (k.clone(), match v {
        MetadataValue::Text(s) => serde_json::Value::from(s.clone()),
        MetadataValue::Flag(b) => serde_json::Value::from(*b),
        MetadataValue::Number(n) => serde_json::Value::from(*n),
    })).collect();
    serde_json::Value::Object(object).to_string()
}

/// The registration of a dataset under a fresh random id, with the schema
/// inferred for it.
pub fn to_registration(cfg: &DatasetConfig, coordinator_id: &str, schema_ipc: Vec<u8>) -> (r: DatasetRegistration)
    ensures
        r.coordinator_id@ == coordinator_id@,
        exists|id: u128| is_v4_uuid(id) && r.dataset_id@ == uuid_text(id),
        r.name@ == config_name(*cfg)@,
        r.namespace@ == config_namespace(*cfg)@,
        r.source_type@ == config_source_type(*cfg),
        r.arrow_schema_ipc == schema_ipc,
        r.metadata_json@ == json_object_text(config_metadata(*cfg)),
{
    proof {
        broadcast use vstd::string::group_string_axioms;
    }
    let id = new_uuid_v4();
    let dataset_id = uuid_to_text(id);
    let entries = cfg.metadata_json();
    DatasetRegistration {
        coordinator_id: coordinator_id.to_string(),
        dataset_id,
        name: cfg.name().to_string(),
        namespace: cfg.namespace().to_string(),
        source_type: cfg.source_type().to_string(),
        arrow_schema_ipc: schema_ipc,
        metadata_json: render_metadata(&entries),
    }
}

} // verus!
