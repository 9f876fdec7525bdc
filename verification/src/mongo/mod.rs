pub mod mongo_entity_storage;

pub use mongo_entity_storage::{
    feed_match_fields, get_id_from_change_event, translate_change_event, MongoContractViolationError, MongoEntity,
    MongoEntityStorage, MongoFilter, watched_operations,
};
