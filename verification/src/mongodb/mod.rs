pub mod mongodb_store;

pub use mongodb_store::{
    get_id_from_change_event, translate_change_event, MongoDBContractViolationError, MongoDBStore,
};
