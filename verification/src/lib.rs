pub mod connection;
pub mod error;
pub mod laws;
pub mod mongo_uri;

pub use error::PersistentMongoConnectionError;
pub use error::PersistentMongoError;
pub use mongo_uri::MongoUri;
