//! Data-access core of a classroom navigation directory.
//!
//! Given the name of a classroom, the directory returns its description and
//! the images that show the way to it; given nothing, the names of all
//! classrooms. Classrooms and images are loaded from two JSON payloads into
//! two record stores, and a classroom's image references are resolved
//! against the image store when the classroom is asked for.
//!
//! The library performs no input or output. [`mongo_client`] holds the
//! directory, which tells its caller what to do with the record store and
//! answers reads from what the store returned; [`store`] states what a
//! reload leaves in a store that does as it is told. [`resolve`] is the join
//! of classrooms and images, [`records`] the records and their JSON forms,
//! [`json`] the JSON documents that `serde_json` reads and writes, and
//! [`server`] the configuration of the service and its replies.

pub mod error;
pub mod json;
pub mod mongo_client;
pub mod records;
pub mod resolve;
pub mod search;
pub mod server;
pub mod store;
