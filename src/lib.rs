//! A small store of todos: the data model, the minting of ids, the decisions
//! that each request makes on what the storage answers, and a model of the
//! table against which the behaviour of whole request sequences is proved.

pub mod handlers;
pub mod id;
pub mod table;
pub mod todo;
