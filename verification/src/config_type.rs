//! The crawler's configuration file, as plain data.
use vstd::prelude::*;

verus! {

#[derive(Debug)]
pub struct MongoDBCollectionNames {
    pub posts: String,
    pub replies: String,
}

#[derive(Debug)]
pub struct MongoDBConfigure {
    pub uri: String,
    pub database: String,
    pub collections: MongoDBCollectionNames,
}

/// A user whose posts are crawled.
#[derive(Debug)]
pub struct SourceStruct {
    pub name: String,
    pub id: u64,
}

#[derive(Debug)]
pub struct Configure {
    pub headless: bool,
    pub browser_data_path: String,
    pub runtime_db_name: String,
    pub skip_recently_fetched_days: i32,
    pub exclude_fetched: bool,
    pub mongodb: MongoDBConfigure,
    pub sources: Vec<SourceStruct>,
}

} // verus!
