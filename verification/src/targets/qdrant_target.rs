//! The Qdrant restore target.

use vstd::prelude::*;
use vstd::string::*;
use crate::text::concat2;
use crate::targets::elasticsearch_target::{check_http_url, is_http_url};
use crate::ui::models::QdrantConfig;
use crate::ui::models::postgres_config::clone_opt;

verus! {

/// Qdrant restore target.
#[derive(Debug)]
pub struct QdrantRestoreTarget {
    pub config: QdrantConfig,
}

impl QdrantRestoreTarget {
    /// The name of this restore target type.
    pub fn name(&self) -> (r: &'static str)
        ensures
            r@ == "Qdrant"@,
    {
        "Qdrant"
    }

    /// A Qdrant target is configured when its host and collection are set.
    pub fn is_configured(&self) -> (r: bool)
        ensures
            r == (self.config.host is Some && self.config.collection is Some),
    {
        self.config.host.is_some() && self.config.collection.is_some()
    }

    /// The configuration fields a Qdrant target requires.
    pub fn required_fields(&self) -> (r: Vec<&'static str>)
        ensures
            r@.map_values(|s: &str| s@) == seq!["host"@, "collection"@],
    {
        let r = vec!["host", "collection"];
        assert(r@.map_values(|s: &str| s@) =~= seq!["host"@, "collection"@]);
        r
    }

    /// The host, collection and API key a restore uses; host and collection
    /// are required.
    pub fn restore_request(&self) -> (r: Result<(String, String, Option<String>), String>)
        ensures
            self.config.host is None ==> r is Err && r->Err_0@ == "Qdrant host not specified"@,
            self.config.host is Some && self.config.collection is None ==> r is Err && r->Err_0@
                == "Qdrant collection not specified"@,
            self.config.host is Some && self.config.collection is Some ==> r == Ok::<
                (String, String, Option<String>),
                String,
            >((self.config.host->Some_0, self.config.collection->Some_0, self.config.api_key)),
    {
        let host = match &self.config.host {
            Some(h) => h.clone(),
            None => return Err(String::from_str("Qdrant host not specified")),
        };
        let collection = match &self.config.collection {
            Some(c) => c.clone(),
            None => return Err(String::from_str("Qdrant collection not specified")),
        };
        Ok((host, collection, clone_opt(&self.config.api_key)))
    }

    /// The outcome of a restore into `collection`, given whether it succeeded.
    pub fn restore_outcome(collection: &str, result: Result<(), String>) -> (r: Result<String, String>)
        ensures
            match result {
                Ok(()) => r is Ok && r->Ok_0@ == "Successfully restored to collection: "@ + collection@,
                Err(e) => r is Err && r->Err_0@ == "Failed to restore to Qdrant: "@ + e@,
            },
    {
        match result {
            Ok(()) => Ok(concat2("Successfully restored to collection: ", collection)),
            Err(e) => Err(concat2("Failed to restore to Qdrant: ", e.as_str())),
        }
    }

    /// Test the connection settings: a host is required, and it must be an
    /// HTTP or HTTPS URL; the message tells whether an API key is set.
    pub fn test_connection(&self) -> (r: Result<String, String>)
        ensures
            self.config.host is None ==> r is Err && r->Err_0@ == "Qdrant host not specified"@,
            self.config.host is Some && is_http_url(self.config.host->Some_0@) ==> r is Ok && r->Ok_0@
                == "Successfully connected to Qdrant at "@ + self.config.host->Some_0@ + (if self.config.api_key is Some {
                " with API key"@
            } else {
                ""@
            }),
            self.config.host is Some && !is_http_url(self.config.host->Some_0@) ==> r is Err
                && r->Err_0@ == "Invalid Qdrant host URL: "@ + self.config.host->Some_0@,
    {
        let host = match &self.config.host {
            Some(h) => h,
            None => return Err(String::from_str("Qdrant host not specified")),
        };
        let api_key_info = if self.config.api_key.is_some() {
            " with API key"
        } else {
            ""
        };
        if check_http_url(host.as_str()) {
            let mut m = String::from_str("Successfully connected to Qdrant at ");
            m.append(host.as_str());
            m.append(api_key_info);
            Ok(m)
        } else {
            Err(concat2("Invalid Qdrant host URL: ", host.as_str()))
        }
    }
}

} // verus!
