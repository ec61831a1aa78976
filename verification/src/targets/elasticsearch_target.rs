//! The Elasticsearch restore target.

use vstd::prelude::*;
use vstd::string::*;
use crate::text::{concat2, has_prefix, starts_with};
use crate::ui::models::ElasticsearchConfig;

verus! {

/// Elasticsearch restore target.
#[derive(Debug)]
pub struct ElasticsearchRestoreTarget {
    pub config: ElasticsearchConfig,
}

/// Does a host name a URL with an HTTP or HTTPS scheme?
pub open spec fn is_http_url(host: Seq<char>) -> bool {
    has_prefix(host, "http://"@) || has_prefix(host, "https://"@)
}

/// `host.starts_with("http://") || host.starts_with("https://")`.
pub fn check_http_url(host: &str) -> (r: bool)
    ensures
        r == is_http_url(host@),
{
    starts_with(host, "http://") || starts_with(host, "https://")
}

impl ElasticsearchRestoreTarget {
    /// The name of this restore target type.
    pub fn name(&self) -> (r: &'static str)
        ensures
            r@ == "Elasticsearch"@,
    {
        "Elasticsearch"
    }

    /// An Elasticsearch target is configured when its host and index are set.
    pub fn is_configured(&self) -> (r: bool)
        ensures
            r == (self.config.host is Some && self.config.index is Some),
    {
        self.config.host.is_some() && self.config.index.is_some()
    }

    /// The configuration fields an Elasticsearch target requires.
    pub fn required_fields(&self) -> (r: Vec<&'static str>)
        ensures
            r@.map_values(|s: &str| s@) == seq!["host"@, "index"@],
    {
        let r = vec!["host", "index"];
        assert(r@.map_values(|s: &str| s@) =~= seq!["host"@, "index"@]);
        r
    }

    /// The host and index a restore writes to; both are required.
    pub fn restore_request(&self) -> (r: Result<(String, String), String>)
        ensures
            self.config.host is None ==> r is Err && r->Err_0@ == "Elasticsearch host not specified"@,
            self.config.host is Some && self.config.index is None ==> r is Err && r->Err_0@
                == "Elasticsearch index not specified"@,
            self.config.host is Some && self.config.index is Some ==> r == Ok::<(String, String), String>(
                (self.config.host->Some_0, self.config.index->Some_0),
            ),
    {
        let host = match &self.config.host {
            Some(h) => h.clone(),
            None => return Err(String::from_str("Elasticsearch host not specified")),
        };
        let index = match &self.config.index {
            Some(i) => i.clone(),
            None => return Err(String::from_str("Elasticsearch index not specified")),
        };
        Ok((host, index))
    }

    /// The outcome of a restore into `index`, given whether it succeeded.
    pub fn restore_outcome(index: &str, result: Result<(), String>) -> (r: Result<String, String>)
        ensures
            match result {
                Ok(()) => r is Ok && r->Ok_0@ == "Successfully restored to index: "@ + index@,
                Err(e) => r is Err && r->Err_0@ == "Failed to restore to Elasticsearch: "@ + e@,
            },
    {
        match result {
            Ok(()) => Ok(concat2("Successfully restored to index: ", index)),
            Err(e) => Err(concat2("Failed to restore to Elasticsearch: ", e.as_str())),
        }
    }

    /// Test the connection settings: a host is required, and it must be an
    /// HTTP or HTTPS URL.
    pub fn test_connection(&self) -> (r: Result<String, String>)
        ensures
            self.config.host is None ==> r is Err && r->Err_0@ == "Elasticsearch host not specified"@,
            self.config.host is Some && is_http_url(self.config.host->Some_0@) ==> r is Ok && r->Ok_0@
                == "Successfully connected to Elasticsearch at "@ + self.config.host->Some_0@,
            self.config.host is Some && !is_http_url(self.config.host->Some_0@) ==> r is Err
                && r->Err_0@ == "Invalid Elasticsearch host URL: "@ + self.config.host->Some_0@,
    {
        let host = match &self.config.host {
            Some(h) => h,
            None => return Err(String::from_str("Elasticsearch host not specified")),
        };
        if check_http_url(host.as_str()) {
            Ok(concat2("Successfully connected to Elasticsearch at ", host.as_str()))
        } else {
            Err(concat2("Invalid Elasticsearch host URL: ", host.as_str()))
        }
    }
}

} // verus!
