//! Command-line options and the configurations they stand for.

use vstd::prelude::*;
use vstd::string::*;
use crate::config::{DataStoreConfig, S3Config};
use crate::text::str_eq;
use crate::ui::models::s3_config::S3ConfigView;
use crate::ui::models::{opt_text, opt_view};

verus! {

/// Command-line options for rustored.
#[derive(Debug)]
pub struct Opt {
    pub bucket: String,
    pub prefix: Option<String>,
    pub region: Option<String>,
    pub access_key_id: String,
    pub secret_access_key: String,
    pub ds_type: String,
    pub ds_postgres_conn: Option<String>,
    pub ds_es_url: Option<String>,
    pub ds_es_user: Option<String>,
    pub ds_es_pass: Option<String>,
    pub ds_qdrant_url: Option<String>,
    pub ds_qdrant_api: Option<String>,
}

/// The error of a missing or unknown datastore setting, if any.
pub open spec fn datastore_error(o: Opt) -> Option<Seq<char>> {
    if o.ds_type@ == "postgres"@ {
        if o.ds_postgres_conn is None {
            Some("Missing DS_POSTGRES_CONN"@)
        } else {
            None
        }
    } else if o.ds_type@ == "elasticsearch"@ {
        if o.ds_es_url is None {
            Some("Missing DS_ES_URL"@)
        } else {
            None
        }
    } else if o.ds_type@ == "qdrant"@ {
        if o.ds_qdrant_url is None {
            Some("Missing DS_QDRANT_URL"@)
        } else {
            None
        }
    } else {
        Some("Unsupported DS_TYPE"@)
    }
}

impl Opt {
    /// Convert the options into the S3 configuration (a missing prefix or
    /// region is empty; no endpoint; virtual-hosted addressing) and the
    /// datastore configuration chosen by the datastore type, whose URL or
    /// connection string is required.
    pub fn into_configs(self) -> (r: Result<(S3Config, DataStoreConfig), String>)
        ensures
            match datastore_error(self) {
                Some(msg) => r is Err && r->Err_0@ == msg,
                None => r is Ok,
            },
            r is Ok ==> {
                let (s3, ds) = r->Ok_0;
                &&& s3@ == (S3ConfigView {
                    bucket: self.bucket@,
                    region: opt_text(opt_view(self.region)),
                    prefix: opt_text(opt_view(self.prefix)),
                    endpoint_url: Seq::empty(),
                    access_key_id: self.access_key_id@,
                    secret_access_key: self.secret_access_key@,
                    path_style: false,
                    error_message: None,
                    test_s3_button: false,
                })
                &&& self.ds_type@ == "postgres"@ ==> ds == DataStoreConfig::Postgres {
                    connection_string: self.ds_postgres_conn->Some_0,
                    tls: None,
                }
                &&& self.ds_type@ == "elasticsearch"@ ==> ds == DataStoreConfig::ElasticSearch {
                    url: self.ds_es_url->Some_0,
                    username: self.ds_es_user,
                    password: self.ds_es_pass,
                    tls: None,
                }
                &&& self.ds_type@ == "qdrant"@ ==> ds == DataStoreConfig::Qdrant {
                    url: self.ds_qdrant_url->Some_0,
                    api_key: self.ds_qdrant_api,
                    tls: None,
                }
            },
    {
        proof {
            reveal_strlit("postgres");
            reveal_strlit("elasticsearch");
            reveal_strlit("qdrant");
            assert("postgres"@.len() == 8);
            assert("elasticsearch"@.len() == 13);
            assert("qdrant"@.len() == 6);
        }
        let s3 = S3Config {
            bucket: self.bucket,
            prefix: match self.prefix {
                Some(p) => p,
                None => String::new(),
            },
            region: match self.region {
                Some(p) => p,
                None => String::new(),
            },
            path_style: false,
            endpoint_url: String::new(),
            access_key_id: self.access_key_id,
            secret_access_key: self.secret_access_key,
            error_message: None,
            test_s3_button: false,
        };
        let ds = if str_eq(self.ds_type.as_str(), "postgres") {
            match self.ds_postgres_conn {
                Some(c) => DataStoreConfig::Postgres { connection_string: c, tls: None },
                None => return Err(String::from_str("Missing DS_POSTGRES_CONN")),
            }
        } else if str_eq(self.ds_type.as_str(), "elasticsearch") {
            match self.ds_es_url {
                Some(u) => DataStoreConfig::ElasticSearch {
                    url: u,
                    username: self.ds_es_user,
                    password: self.ds_es_pass,
                    tls: None,
                },
                None => return Err(String::from_str("Missing DS_ES_URL")),
            }
        } else if str_eq(self.ds_type.as_str(), "qdrant") {
            match self.ds_qdrant_url {
                Some(u) => DataStoreConfig::Qdrant { url: u, api_key: self.ds_qdrant_api, tls: None },
                None => return Err(String::from_str("Missing DS_QDRANT_URL")),
            }
        } else {
            return Err(String::from_str("Unsupported DS_TYPE"));
        };
        Ok((s3, ds))
    }
}

} // verus!
