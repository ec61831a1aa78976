//! Restore targets: PostgreSQL, Elasticsearch and Qdrant.

use vstd::prelude::*;

pub mod postgres_target;
pub mod elasticsearch_target;
pub mod qdrant_target;

pub use postgres_target::PostgresRestoreTarget;
pub use elasticsearch_target::ElasticsearchRestoreTarget;
pub use qdrant_target::QdrantRestoreTarget;

use crate::ui::models::{ElasticsearchConfig, PostgresConfig, QdrantConfig, RestoreTarget};

verus! {

/// One restore target, of whichever type.
#[derive(Debug)]
pub enum AnyRestoreTarget {
    Postgres(PostgresRestoreTarget),
    Elasticsearch(ElasticsearchRestoreTarget),
    Qdrant(QdrantRestoreTarget),
}

/// Create the restore target of the given type from its configuration.
pub fn create_restore_target(
    target_type: RestoreTarget,
    pg_config: PostgresConfig,
    es_config: ElasticsearchConfig,
    qdrant_config: QdrantConfig,
) -> (r: AnyRestoreTarget)
    ensures
        match target_type {
            RestoreTarget::Postgres => r == AnyRestoreTarget::Postgres(
                PostgresRestoreTarget { config: pg_config },
            ),
            RestoreTarget::Elasticsearch => r == AnyRestoreTarget::Elasticsearch(
                ElasticsearchRestoreTarget { config: es_config },
            ),
            RestoreTarget::Qdrant => r == AnyRestoreTarget::Qdrant(
                QdrantRestoreTarget { config: qdrant_config },
            ),
        },
{
    match target_type {
        RestoreTarget::Postgres => AnyRestoreTarget::Postgres(PostgresRestoreTarget { config: pg_config }),
        RestoreTarget::Elasticsearch => AnyRestoreTarget::Elasticsearch(
            ElasticsearchRestoreTarget { config: es_config },
        ),
        RestoreTarget::Qdrant => AnyRestoreTarget::Qdrant(QdrantRestoreTarget { config: qdrant_config }),
    }
}

} // verus!
