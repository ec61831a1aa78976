//! Configuration for the Qdrant restore target.

use vstd::prelude::*;
use crate::ui::models::{FocusField, opt_text, opt_view, qdrant_fields, is_qdrant_field, text_or_empty};
use crate::ui::models::postgres_config::{clone_opt, masked_secret_display, secret_display};

verus! {

/// Configuration for the Qdrant restore target.
#[derive(Debug, PartialEq)]
pub struct QdrantConfig {
    pub host: Option<String>,
    pub collection: Option<String>,
    pub api_key: Option<String>,
}

/// The contents of a [`QdrantConfig`].
pub struct QdrantConfigView {
    pub host: Option<Seq<char>>,
    pub collection: Option<Seq<char>>,
    pub api_key: Option<Seq<char>>,
}

impl View for QdrantConfig {
    type V = QdrantConfigView;

    open spec fn view(&self) -> QdrantConfigView {
        QdrantConfigView {
            host: opt_view(self.host),
            collection: opt_view(self.collection),
            api_key: opt_view(self.api_key),
        }
    }
}

impl QdrantConfigView {
    /// The text shown (and edited) for `field`; the host and collection use
    /// the Elasticsearch fields.
    pub open spec fn field_value(self, field: FocusField) -> Seq<char> {
        match field {
            FocusField::EsHost => opt_text(self.host),
            FocusField::EsIndex => opt_text(self.collection),
            FocusField::QdrantApiKey => opt_text(self.api_key),
            _ => Seq::empty(),
        }
    }

    /// The configuration after `field` is set to `value`.
    pub open spec fn set_field(self, field: FocusField, value: Seq<char>) -> QdrantConfigView {
        match field {
            FocusField::EsHost => QdrantConfigView { host: Some(value), ..self },
            FocusField::EsIndex => QdrantConfigView { collection: Some(value), ..self },
            FocusField::QdrantApiKey => QdrantConfigView { api_key: Some(value), ..self },
            _ => self,
        }
    }
}

impl Clone for QdrantConfig {
    fn clone(&self) -> (r: Self)
        ensures
            r == *self,
    {
        QdrantConfig {
            host: clone_opt(&self.host),
            collection: clone_opt(&self.collection),
            api_key: clone_opt(&self.api_key),
        }
    }
}

impl Default for QdrantConfig {
    fn default() -> (r: Self)
        ensures
            r.host is None,
            r.collection is None,
            r.api_key is None,
    {
        QdrantConfig { host: None, collection: None, api_key: None }
    }
}

impl QdrantConfig {
    /// All focus fields of the Qdrant settings, in display order.
    pub fn focus_fields() -> (r: Vec<FocusField>)
        ensures
            r@ == qdrant_fields(),
    {
        let r = vec![FocusField::EsHost, FocusField::EsIndex, FocusField::QdrantApiKey];
        assert(r@ =~= qdrant_fields());
        r
    }

    /// The field value for a given focus field.
    pub fn get_field_value(&self, field: FocusField) -> (r: String)
        ensures
            r@ == self@.field_value(field),
    {
        match field {
            FocusField::EsHost => text_or_empty(&self.host),
            FocusField::EsIndex => text_or_empty(&self.collection),
            FocusField::QdrantApiKey => text_or_empty(&self.api_key),
            _ => String::new(),
        }
    }

    /// Set a field value from a string.
    pub fn set_field_value(&mut self, field: FocusField, value: String)
        ensures
            final(self)@ == old(self)@.set_field(field, value@),
    {
        match field {
            FocusField::EsHost => self.host = Some(value),
            FocusField::EsIndex => self.collection = Some(value),
            FocusField::QdrantApiKey => self.api_key = Some(value),
            _ => {},
        }
    }

    /// Does a focus field belong to the Qdrant settings?
    pub fn contains_field(field: FocusField) -> (r: bool)
        ensures
            r == is_qdrant_field(field),
    {
        match field {
            FocusField::EsHost | FocusField::EsIndex | FocusField::QdrantApiKey => true,
            _ => false,
        }
    }

    /// What the API key field shows: the key while it is edited, and
    /// `[hidden]` otherwise (nothing when the key is empty).
    pub fn api_key_display(&self, editing: bool) -> (r: String)
        ensures
            r@ == secret_display(self@.api_key, editing),
    {
        masked_secret_display(&self.api_key, editing)
    }
}

/// Setting a field to the text it shows leaves the configuration unchanged,
/// when the field holds a value.
pub proof fn law_qdrant_set_to_shown_value_is_identity(c: QdrantConfigView, field: FocusField)
    requires
        field == FocusField::EsHost ==> c.host is Some,
        field == FocusField::EsIndex ==> c.collection is Some,
        field == FocusField::QdrantApiKey ==> c.api_key is Some,
    ensures
        c.set_field(field, c.field_value(field)) == c,
{
}

/// The Qdrant settings own exactly the fields they list.
pub proof fn law_qdrant_contains_iff_listed(field: FocusField)
    ensures
        is_qdrant_field(field) <==> qdrant_fields().contains(field),
{
    if is_qdrant_field(field) {
        let i: int = match field {
            FocusField::EsHost => 0,
            FocusField::EsIndex => 1,
            _ => 2,
        };
        assert(qdrant_fields()[i] == field);
    }
}

/// After a field is set, it shows exactly the text it was set to (the API
/// key field shows it while it is edited).
pub proof fn law_qdrant_get_after_set(c: QdrantConfigView, field: FocusField, value: Seq<char>)
    requires
        is_qdrant_field(field),
    ensures
        c.set_field(field, value).field_value(field) == value,
{
}

} // verus!
