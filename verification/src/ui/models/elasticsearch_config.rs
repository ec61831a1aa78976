//! Configuration for the Elasticsearch restore target.

use vstd::prelude::*;
use crate::ui::models::{FocusField, opt_text, opt_view, es_fields, is_es_field, text_or_empty};
use crate::ui::models::postgres_config::clone_opt;

verus! {

/// Configuration for the Elasticsearch restore target.
#[derive(Debug, PartialEq)]
pub struct ElasticsearchConfig {
    pub host: Option<String>,
    pub index: Option<String>,
}

/// The contents of an [`ElasticsearchConfig`].
pub struct ElasticsearchConfigView {
    pub host: Option<Seq<char>>,
    pub index: Option<Seq<char>>,
}

impl View for ElasticsearchConfig {
    type V = ElasticsearchConfigView;

    open spec fn view(&self) -> ElasticsearchConfigView {
        ElasticsearchConfigView { host: opt_view(self.host), index: opt_view(self.index) }
    }
}

impl ElasticsearchConfigView {
    /// The text shown (and edited) for `field`; empty for fields of other panels.
    pub open spec fn field_value(self, field: FocusField) -> Seq<char> {
        match field {
            FocusField::EsHost => opt_text(self.host),
            FocusField::EsIndex => opt_text(self.index),
            _ => Seq::empty(),
        }
    }

    /// The configuration after `field` is set to `value`.
    pub open spec fn set_field(self, field: FocusField, value: Seq<char>) -> ElasticsearchConfigView {
        match field {
            FocusField::EsHost => ElasticsearchConfigView { host: Some(value), ..self },
            FocusField::EsIndex => ElasticsearchConfigView { index: Some(value), ..self },
            _ => self,
        }
    }
}

impl Clone for ElasticsearchConfig {
    fn clone(&self) -> (r: Self)
        ensures
            r == *self,
    {
        ElasticsearchConfig { host: clone_opt(&self.host), index: clone_opt(&self.index) }
    }
}

impl Default for ElasticsearchConfig {
    fn default() -> (r: Self)
        ensures
            r.host is None,
            r.index is None,
    {
        ElasticsearchConfig { host: None, index: None }
    }
}

impl ElasticsearchConfig {
    /// All focus fields of the Elasticsearch settings, in display order.
    pub fn focus_fields() -> (r: Vec<FocusField>)
        ensures
            r@ == es_fields(),
    {
        let r = vec![FocusField::EsHost, FocusField::EsIndex];
        assert(r@ =~= es_fields());
        r
    }

    /// The field value for a given focus field.
    pub fn get_field_value(&self, field: FocusField) -> (r: String)
        ensures
            r@ == self@.field_value(field),
    {
        match field {
            FocusField::EsHost => text_or_empty(&self.host),
            FocusField::EsIndex => text_or_empty(&self.index),
            _ => String::new(),
        }
    }

    /// Set a field value from a string.
    pub fn set_field_value(&mut self, field: FocusField, value: String)
        ensures
            final(self)@ == old(self)@.set_field(field, value@),
    {
        match field {
            FocusField::EsHost => self.host = Some(value),
            FocusField::EsIndex => self.index = Some(value),
            _ => {},
        }
    }

    /// Does a focus field belong to the Elasticsearch settings?
    pub fn contains_field(field: FocusField) -> (r: bool)
        ensures
            r == is_es_field(field),
    {
        match field {
            FocusField::EsHost | FocusField::EsIndex => true,
            _ => false,
        }
    }
}

/// Setting a field to the text it shows leaves the configuration unchanged,
/// when the field holds a value.
pub proof fn law_es_set_to_shown_value_is_identity(c: ElasticsearchConfigView, field: FocusField)
    requires
        field == FocusField::EsHost ==> c.host is Some,
        field == FocusField::EsIndex ==> c.index is Some,
    ensures
        c.set_field(field, c.field_value(field)) == c,
{
}

/// After a field is set, it shows exactly the text it was set to.
pub proof fn law_es_get_after_set(c: ElasticsearchConfigView, field: FocusField, value: Seq<char>)
    requires
        is_es_field(field),
    ensures
        c.set_field(field, value).field_value(field) == value,
{
}

/// The Elasticsearch settings own exactly the fields they list.
pub proof fn law_es_contains_iff_listed(field: FocusField)
    ensures
        is_es_field(field) <==> es_fields().contains(field),
{
    if is_es_field(field) {
        let i: int = if field == FocusField::EsHost {
            0
        } else {
            1
        };
        assert(es_fields()[i] == field);
    }
}

} // verus!
