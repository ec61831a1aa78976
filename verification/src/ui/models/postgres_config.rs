//! Configuration for the PostgreSQL connection.

use vstd::prelude::*;
use vstd::string::*;
use crate::text::{bool_text, bool_to_string, decimal, law_parse_u16_of_decimal, parse_u16, parse_u16_spec, str_eq, u16_to_string};
use crate::ui::models::{FocusField, opt_text, opt_view, pg_fields, is_pg_field, text_or_empty};

verus! {

/// Configuration for the PostgreSQL connection.
#[derive(Debug, PartialEq)]
pub struct PostgresConfig {
    pub host: Option<String>,
    pub port: Option<u16>,
    pub username: Option<String>,
    pub password: Option<String>,
    pub use_ssl: bool,
    pub db_name: Option<String>,
}

/// The contents of a [`PostgresConfig`], its texts as character sequences.
pub struct PostgresConfigView {
    pub host: Option<Seq<char>>,
    pub port: Option<u16>,
    pub username: Option<Seq<char>>,
    pub password: Option<Seq<char>>,
    pub use_ssl: bool,
    pub db_name: Option<Seq<char>>,
}

impl View for PostgresConfig {
    type V = PostgresConfigView;

    open spec fn view(&self) -> PostgresConfigView {
        PostgresConfigView {
            host: opt_view(self.host),
            port: self.port,
            username: opt_view(self.username),
            password: opt_view(self.password),
            use_ssl: self.use_ssl,
            db_name: opt_view(self.db_name),
        }
    }
}

/// The text a port is shown as (empty when unset).
pub open spec fn port_text(p: Option<u16>) -> Seq<char> {
    match p {
        Some(n) => decimal(n as nat),
        None => Seq::empty(),
    }
}

/// The texts that switch SSL on: `true` and `1`.
pub open spec fn ssl_on(value: Seq<char>) -> bool {
    value == "true"@ || value == "1"@
}

impl PostgresConfigView {
    /// The text shown (and edited) for `field`; empty for fields of other panels.
    pub open spec fn field_value(self, field: FocusField) -> Seq<char> {
        match field {
            FocusField::PgHost => opt_text(self.host),
            FocusField::PgPort => port_text(self.port),
            FocusField::PgUsername => opt_text(self.username),
            FocusField::PgPassword => opt_text(self.password),
            FocusField::PgSsl => bool_text(self.use_ssl),
            FocusField::PgDbName => opt_text(self.db_name),
            _ => Seq::empty(),
        }
    }

    /// The configuration after `field` is set from the text `value`: a port
    /// that does not parse becomes unset, and fields of other panels are ignored.
    pub open spec fn set_field(self, field: FocusField, value: Seq<char>) -> PostgresConfigView {
        match field {
            FocusField::PgHost => PostgresConfigView { host: Some(value), ..self },
            FocusField::PgPort => PostgresConfigView { port: parse_u16_spec(value), ..self },
            FocusField::PgUsername => PostgresConfigView { username: Some(value), ..self },
            FocusField::PgPassword => PostgresConfigView { password: Some(value), ..self },
            FocusField::PgSsl => PostgresConfigView { use_ssl: ssl_on(value), ..self },
            FocusField::PgDbName => PostgresConfigView { db_name: Some(value), ..self },
            _ => self,
        }
    }
}

/// What the password field shows: the password while it is being edited,
/// nothing for an empty password, else `[hidden]`.
pub open spec fn secret_display(secret: Option<Seq<char>>, editing: bool) -> Seq<char> {
    if editing {
        opt_text(secret)
    } else if opt_text(secret).len() == 0 {
        Seq::empty()
    } else {
        "[hidden]"@
    }
}

/// `secret.clone().unwrap_or_default()` when editing, else the masked text.
pub fn masked_secret_display(secret: &Option<String>, editing: bool) -> (r: String)
    ensures
        r@ == secret_display(opt_view(*secret), editing),
{
    let text = text_or_empty(secret);
    if editing {
        text
    } else if text.as_str().is_empty() {
        String::new()
    } else {
        String::from_str("[hidden]")
    }
}

impl Clone for PostgresConfig {
    fn clone(&self) -> (r: Self)
        ensures
            r == *self,
    {
        PostgresConfig {
            host: clone_opt(&self.host),
            port: self.port,
            username: clone_opt(&self.username),
            password: clone_opt(&self.password),
            use_ssl: self.use_ssl,
            db_name: clone_opt(&self.db_name),
        }
    }
}

/// An exact copy of an optional string.
pub fn clone_opt(o: &Option<String>) -> (r: Option<String>)
    ensures
        r == *o,
{
    match o {
        Some(s) => Some(s.clone()),
        None => None,
    }
}

impl Default for PostgresConfig {
    fn default() -> (r: Self)
        ensures
            r.host is None,
            r.port is None,
            r.username is None,
            r.password is None,
            !r.use_ssl,
            r.db_name is None,
    {
        PostgresConfig {
            host: None,
            port: None,
            username: None,
            password: None,
            use_ssl: false,
            db_name: None,
        }
    }
}

impl PostgresConfig {
    /// All focus fields of the PostgreSQL settings, in display order.
    pub fn focus_fields() -> (r: Vec<FocusField>)
        ensures
            r@ == pg_fields(),
    {
        let r = vec![
            FocusField::PgHost,
            FocusField::PgPort,
            FocusField::PgUsername,
            FocusField::PgPassword,
            FocusField::PgSsl,
            FocusField::PgDbName,
        ];
        assert(r@ =~= pg_fields());
        r
    }

    /// The field value for a given focus field.
    pub fn get_field_value(&self, field: FocusField) -> (r: String)
        ensures
            r@ == self@.field_value(field),
    {
        match field {
            FocusField::PgHost => text_or_empty(&self.host),
            FocusField::PgPort => match self.port {
                Some(p) => u16_to_string(p),
                None => String::new(),
            },
            FocusField::PgUsername => text_or_empty(&self.username),
            FocusField::PgPassword => text_or_empty(&self.password),
            FocusField::PgSsl => bool_to_string(self.use_ssl),
            FocusField::PgDbName => text_or_empty(&self.db_name),
            _ => String::new(),
        }
    }

    /// Set a field value from a string.
    pub fn set_field_value(&mut self, field: FocusField, value: String)
        ensures
            final(self)@ == old(self)@.set_field(field, value@),
    {
        match field {
            FocusField::PgHost => self.host = Some(value),
            FocusField::PgPort => self.port = parse_u16(value.as_str()),
            FocusField::PgUsername => self.username = Some(value),
            FocusField::PgPassword => self.password = Some(value),
            FocusField::PgSsl => {
                proof {
                    reveal_strlit("true");
                    reveal_strlit("1");
                }
                self.use_ssl = str_eq(value.as_str(), "true") || str_eq(value.as_str(), "1");
            },
            FocusField::PgDbName => self.db_name = Some(value),
            _ => {},
        }
    }

    /// Does a focus field belong to the PostgreSQL settings?
    pub fn contains_field(field: FocusField) -> (r: bool)
        ensures
            r == is_pg_field(field),
    {
        match field {
            FocusField::PgHost | FocusField::PgPort | FocusField::PgUsername
            | FocusField::PgPassword | FocusField::PgSsl | FocusField::PgDbName => true,
            _ => false,
        }
    }

    /// What the password field shows: the password while it is edited, and
    /// `[hidden]` otherwise (nothing when the password is empty).
    pub fn password_display(&self, editing: bool) -> (r: String)
        ensures
            r@ == secret_display(self@.password, editing),
    {
        masked_secret_display(&self.password, editing)
    }
}

/// Setting a field to the text it shows leaves the configuration unchanged,
/// when the field holds a value.
pub proof fn law_pg_set_to_shown_value_is_identity(c: PostgresConfigView, field: FocusField)
    requires
        field == FocusField::PgHost ==> c.host is Some,
        field == FocusField::PgUsername ==> c.username is Some,
        field == FocusField::PgPassword ==> c.password is Some,
        field == FocusField::PgDbName ==> c.db_name is Some,
    ensures
        c.set_field(field, c.field_value(field)) == c,
{
    reveal_strlit("true");
    reveal_strlit("1");
    if field == FocusField::PgPort {
        match c.port {
            Some(p) => law_parse_u16_of_decimal(p),
            None => {},
        }
    }
    if field == FocusField::PgSsl {
        assert(bool_text(false) != "true"@) by {
            assert(bool_text(false).len() != "true"@.len());
        }
        assert(bool_text(false) != "1"@) by {
            assert(bool_text(false).len() != "1"@.len());
        }
        assert(bool_text(true) =~= "true"@);
    }
}

/// The PostgreSQL settings own exactly the fields they list.
pub proof fn law_pg_contains_iff_listed(field: FocusField)
    ensures
        is_pg_field(field) <==> pg_fields().contains(field),
{
    if is_pg_field(field) {
        let i: int = match field {
            FocusField::PgHost => 0,
            FocusField::PgPort => 1,
            FocusField::PgUsername => 2,
            FocusField::PgPassword => 3,
            FocusField::PgSsl => 4,
            _ => 5,
        };
        assert(pg_fields()[i] == field);
    }
}

/// Options of a PostgreSQL restore.
pub struct PostgresRestoreSettings {
    pub no_data: bool,
    pub no_schema: bool,
    pub no_owner: bool,
    pub no_comments: bool,
}

/// After a field is set from a text, it shows that text: always for the
/// host, user name, password and database; for the port when the text is a
/// port number written the way it is shown; for SSL when the text is `true`
/// or `false`.
pub proof fn law_pg_get_after_set(c: PostgresConfigView, field: FocusField, value: Seq<char>)
    requires
        is_pg_field(field),
        field == FocusField::PgPort ==> exists|p: u16| value == decimal(p as nat),
        field == FocusField::PgSsl ==> value == bool_text(true) || value == bool_text(false),
    ensures
        c.set_field(field, value).field_value(field) == value,
{
    if field == FocusField::PgPort {
        let p = choose|p: u16| value == decimal(p as nat);
        law_parse_u16_of_decimal(p);
    }
    if field == FocusField::PgSsl {
        reveal_strlit("true");
        reveal_strlit("1");
        assert(bool_text(false) != "true"@) by {
            assert(bool_text(false).len() != "true"@.len());
        }
        assert(bool_text(false) != "1"@) by {
            assert(bool_text(false).len() != "1"@.len());
        }
        assert(bool_text(true) =~= "true"@);
    }
}

} // verus!
