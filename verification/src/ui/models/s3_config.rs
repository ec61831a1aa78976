//! Configuration for the S3 connection.

use vstd::prelude::*;
use vstd::string::*;
use vstd::utf8::*;
use crate::text::{bool_text, bool_to_string, has_prefix, parse_bool, parse_bool_spec, repeat_char, stars, starts_with, law_parse_bool_of_text};
use crate::ui::models::{FocusField, PopupState, s3_fields};

verus! {

/// Configuration for the S3 connection.
#[derive(Debug)]
pub struct S3Config {
    pub bucket: String,
    pub region: String,
    pub prefix: String,
    pub endpoint_url: String,
    pub access_key_id: String,
    pub secret_access_key: String,
    pub path_style: bool,
    pub error_message: Option<String>,
    pub test_s3_button: bool,
}

/// The contents of an [`S3Config`], its texts as character sequences.
pub struct S3ConfigView {
    pub bucket: Seq<char>,
    pub region: Seq<char>,
    pub prefix: Seq<char>,
    pub endpoint_url: Seq<char>,
    pub access_key_id: Seq<char>,
    pub secret_access_key: Seq<char>,
    pub path_style: bool,
    pub error_message: Option<Seq<char>>,
    pub test_s3_button: bool,
}

impl View for S3Config {
    type V = S3ConfigView;

    open spec fn view(&self) -> S3ConfigView {
        S3ConfigView {
            bucket: self.bucket@,
            region: self.region@,
            prefix: self.prefix@,
            endpoint_url: self.endpoint_url@,
            access_key_id: self.access_key_id@,
            secret_access_key: self.secret_access_key@,
            path_style: self.path_style,
            error_message: crate::ui::models::opt_view(self.error_message),
            test_s3_button: self.test_s3_button,
        }
    }
}

impl S3ConfigView {
    /// The text shown (and edited) for `field`; empty for fields of other panels.
    pub open spec fn field_value(self, field: FocusField) -> Seq<char> {
        match field {
            FocusField::Bucket => self.bucket,
            FocusField::Region => self.region,
            FocusField::Prefix => self.prefix,
            FocusField::EndpointUrl => self.endpoint_url,
            FocusField::AccessKeyId => self.access_key_id,
            FocusField::SecretAccessKey => self.secret_access_key,
            FocusField::PathStyle => bool_text(self.path_style),
            _ => Seq::empty(),
        }
    }

    /// The configuration after `field` is set from the text `value`; the path
    /// style is on only for the text `true`, and fields of other panels are ignored.
    pub open spec fn set_field(self, field: FocusField, value: Seq<char>) -> S3ConfigView {
        match field {
            FocusField::Bucket => S3ConfigView { bucket: value, ..self },
            FocusField::Region => S3ConfigView { region: value, ..self },
            FocusField::Prefix => S3ConfigView { prefix: value, ..self },
            FocusField::EndpointUrl => S3ConfigView { endpoint_url: value, ..self },
            FocusField::AccessKeyId => S3ConfigView { access_key_id: value, ..self },
            FocusField::SecretAccessKey => S3ConfigView { secret_access_key: value, ..self },
            FocusField::PathStyle => S3ConfigView {
                path_style: parse_bool_spec(value) == Some(true),
                ..self
            },
            _ => self,
        }
    }
}

impl Clone for S3Config {
    fn clone(&self) -> (r: Self)
        ensures
            r == *self,
    {
        S3Config {
            bucket: self.bucket.clone(),
            region: self.region.clone(),
            prefix: self.prefix.clone(),
            endpoint_url: self.endpoint_url.clone(),
            access_key_id: self.access_key_id.clone(),
            secret_access_key: self.secret_access_key.clone(),
            path_style: self.path_style,
            error_message: match &self.error_message {
                Some(m) => Some(m.clone()),
                None => None,
            },
            test_s3_button: self.test_s3_button,
        }
    }
}

impl Default for S3Config {
    fn default() -> (r: Self)
        ensures
            r@ == (S3ConfigView {
                bucket: "my-bucket"@,
                region: "us-west-2"@,
                prefix: Seq::empty(),
                endpoint_url: Seq::empty(),
                access_key_id: Seq::empty(),
                secret_access_key: Seq::empty(),
                path_style: false,
                error_message: None,
                test_s3_button: false,
            }),
    {
        S3Config {
            bucket: String::from_str("my-bucket"),
            region: String::from_str("us-west-2"),
            prefix: String::new(),
            endpoint_url: String::new(),
            access_key_id: String::new(),
            secret_access_key: String::new(),
            path_style: false,
            error_message: None,
            test_s3_button: false,
        }
    }
}

/// The settings an S3 client is built from.
pub struct S3ClientSettings {
    pub region: String,
    /// Access key id and secret, when both are given.
    pub credentials: Option<(String, String)>,
    /// The endpoint to use instead of AWS's, with a scheme.
    pub endpoint_url: Option<String>,
    pub force_path_style: bool,
}

/// The endpoint a client is pointed at: none for an empty setting, the
/// setting itself when it starts with `http`, else the setting behind `http://`.
pub open spec fn endpoint_for(endpoint: Seq<char>) -> Option<Seq<char>> {
    if endpoint.len() == 0 {
        None
    } else if has_prefix(endpoint, "http"@) {
        Some(endpoint)
    } else {
        Some("http://"@ + endpoint)
    }
}

/// The endpoint used: none when empty; an endpoint whose text starts with
/// `http` (so `http://` or `https://`) as it is; any other gets `http://`
/// put in front.
pub proof fn law_endpoint_scheme(e: Seq<char>)
    ensures
        e.len() == 0 ==> endpoint_for(e) is None,
        e.len() >= 4 && e.subrange(0, 4) == seq!['h', 't', 't', 'p'] ==> endpoint_for(e) == Some(e),
        e.len() > 0 && !(e.len() >= 4 && e.subrange(0, 4) == seq!['h', 't', 't', 'p']) ==> endpoint_for(e)
            == Some(seq!['h', 't', 't', 'p', ':', '/', '/'] + e),
{
    reveal_strlit("http");
    reveal_strlit("http://");
    assert("http"@ =~= seq!['h', 't', 't', 'p']);
    assert("http://"@ =~= seq!['h', 't', 't', 'p', ':', '/', '/']);
}

/// The error that settings verification reports, if any.
pub open spec fn settings_error(c: S3ConfigView) -> Option<Seq<char>> {
    if c.bucket.len() == 0 {
        Some("Bucket name is required"@)
    } else if c.region.len() == 0 {
        Some("Region is required"@)
    } else {
        None
    }
}

/// What `mask_secret` shows of `s`: nothing for an empty secret, one `*` per
/// byte of a secret of at most four bytes, else its first four bytes followed
/// by one `*` per remaining byte.
pub open spec fn mask_secret_spec(s: Seq<char>) -> Seq<char> {
    let b = encode_utf8(s);
    if s.len() == 0 {
        Seq::empty()
    } else if b.len() <= 4 {
        repeat_char('*', b.len())
    } else {
        decode_utf8(b.subrange(0, 4)) + repeat_char('*', (b.len() - 4) as nat)
    }
}

/// The message of a successful connection test that listed `names`.
pub open spec fn bucket_list_message(names: Seq<Seq<char>>) -> Seq<char> {
    "Successfully connected to S3!\nAvailable buckets: "@ + (if names.len() == 0 {
        "None"@
    } else {
        join(names, ", "@)
    })
}

/// `parts` joined with `sep` between consecutive parts.
pub open spec fn join(parts: Seq<Seq<char>>, sep: Seq<char>) -> Seq<char>
    decreases parts.len(),
{
    if parts.len() == 0 {
        Seq::empty()
    } else if parts.len() == 1 {
        parts[0]
    } else {
        join(parts.drop_last(), sep) + sep + parts.last()
    }
}

/// `names.join(sep)`.
pub fn join_strings(names: &Vec<String>, sep: &str) -> (r: String)
    ensures
        r@ == join(names@.map_values(|s: String| s@), sep@),
{
    let ghost parts = names@.map_values(|s: String| s@);
    let mut r = String::new();
    let mut i: usize = 0;
    while i < names.len()
        invariant
            i <= names.len(),
            parts == names@.map_values(|s: String| s@),
            r@ == join(parts.subrange(0, i as int), sep@),
        decreases names.len() - i,
    {
        let ghost before = parts.subrange(0, i as int);
        let ghost after = parts.subrange(0, i + 1);
        assert(after.drop_last() =~= before);
        if i > 0 {
            r.append(sep);
        }
        r.append(names[i].as_str());
        proof {
            if i == 0 {
                assert(r@ =~= after[0]);
            } else {
                assert(r@ =~= join(before, sep@) + sep@ + after.last());
            }
        }
        i = i + 1;
    }
    assert(parts.subrange(0, names.len() as int) =~= parts);
    r
}

impl S3Config {
    /// All focus fields of the S3 settings, in display order.
    pub fn focus_fields() -> (r: Vec<FocusField>)
        ensures
            r@ == s3_fields(),
    {
        let r = vec![
            FocusField::Bucket,
            FocusField::Region,
            FocusField::Prefix,
            FocusField::EndpointUrl,
            FocusField::AccessKeyId,
            FocusField::SecretAccessKey,
            FocusField::PathStyle,
        ];
        assert(r@ =~= s3_fields());
        r
    }

    /// The field value for a given focus field.
    pub fn get_field_value(&self, field: FocusField) -> (r: String)
        ensures
            r@ == self@.field_value(field),
    {
        match field {
            FocusField::Bucket => self.bucket.clone(),
            FocusField::Region => self.region.clone(),
            FocusField::Prefix => self.prefix.clone(),
            FocusField::EndpointUrl => self.endpoint_url.clone(),
            FocusField::AccessKeyId => self.access_key_id.clone(),
            FocusField::SecretAccessKey => self.secret_access_key.clone(),
            FocusField::PathStyle => bool_to_string(self.path_style),
            _ => String::new(),
        }
    }

    /// Set a field value from a string.
    pub fn set_field_value(&mut self, field: FocusField, value: String)
        ensures
            final(self)@ == old(self)@.set_field(field, value@),
    {
        match field {
            FocusField::Bucket => self.bucket = value,
            FocusField::Region => self.region = value,
            FocusField::Prefix => self.prefix = value,
            FocusField::EndpointUrl => self.endpoint_url = value,
            FocusField::AccessKeyId => self.access_key_id = value,
            FocusField::SecretAccessKey => self.secret_access_key = value,
            FocusField::PathStyle => {
                self.path_style = match parse_bool(value.as_str()) {
                    Some(b) => b,
                    None => false,
                };
            },
            _ => {},
        }
    }

    /// Does a focus field belong to the S3 settings?
    pub fn contains_field(field: FocusField) -> (r: bool)
        ensures
            r == crate::ui::models::is_s3_field(field),
    {
        match field {
            FocusField::Bucket | FocusField::Region | FocusField::Prefix | FocusField::EndpointUrl
            | FocusField::AccessKeyId | FocusField::SecretAccessKey | FocusField::PathStyle => true,
            _ => false,
        }
    }

    /// Verify S3 settings are valid: a bucket and a region are required.
    pub fn verify_settings(&self) -> (r: Result<(), String>)
        ensures
            match settings_error(self@) {
                Some(msg) => r is Err && r->Err_0@ == msg,
                None => r is Ok,
            },
    {
        if self.bucket.as_str().is_empty() {
            return Err(String::from_str("Bucket name is required"));
        }
        if self.region.as_str().is_empty() {
            return Err(String::from_str("Region is required"));
        }
        Ok(())
    }

    /// The settings an S3 client is built from: the region, the credentials
    /// when both keys are given, the endpoint (with `http://` added when it
    /// names no scheme), and path-style addressing.
    pub fn client_settings(&self) -> (r: Result<S3ClientSettings, String>)
        ensures
            match settings_error(self@) {
                Some(msg) => r is Err && r->Err_0@ == msg,
                None => r is Ok && {
                    let s = r->Ok_0;
                    &&& s.region@ == self.region@
                    &&& (self.access_key_id@.len() > 0 && self.secret_access_key@.len() > 0) ==> (
                    s.credentials is Some && s.credentials->Some_0.0@ == self.access_key_id@
                        && s.credentials->Some_0.1@ == self.secret_access_key@)
                    &&& !(self.access_key_id@.len() > 0 && self.secret_access_key@.len() > 0)
                        ==> s.credentials is None
                    &&& crate::ui::models::opt_view(s.endpoint_url) == endpoint_for(self.endpoint_url@)
                    &&& s.force_path_style == self.path_style
                },
            },
    {
        match self.verify_settings() {
            Err(e) => return Err(e),
            Ok(()) => {},
        }
        let credentials = if !self.access_key_id.as_str().is_empty()
            && !self.secret_access_key.as_str().is_empty() {
            Some((self.access_key_id.clone(), self.secret_access_key.clone()))
        } else {
            None
        };
        let endpoint_url = if self.endpoint_url.as_str().is_empty() {
            None
        } else if starts_with(self.endpoint_url.as_str(), "http") {
            Some(self.endpoint_url.clone())
        } else {
            let mut e = String::from_str("http://");
            e.append(self.endpoint_url.as_str());
            Some(e)
        };
        Ok(
            S3ClientSettings {
                region: self.region.clone(),
                credentials,
                endpoint_url,
                force_path_style: self.path_style,
            },
        )
    }

    /// The popup and error for a client that could not be set up.
    pub fn client_init_failed(error: &str) -> (r: (PopupState, String))
        ensures
            r.0 is Error,
            r.0->Error_0@ == "Failed to initialize S3 client: "@ + error@,
            r.1@ == r.0->Error_0@,
    {
        let mut msg = String::from_str("Failed to initialize S3 client: ");
        msg.append(error);
        (PopupState::Error(msg.clone()), msg)
    }

    /// The popup and result of a connection test, given the bucket names
    /// that were listed or the error of the listing.
    pub fn bucket_listing_result(listing: Result<Vec<String>, String>) -> (r: (
        PopupState,
        Result<(), String>,
    ))
        ensures
            match listing {
                Ok(names) => r.0 is TestS3Result && r.0->TestS3Result_0@ == bucket_list_message(
                    names@.map_values(|s: String| s@),
                ) && r.1 is Ok,
                Err(e) => r.0 is Error && r.0->Error_0@ == "Failed to connect to S3: "@ + e@
                    && r.1 is Err && r.1->Err_0@ == r.0->Error_0@,
            },
    {
        match listing {
            Ok(names) => {
                let mut msg = String::from_str("Successfully connected to S3!\nAvailable buckets: ");
                if names.len() == 0 {
                    msg.append("None");
                } else {
                    let joined = join_strings(&names, ", ");
                    msg.append(joined.as_str());
                }
                (PopupState::TestS3Result(msg), Ok(()))
            },
            Err(e) => {
                let mut msg = String::from_str("Failed to connect to S3: ");
                msg.append(e.as_str());
                (PopupState::Error(msg.clone()), Err(msg))
            },
        }
    }

    /// Masks a secret: its first four bytes stay visible and every further
    /// byte shows as `*`; a secret of at most four bytes is all `*`.
    pub fn mask_secret(&self, secret: &str) -> (r: String)
        requires
            secret.spec_bytes().len() <= 4 || is_char_boundary(secret.spec_bytes(), 4),
        ensures
            r@ == mask_secret_spec(secret@),
    {
        if secret.is_empty() {
            return String::new();
        }
        let n = secret.as_bytes().len();
        if n <= 4 {
            return stars(n);
        }
        let (head, _tail) = secret.split_at(4);
        let mut r = String::from_str(head);
        let rest = stars(n - 4);
        r.append(rest.as_str());
        proof {
            encode_utf8_decode_utf8(head@);
            assert(head@ == decode_utf8(head.spec_bytes()));
        }
        r
    }

    /// The access key id as displayed: masked by [`S3Config::mask_secret`].
    pub fn masked_access_key(&self) -> (r: String)
        requires
            encode_utf8(self.access_key_id@).len() <= 4 || is_char_boundary(
                encode_utf8(self.access_key_id@),
                4,
            ),
        ensures
            r@ == mask_secret_spec(self.access_key_id@),
    {
        self.mask_secret(self.access_key_id.as_str())
    }

    /// The secret access key fully masked: one `*` per byte.
    pub fn masked_secret_key(&self) -> (r: String)
        ensures
            r@ == repeat_char('*', encode_utf8(self.secret_access_key@).len()),
    {
        if self.secret_access_key.as_str().is_empty() {
            return String::new();
        }
        stars(self.secret_access_key.as_str().as_bytes().len())
    }

    /// The display text for the secret access key field: the edited text
    /// while editing, `[hidden]` otherwise.
    pub fn get_secret_key_display(&self, is_editing: bool, input_buffer: &str) -> (r: String)
        ensures
            is_editing ==> r@ == "Secret Access Key: "@ + input_buffer@,
            !is_editing ==> r@ == "Secret Access Key: [hidden]"@,
    {
        if is_editing {
            let mut r = String::from_str("Secret Access Key: ");
            r.append(input_buffer);
            r
        } else {
            String::from_str("Secret Access Key: [hidden]")
        }
    }
}

/// Setting a field to the text it shows leaves the configuration unchanged.
pub proof fn law_s3_set_to_shown_value_is_identity(c: S3ConfigView, field: FocusField)
    ensures
        c.set_field(field, c.field_value(field)) == c,
{
    law_parse_bool_of_text(c.path_style);
}

/// After a text field is set, it shows exactly the text it was set to.
pub proof fn law_s3_get_after_set(c: S3ConfigView, field: FocusField, value: Seq<char>)
    requires
        crate::ui::models::is_s3_field(field),
        field != FocusField::PathStyle,
    ensures
        c.set_field(field, value).field_value(field) == value,
{
}

/// The S3 settings own exactly the fields they list.
pub proof fn law_s3_contains_iff_listed(field: FocusField)
    ensures
        crate::ui::models::is_s3_field(field) <==> s3_fields().contains(field),
{
    if crate::ui::models::is_s3_field(field) {
        let i: int = match field {
            FocusField::Bucket => 0,
            FocusField::Region => 1,
            FocusField::Prefix => 2,
            FocusField::EndpointUrl => 3,
            FocusField::AccessKeyId => 4,
            FocusField::SecretAccessKey => 5,
            _ => 6,
        };
        assert(s3_fields()[i] == field);
    }
}

} // verus!
