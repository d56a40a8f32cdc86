//! Database-scope options, and the database handle they configure.
use vstd::prelude::*;

use adbc_core::driver_manager::{ManagedConnection, ManagedDatabase};
use adbc_core::options::{OptionConnection, OptionValue};
use adbc_core::Database as _;

use crate::connection::Connection;
use crate::driver::{Driver, DriverError};
use crate::value::{
    entries_view, lookup_var, present, push_all, push_text, text_entry, var_value, Value,
};

verus! {

/// A builder for [`Database`]: named options, each absent by default, and
/// further entries passed through as they are.
#[derive(Clone)]
pub struct Builder {
    /// Authentication type ([`Self::AUTH_TYPE`]).
    pub auth_type: Option<String>,
    /// Credentials ([`Self::AUTH_CREDENTIALS`]).
    pub credentials: Option<String>,
    /// OAuth client ID ([`Self::AUTH_CLIENT_ID`]).
    pub client_id: Option<String>,
    /// OAuth client secret ([`Self::AUTH_CLIENT_SECRET`]).
    pub client_secret: Option<String>,
    /// OAuth refresh token ([`Self::AUTH_REFRESH_TOKEN`]).
    pub refresh_token: Option<String>,
    /// Project ID ([`Self::PROJECT_ID`]).
    pub project_id: Option<String>,
    /// Dataset ID ([`Self::DATASET_ID`]).
    pub dataset_id: Option<String>,
    /// Table ID ([`Self::TABLE_ID`]).
    pub table_id: Option<String>,
    /// Other options, emitted after the named ones in this order.
    pub other: Vec<(String, Value)>,
}

impl Builder {
    pub const AUTH_TYPE: &'static str = "adbc.bigquery.sql.auth_type";
    pub const AUTH_CREDENTIALS: &'static str = "adbc.bigquery.sql.auth_credentials";
    pub const AUTH_CLIENT_ID: &'static str = "adbc.bigquery.sql.auth.client_id";
    pub const AUTH_CLIENT_SECRET: &'static str = "adbc.bigquery.sql.auth.client_secret";
    pub const AUTH_REFRESH_TOKEN: &'static str = "adbc.bigquery.sql.auth.refresh_token";
    pub const PROJECT_ID: &'static str = "adbc.bigquery.sql.project_id";
    pub const DATASET_ID: &'static str = "adbc.bigquery.sql.dataset_id";
    pub const TABLE_ID: &'static str = "adbc.bigquery.sql.table_id";

    /// Environment variable for [`Self::auth_type`].
    pub const AUTH_TYPE_ENV: &'static str = "ADBC_BIGQUERY_AUTH_TYPE";
    /// Environment variable for [`Self::credentials`].
    pub const AUTH_CREDENTIALS_ENV: &'static str = "ADBC_BIGQUERY_AUTH_CREDENTIALS";
    /// Environment variable for [`Self::client_id`].
    pub const AUTH_CLIENT_ID_ENV: &'static str = "ADBC_BIGQUERY_AUTH_CLIENT_ID";
    /// Environment variable for [`Self::client_secret`].
    pub const AUTH_CLIENT_SECRET_ENV: &'static str = "ADBC_BIGQUERY_AUTH_CLIENT_SECRET";
    /// Environment variable for [`Self::refresh_token`].
    pub const AUTH_REFRESH_TOKEN_ENV: &'static str = "ADBC_BIGQUERY_AUTH_REFRESH_TOKEN";
    /// Environment variable for [`Self::project_id`].
    pub const PROJECT_ID_ENV: &'static str = "ADBC_BIGQUERY_PROJECT_ID";
    /// Environment variable for [`Self::dataset_id`].
    pub const DATASET_ID_ENV: &'static str = "ADBC_BIGQUERY_DATASET_ID";
    /// Environment variable for [`Self::table_id`].
    pub const TABLE_ID_ENV: &'static str = "ADBC_BIGQUERY_TABLE_ID";

    /// The entries of the named fields that are present, in declared order.
    pub open spec fn named_options(self) -> Seq<(Seq<char>, Value)> {
        text_entry(Self::AUTH_TYPE@, self.auth_type)
            + text_entry(Self::AUTH_CREDENTIALS@, self.credentials)
            + text_entry(Self::AUTH_CLIENT_ID@, self.client_id)
            + text_entry(Self::AUTH_CLIENT_SECRET@, self.client_secret)
            + text_entry(Self::AUTH_REFRESH_TOKEN@, self.refresh_token)
            + text_entry(Self::PROJECT_ID@, self.project_id)
            + text_entry(Self::DATASET_ID@, self.dataset_id)
            + text_entry(Self::TABLE_ID@, self.table_id)
    }

    /// The option list that the builder stands for: the named entries, then
    /// the other entries in insertion order.
    pub open spec fn options(self) -> Seq<(Seq<char>, Value)> {
        self.named_options() + entries_view(self.other@)
    }

    /// How many named fields are present.
    pub open spec fn present_count(self) -> nat {
        present(self.auth_type) + present(self.credentials) + present(self.client_id)
            + present(self.client_secret) + present(self.refresh_token) + present(
            self.project_id,
        ) + present(self.dataset_id) + present(self.table_id)
    }

    /// Whether no named field is present and there are no other entries.
    pub open spec fn is_blank(self) -> bool {
        &&& self.auth_type is None
        &&& self.credentials is None
        &&& self.client_id is None
        &&& self.client_secret is None
        &&& self.refresh_token is None
        &&& self.project_id is None
        &&& self.dataset_id is None
        &&& self.table_id is None
        &&& self.other@.len() == 0
    }

    /// Constructs a builder from environment variables, given as (name, value)
    /// pairs: each named field takes the value of its variable, if set.
    pub fn from_vars(vars: &Vec<(String, String)>) -> (r: Builder)
        ensures
            r.auth_type == var_value(vars@, Self::AUTH_TYPE_ENV@),
            r.credentials == var_value(vars@, Self::AUTH_CREDENTIALS_ENV@),
            r.client_id == var_value(vars@, Self::AUTH_CLIENT_ID_ENV@),
            r.client_secret == var_value(vars@, Self::AUTH_CLIENT_SECRET_ENV@),
            r.refresh_token == var_value(vars@, Self::AUTH_REFRESH_TOKEN_ENV@),
            r.project_id == var_value(vars@, Self::PROJECT_ID_ENV@),
            r.dataset_id == var_value(vars@, Self::DATASET_ID_ENV@),
            r.table_id == var_value(vars@, Self::TABLE_ID_ENV@),
            r.other@.len() == 0,
    {
        Builder {
            auth_type: lookup_var(vars, Self::AUTH_TYPE_ENV),
            credentials: lookup_var(vars, Self::AUTH_CREDENTIALS_ENV),
            client_id: lookup_var(vars, Self::AUTH_CLIENT_ID_ENV),
            client_secret: lookup_var(vars, Self::AUTH_CLIENT_SECRET_ENV),
            refresh_token: lookup_var(vars, Self::AUTH_REFRESH_TOKEN_ENV),
            project_id: lookup_var(vars, Self::PROJECT_ID_ENV),
            dataset_id: lookup_var(vars, Self::DATASET_ID_ENV),
            table_id: lookup_var(vars, Self::TABLE_ID_ENV),
            other: Vec::new(),
        }
    }

    /// Converts the builder into its ordered option list: one entry per
    /// present named field in declared order, then the other entries.
    pub fn into_options(self) -> (r: Vec<(String, Value)>)
        ensures
            entries_view(r@) == self.options(),
    {
        let mut out: Vec<(String, Value)> = Vec::new();
        proof {
            assert(entries_view(out@) =~= Seq::empty());
        }
        push_text(&mut out, Self::AUTH_TYPE, self.auth_type);
        push_text(&mut out, Self::AUTH_CREDENTIALS, self.credentials);
        push_text(&mut out, Self::AUTH_CLIENT_ID, self.client_id);
        push_text(&mut out, Self::AUTH_CLIENT_SECRET, self.client_secret);
        push_text(&mut out, Self::AUTH_REFRESH_TOKEN, self.refresh_token);
        push_text(&mut out, Self::PROJECT_ID, self.project_id);
        push_text(&mut out, Self::DATASET_ID, self.dataset_id);
        push_text(&mut out, Self::TABLE_ID, self.table_id);
        push_all(&mut out, self.other);
        proof {
            assert(entries_view(out@) =~= self.options());
        }
        out
    }
}

impl Builder {
    /// Builds a [`Database`] with this builder's options, using `driver`.
    /// The builder is consumed and cannot be used again.
    pub fn build(self, driver: &mut Driver) -> (r: Result<Database, DriverError>)
        ensures
            *final(driver) == *old(driver),
            r matches Ok(db) ==> db.options() == self.options(),
            r matches Err(e) ==> e is Driver,
    {
        let opts = self.into_options();
        driver.new_database_with_opts(opts)
    }
}

/// The option list of a builder holds one entry per present named field, in
/// declared order, then every other entry in insertion order.
pub proof fn lemma_options_layout(b: Builder)
    ensures
        b.named_options().len() == b.present_count(),
        b.options().len() == b.present_count() + b.other@.len(),
        b.options().take(b.present_count() as int) == b.named_options(),
        b.options().skip(b.present_count() as int) == entries_view(b.other@),
{
    assert(b.options().take(b.present_count() as int) =~= b.named_options());
    assert(b.options().skip(b.present_count() as int) =~= entries_view(b.other@));
}

/// A builder with no named field present and no other entries yields no options.
pub proof fn lemma_blank_has_no_options(b: Builder)
    requires
        b.is_blank(),
    ensures
        b.options().len() == 0,
{
    lemma_options_layout(b);
}

/// Relies on `<ManagedDatabase as adbc_core::Database>::new_connection_with_opts`:
/// creates a connection, sets the options on it in order and initializes it.
/// The database value itself is left as it was (it only reads its shared state).
/// A connection that is created is recorded with the options it was given.
#[verifier::external_body]
fn create_connection(database: &mut ManagedDatabase, opts: Vec<(String, Value)>) -> (r: Result<
    Connection,
    adbc_core::error::Error,
>)
    ensures
        *final(database) == *old(database),
        r matches Ok(c) ==> c.options() == entries_view(opts@),
{
    let options = Ghost(entries_view(opts@));
    let opts = opts.into_iter().map(|(key, value)| {
        let value = match value {
            Value::String(s) => OptionValue::String(s),
            Value::Bytes(b) => OptionValue::Bytes(b),
            Value::Int(n) => OptionValue::Int(n),
        };
        (OptionConnection::from(key.as_str()), value)
    });
    let inner = database.new_connection_with_opts(opts)?;
    Ok(Connection { inner, options })
}

/// A BigQuery database, created by a [`Driver`].
pub struct Database {
    pub(crate) inner: ManagedDatabase,
    pub(crate) options: Ghost<Seq<(Seq<char>, Value)>>,
}

impl Database {
    /// The options that the database was created with, in the order set.
    pub closed spec fn options(self) -> Seq<(Seq<char>, Value)> {
        self.options@
    }


    /// Creates a connection with the options `opts`, set in their order.
    /// A failure of the driver is a [`DriverError::Driver`].
    pub fn new_connection_with_opts(&mut self, opts: Vec<(String, Value)>) -> (r: Result<
        Connection,
        DriverError,
    >)
        ensures
            *final(self) == *old(self),
            r matches Ok(c) ==> c.options() == entries_view(opts@),
            r matches Err(e) ==> e is Driver,
    {
        match create_connection(&mut self.inner, opts) {
            Ok(c) => Ok(c),
            Err(e) => Err(DriverError::Driver(e)),
        }
    }

    /// Creates a connection with no options.
    pub fn new_connection(&mut self) -> (r: Result<Connection, DriverError>)
        ensures
            *final(self) == *old(self),
            r matches Ok(c) ==> c.options() == Seq::<(Seq<char>, Value)>::empty(),
            r matches Err(e) ==> e is Driver,
    {
        let opts: Vec<(String, Value)> = Vec::new();
        proof {
            assert(entries_view(opts@) =~= Seq::empty());
        }
        self.new_connection_with_opts(opts)
    }
}

impl Default for Builder {
    /// A builder with every named field absent and no other entries.
    fn default() -> (r: Builder)
        ensures
            r.is_blank(),
    {
        Builder {
            auth_type: None,
            credentials: None,
            client_id: None,
            client_secret: None,
            refresh_token: None,
            project_id: None,
            dataset_id: None,
            table_id: None,
            other: Vec::new(),
        }
    }
}

} // verus!
