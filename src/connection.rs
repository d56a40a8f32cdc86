//! Connection-scope options, and the connection handle they configure.
use vstd::prelude::*;

use adbc_core::driver_manager::ManagedConnection;

use crate::database::Database;
use crate::driver::DriverError;
use crate::value::{
    entries_view, int_entry, lookup_var, parse_int, parsed_int, present, push_all, push_int,
    parsed_i64, var_value, Value,
};

verus! {

/// A builder for [`Connection`]: named integer options, each absent by
/// default, and further entries passed through as they are.
#[derive(Clone)]
pub struct Builder {
    /// Result buffer size ([`Self::RESULT_BUFFER_SIZE`]).
    pub result_buffer_size: Option<i64>,
    /// Prefetch concurrency ([`Self::PREFETCH_CONCURRENCY`]).
    pub prefetch_concurrency: Option<i64>,
    /// Other options, emitted after the named ones in this order.
    pub other: Vec<(String, Value)>,
}

impl Builder {
    pub const RESULT_BUFFER_SIZE: &'static str = "adbc.bigquery.sql.query.result_buffer_size";
    pub const PREFETCH_CONCURRENCY: &'static str = "adbc.bigquery.sql.query.prefetch_concurrency";

    /// Environment variable for [`Self::result_buffer_size`].
    pub const RESULT_BUFFER_SIZE_ENV: &'static str = "ADBC_BIGQUERY_RESULT_BUFFER_SIZE";
    /// Environment variable for [`Self::prefetch_concurrency`].
    pub const PREFETCH_CONCURRENCY_ENV: &'static str = "ADBC_BIGQUERY_PREFETCH_CONCURRENCY";

    /// The entries of the named fields that are present, in declared order.
    pub open spec fn named_options(self) -> Seq<(Seq<char>, Value)> {
        int_entry(Self::RESULT_BUFFER_SIZE@, self.result_buffer_size) + int_entry(
            Self::PREFETCH_CONCURRENCY@,
            self.prefetch_concurrency,
        )
    }

    /// The option list that the builder stands for: the named entries, then
    /// the other entries in insertion order.
    pub open spec fn options(self) -> Seq<(Seq<char>, Value)> {
        self.named_options() + entries_view(self.other@)
    }

    /// How many named fields are present.
    pub open spec fn present_count(self) -> nat {
        present(self.result_buffer_size) + present(self.prefetch_concurrency)
    }

    /// Whether no named field is present and there are no other entries.
    pub open spec fn is_blank(self) -> bool {
        &&& self.result_buffer_size is None
        &&& self.prefetch_concurrency is None
        &&& self.other@.len() == 0
    }

    /// The value that the environment `vars` gives the result buffer size.
    pub open spec fn result_buffer_size_of(vars: Seq<(String, String)>) -> Option<i64> {
        parsed_int(var_value(vars, Self::RESULT_BUFFER_SIZE_ENV@))
    }

    /// The value that the environment `vars` gives the prefetch concurrency.
    pub open spec fn prefetch_concurrency_of(vars: Seq<(String, String)>) -> Option<i64> {
        parsed_int(var_value(vars, Self::PREFETCH_CONCURRENCY_ENV@))
    }

    /// Constructs a builder from environment variables, given as (name, value)
    /// pairs: each field takes the decimal value of its variable, and is
    /// absent where the variable is unset or does not denote an `i64`.
    pub fn from_vars(vars: &Vec<(String, String)>) -> (r: Builder)
        ensures
            r.result_buffer_size == Self::result_buffer_size_of(vars@),
            r.prefetch_concurrency == Self::prefetch_concurrency_of(vars@),
            r.other@.len() == 0,
    {
        let result_buffer_size = lookup_var(vars, Self::RESULT_BUFFER_SIZE_ENV);
        let prefetch_concurrency = lookup_var(vars, Self::PREFETCH_CONCURRENCY_ENV);
        Builder {
            result_buffer_size: parse_int(&result_buffer_size),
            prefetch_concurrency: parse_int(&prefetch_concurrency),
            other: Vec::new(),
        }
    }

    /// Converts the builder into its ordered option list: one entry per
    /// present named field in declared order, then the other entries.
    pub fn into_options(self) -> (r: Vec<(String, Value)>)
        ensures
            entries_view(r@) == self.options(),
    {
        let mut out: Vec<(String, Value)> = Vec::new();
        proof {
            assert(entries_view(out@) =~= Seq::empty());
        }
        push_int(&mut out, Self::RESULT_BUFFER_SIZE, self.result_buffer_size);
        push_int(&mut out, Self::PREFETCH_CONCURRENCY, self.prefetch_concurrency);
        push_all(&mut out, self.other);
        proof {
            assert(entries_view(out@) =~= self.options());
        }
        out
    }
}

impl Builder {
    /// Builds a [`Connection`] with this builder's options, using `database`.
    /// The builder is consumed and cannot be used again.
    pub fn build(self, database: &mut Database) -> (r: Result<Connection, DriverError>)
        ensures
            *final(database) == *old(database),
            r matches Ok(c) ==> c.options() == self.options(),
            r matches Err(e) ==> e is Driver,
    {
        let opts = self.into_options();
        database.new_connection_with_opts(opts)
    }
}

/// The option list of a builder holds one entry per present named field, in
/// declared order, then every other entry in insertion order.
pub proof fn lemma_options_layout(b: Builder)
    ensures
        b.named_options().len() == b.present_count(),
        b.options().len() == b.present_count() + b.other@.len(),
        b.options().take(b.present_count() as int) == b.named_options(),
        b.options().skip(b.present_count() as int) == entries_view(b.other@),
{
    assert(b.options().take(b.present_count() as int) =~= b.named_options());
    assert(b.options().skip(b.present_count() as int) =~= entries_view(b.other@));
}

/// A builder with no named field present and no other entries yields no options.
pub proof fn lemma_blank_has_no_options(b: Builder)
    requires
        b.is_blank(),
    ensures
        b.options().len() == 0,
{
    lemma_options_layout(b);
}

/// Read from the environment, each integer field depends on its own variable
/// alone: a variable that does not denote an `i64` leaves its field absent,
/// one that does sets it, whatever the other variable holds.
pub proof fn lemma_fields_from_own_vars(vars: Seq<(String, String)>)
    ensures
        var_value(vars, Builder::RESULT_BUFFER_SIZE_ENV@) matches Some(s) ==> Builder::result_buffer_size_of(vars) == parsed_i64(s@),
        var_value(vars, Builder::PREFETCH_CONCURRENCY_ENV@) matches Some(s) ==> Builder::prefetch_concurrency_of(vars) == parsed_i64(s@),
        var_value(vars, Builder::RESULT_BUFFER_SIZE_ENV@) is None ==> Builder::result_buffer_size_of(vars) is None,
        var_value(vars, Builder::PREFETCH_CONCURRENCY_ENV@) is None ==> Builder::prefetch_concurrency_of(vars) is None,
{
}

/// A BigQuery connection, created by a [`Database`].
pub struct Connection {
    pub(crate) inner: ManagedConnection,
    pub(crate) options: Ghost<Seq<(Seq<char>, Value)>>,
}

impl Connection {
    /// The options that the connection was created with, in the order set.
    pub closed spec fn options(self) -> Seq<(Seq<char>, Value)> {
        self.options@
    }

}

impl Default for Builder {
    /// A builder with every named field absent and no other entries.
    fn default() -> (r: Builder)
        ensures
            r.is_blank(),
    {
        Builder { result_buffer_size: None, prefetch_concurrency: None, other: Vec::new() }
    }
}

} // verus!
