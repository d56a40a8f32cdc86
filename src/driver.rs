//! Loading the native driver once, and the typed driver handle.
use vstd::prelude::*;

use adbc_core::driver_manager::{ManagedConnection, ManagedDatabase, ManagedDriver};
use adbc_core::options::{AdbcVersion, OptionDatabase, OptionValue};
use adbc_core::Driver as _;

use crate::database::Database;
use crate::value::{entries_view, Value};

verus! {

#[verifier::external_type_specification]
#[verifier::external_body]
pub struct ExManagedDriver(ManagedDriver);

#[verifier::external_type_specification]
#[verifier::external_body]
pub struct ExManagedDatabase(ManagedDatabase);

#[verifier::external_type_specification]
#[verifier::external_body]
pub struct ExManagedConnection(ManagedConnection);

#[verifier::external_type_specification]
#[verifier::external_body]
pub struct ExAdbcError(adbc_core::error::Error);

/// Relies on the derived `Clone` of `ManagedDriver`, whose one field is an
/// `Arc`: the clone refers to the same loaded driver.
pub assume_specification[ <ManagedDriver as Clone>::clone ](d: &ManagedDriver) -> (r:
    ManagedDriver)
    ensures
        r == *d,
;

/// Relies on the derived `Clone` of `adbc_core::error::Error`, a struct of
/// plain data: the clone has the same message, status and codes.
pub assume_specification[ <adbc_core::error::Error as Clone>::clone ](
    e: &adbc_core::error::Error,
) -> (r: adbc_core::error::Error)
    ensures
        r == *e,
;

/// A failure reported by this library.
pub enum DriverError {
    /// The driver library or its entry point could not be found, or its
    /// initializer refused the requested ABI version.
    DriverUnavailable(adbc_core::error::Error),
    /// An operation of the loaded driver failed; its error is passed on as it came.
    Driver(adbc_core::error::Error),
}

impl Clone for DriverError {
    fn clone(&self) -> (r: Self)
        ensures
            r == *self,
    {
        match self {
            DriverError::DriverUnavailable(e) => DriverError::DriverUnavailable(e.clone()),
            DriverError::Driver(e) => DriverError::Driver(e.clone()),
        }
    }
}

/// The ABI version requested from the driver's initializer.
#[derive(Clone, Copy, Debug, PartialEq, Eq, Structural)]
pub enum AbiVersion {
    V100,
    V110,
}

impl Default for AbiVersion {
    /// The newest version, 1.1.0.
    fn default() -> (r: AbiVersion)
        ensures
            r == AbiVersion::V110,
    {
        AbiVersion::V110
    }
}

/// Relies on `ManagedDriver::load_dynamic_from_name`: searches the library
/// path for `name`, resolves the symbol `entrypoint` and calls it with
/// `version`; every failure comes back as an `Err`. A driver that loads is
/// recorded with the three values it was loaded from.
#[verifier::external_body]
fn load_dynamic(name: &str, entrypoint: &str, version: AbiVersion) -> (r: Result<
    Driver,
    adbc_core::error::Error,
>)
    ensures
        r matches Ok(d) ==> d.source() == (name@, entrypoint@, version),
{
    let abi = match version {
        AbiVersion::V100 => AdbcVersion::V100,
        AbiVersion::V110 => AdbcVersion::V110,
    };
    let inner = ManagedDriver::load_dynamic_from_name(name, Some(entrypoint.as_bytes()), abi)?;
    Ok(Driver { inner, library: name.to_owned(), entrypoint: entrypoint.to_owned(), version })
}

/// Relies on `<ManagedDriver as adbc_core::Driver>::new_database_with_opts`:
/// creates a database, sets the options on it in order and initializes it.
/// The driver value itself is left as it was (it only reads its shared state).
/// A database that is created is recorded with the options it was given.
#[verifier::external_body]
fn create_database(driver: &mut ManagedDriver, opts: Vec<(String, Value)>) -> (r: Result<
    Database,
    adbc_core::error::Error,
>)
    ensures
        *final(driver) == *old(driver),
        r matches Ok(db) ==> db.options() == entries_view(opts@),
{
    let options = Ghost(entries_view(opts@));
    let opts = opts.into_iter().map(|(key, value)| {
        let value = match value {
            Value::String(s) => OptionValue::String(s),
            Value::Bytes(b) => OptionValue::Bytes(b),
            Value::Int(n) => OptionValue::Int(n),
        };
        (OptionDatabase::from(key.as_str()), value)
    });
    let inner = driver.new_database_with_opts(opts)?;
    Ok(Database { inner, options })
}

/// A loaded BigQuery driver. Clones share the same loaded library.
pub struct Driver {
    inner: ManagedDriver,
    library: String,
    entrypoint: String,
    version: AbiVersion,
}

impl Clone for Driver {
    fn clone(&self) -> (r: Self)
        ensures
            r == *self,
    {
        Driver {
            inner: self.inner.clone(),
            library: self.library.clone(),
            entrypoint: self.entrypoint.clone(),
            version: self.version,
        }
    }
}

/// Loads the driver library at most once and keeps the outcome, success or
/// failure, for every later request.
pub struct DriverLoader {
    library: String,
    entrypoint: String,
    version: AbiVersion,
    loaded: Option<Result<Driver, DriverError>>,
    searches: Ghost<nat>,
}

/// What one request to a loader does: the first one searches once and keeps
/// its outcome; every later one hands back the kept outcome and changes nothing.
pub open spec fn load_step(
    before: DriverLoader,
    after: DriverLoader,
    r: Result<Driver, DriverError>,
) -> bool {
    &&& after.outcome() == Some(r)
    &&& after.library() == before.library()
    &&& after.entrypoint() == before.entrypoint()
    &&& after.version() == before.version()
    &&& before.outcome() is Some ==> after == before && r == before.outcome()->Some_0
    &&& before.outcome() is None ==> after.searches() == before.searches() + 1
    &&& r is Err ==> r->Err_0 is DriverUnavailable
    &&& r matches Ok(d) ==> d.source() == (before.library(), before.entrypoint(), before.version())
}

impl DriverLoader {
    /// Base name of the driver's shared library.
    pub const LIBRARY: &'static str = "adbc_driver_bigquery";
    /// Name of the driver's initialization symbol.
    pub const ENTRYPOINT: &'static str = "AdbcDriverBigQueryInit";

    /// A kept failure is always a failure to load, and a kept driver was
    /// loaded from this loader's library, symbol and version.
    #[verifier::type_invariant]
    spec fn kept_outcome_is_own(self) -> bool {
        &&& self.loaded matches Some(Err(e)) ==> e is DriverUnavailable
        &&& self.loaded matches Some(Ok(d)) ==> d.source() == (
            self.library@,
            self.entrypoint@,
            self.version,
        )
    }

    /// The library base name searched for.
    pub closed spec fn library(self) -> Seq<char> {
        self.library@
    }

    /// The initialization symbol resolved in the library.
    pub closed spec fn entrypoint(self) -> Seq<char> {
        self.entrypoint@
    }

    /// The ABI version requested.
    pub closed spec fn version(self) -> AbiVersion {
        self.version
    }

    /// The kept outcome of the load, once there has been one.
    pub closed spec fn outcome(self) -> Option<Result<Driver, DriverError>> {
        self.loaded
    }

    /// How many times the library path has been searched.
    pub closed spec fn searches(self) -> nat {
        self.searches@
    }

    /// A loader for the BigQuery driver library and symbol, at ABI 1.1.0.
    pub fn new() -> (r: DriverLoader)
        ensures
            r.library() == Self::LIBRARY@,
            r.entrypoint() == Self::ENTRYPOINT@,
            r.version() == AbiVersion::V110,
            r.outcome() is None,
            r.searches() == 0,
    {
        Self::with_library(Self::LIBRARY, Self::ENTRYPOINT, AbiVersion::V110)
    }

    /// A loader for the library `library` and the symbol `entrypoint`,
    /// requesting ABI `version`.
    pub fn with_library(library: &str, entrypoint: &str, version: AbiVersion) -> (r: DriverLoader)
        ensures
            r.library() == library@,
            r.entrypoint() == entrypoint@,
            r.version() == version,
            r.outcome() is None,
            r.searches() == 0,
    {
        DriverLoader {
            library: library.to_owned(),
            entrypoint: entrypoint.to_owned(),
            version,
            loaded: None,
            searches: Ghost(0),
        }
    }

    /// Loads the driver, searching for the library only on the first request.
    /// A failure to load is a [`DriverError::DriverUnavailable`].
    pub fn load(&mut self) -> (r: Result<Driver, DriverError>)
        ensures
            load_step(*old(self), *final(self), r),
    {
        proof {
            use_type_invariant(&*self);
        }
        match &self.loaded {
            Some(kept) => {
                return match kept {
                    Ok(d) => Ok(d.clone()),
                    Err(e) => Err(e.clone()),
                };
            },
            None => {},
        }
        let r = match load_dynamic(self.library.as_str(), self.entrypoint.as_str(), self.version) {
            Ok(d) => Ok(d),
            Err(e) => Err(DriverError::DriverUnavailable(e)),
        };
        self.searches = Ghost(self.searches@ + 1);
        self.loaded = Some(
            match &r {
                Ok(d) => Ok(d.clone()),
                Err(e) => Err(e.clone()),
            },
        );
        r
    }
}

/// Two requests in a row to the same loader give the same outcome, and the
/// second one does not search again.
pub proof fn lemma_load_idempotent(
    l0: DriverLoader,
    l1: DriverLoader,
    l2: DriverLoader,
    r1: Result<Driver, DriverError>,
    r2: Result<Driver, DriverError>,
)
    requires
        load_step(l0, l1, r1),
        load_step(l1, l2, r2),
    ensures
        r1 == r2,
        l2 == l1,
        l2.searches() == l1.searches(),
{
}

impl Driver {
    /// The library base name, initialization symbol and ABI version that
    /// this driver was loaded from.
    pub closed spec fn source(self) -> (Seq<char>, Seq<char>, AbiVersion) {
        (self.library@, self.entrypoint@, self.version)
    }

    /// The ABI version that this driver was loaded with.
    pub fn version(&self) -> (r: AbiVersion)
        ensures
            r == self.source().2,
    {
        self.version
    }

    /// Loads the driver through `loader`; see [`DriverLoader::load`].
    pub fn try_load(loader: &mut DriverLoader) -> (r: Result<Driver, DriverError>)
        ensures
            load_step(*old(loader), *final(loader), r),
    {
        loader.load()
    }

    /// Creates a database with the options `opts`, set in their order.
    /// A failure of the driver is a [`DriverError::Driver`].
    pub fn new_database_with_opts(&mut self, opts: Vec<(String, Value)>) -> (r: Result<
        Database,
        DriverError,
    >)
        ensures
            *final(self) == *old(self),
            r matches Ok(db) ==> db.options() == entries_view(opts@),
            r matches Err(e) ==> e is Driver,
    {
        match create_database(&mut self.inner, opts) {
            Ok(db) => Ok(db),
            Err(e) => Err(DriverError::Driver(e)),
        }
    }

    /// Creates a database with no options.
    pub fn new_database(&mut self) -> (r: Result<Database, DriverError>)
        ensures
            *final(self) == *old(self),
            r matches Ok(db) ==> db.options() == Seq::<(Seq<char>, Value)>::empty(),
            r matches Err(e) ==> e is Driver,
    {
        let opts: Vec<(String, Value)> = Vec::new();
        proof {
            assert(entries_view(opts@) =~= Seq::empty());
        }
        self.new_database_with_opts(opts)
    }

    /// Loads the driver library dynamically through `loader`, which keeps
    /// the outcome for later requests.
    pub fn try_load_dynamic(loader: &mut DriverLoader) -> (r: Result<Driver, DriverError>)
        ensures
            load_step(*old(loader), *final(loader), r),
    {
        loader.load()
    }
}

} // verus!
