//! Configuration of a cache: the source that produces its values and the
//! period at which the value is replaced.

use vstd::prelude::*;
use std::marker::PhantomData;
use std::time::Duration;
use crate::period::{is_positive, positive};
use crate::refresh::Refresh;

verus! {

/// Why a configuration cannot be turned into a running cache.
#[derive(Debug, Clone, Copy, PartialEq, Eq, Structural)]
pub enum ConfigError {
    /// No refresh source was given.
    MissingRefresh,
    /// No refresh period was given.
    MissingFrequency,
    /// The refresh period is not strictly positive.
    ZeroFrequency,
}

/// A configuration in the making. It exists only until `load` consumes it.
#[derive(Debug)]
#[verifier::reject_recursive_types(V)]
pub struct Builder<V, R> where V: Sync + Send, R: Refresh<Value = V> + Sync + Send {
    refresh: Option<R>,
    frequency: Option<Duration>,
    phantom: PhantomData<V>,
}

/// A complete, validated configuration: what `load` hands to the code that
/// performs the first refresh and starts the loop.
pub struct Launch<R> {
    /// The source to invoke for the first value and on every tick.
    pub refresh: R,
    /// The time between two refreshes; strictly positive.
    pub frequency: Duration,
}

/// The verdict on a configuration with the given parts: the first defect in
/// the order source, period, length of the period; or none.
pub open spec fn defect<R>(refresh: Option<R>, frequency: Option<Duration>) -> Option<
    ConfigError,
> {
    if refresh is None {
        Some(ConfigError::MissingRefresh)
    } else if frequency is None {
        Some(ConfigError::MissingFrequency)
    } else if !positive(frequency->Some_0) {
        Some(ConfigError::ZeroFrequency)
    } else {
        None
    }
}

/// Starts a configuration with `r` as the source that loads the value first
/// and replaces it afterwards.
pub fn view<V: Sync + Send + 'static, R: Refresh<Value = V> + Sync + Send + 'static>(r: R) -> (b:
    Builder<V, R>)
    ensures
        b.source() == Some(r),
        b.period() is None,
{
    Builder::new(r)
}

impl<V, R> Default for Builder<V, R> where R: Refresh<Value = V> + Sync + Send, V: Sync + Send {
    fn default() -> (b: Self)
        ensures
            b.source() is None,
            b.period() is None,
    {
        Builder { refresh: None, frequency: None, phantom: PhantomData }
    }
}

impl<V, R> Builder<V, R> where V: Sync + Send, R: Refresh<Value = V> + Sync + Send {
    /// The refresh source, if one was set.
    pub closed spec fn source(&self) -> Option<R> {
        self.refresh
    }

    /// The refresh period, if one was set.
    pub closed spec fn period(&self) -> Option<Duration> {
        self.frequency
    }
}

impl<V, R> Builder<V, R> where V: Sync + Send + 'static, R: Refresh<Value = V> + Sync + Send + 'static {
    /// A configuration with the source `with` and no period yet.
    pub fn new(with: R) -> (b: Self)
        ensures
            b.source() == Some(with),
            b.period() is None,
    {
        Builder { refresh: Some(with), frequency: None, phantom: PhantomData }
    }

    /// Sets the refresh period, replacing an earlier one; the source stays.
    pub fn frequency(self, frequency: Duration) -> (b: Self)
        ensures
            b.source() == self.source(),
            b.period() == Some(frequency),
    {
        Builder { refresh: self.refresh, frequency: Some(frequency), phantom: PhantomData }
    }

    /// Validates the configuration and consumes it. A complete one, with a
    /// source and a strictly positive period, comes back as a `Launch` that
    /// holds exactly those two; any other is rejected with its first defect,
    /// before anything is invoked or started.
    pub fn load(self) -> (out: Result<Launch<R>, ConfigError>)
        ensures
            match defect(self.source(), self.period()) {
                Some(e) => out == Err::<Launch<R>, ConfigError>(e),
                None => out is Ok && out->Ok_0.refresh == self.source()->Some_0
                    && out->Ok_0.frequency == self.period()->Some_0,
            },
    {
        match self.refresh {
            None => Err(ConfigError::MissingRefresh),
            Some(refresh) => match self.frequency {
                None => Err(ConfigError::MissingFrequency),
                Some(frequency) => {
                    if is_positive(&frequency) {
                        Ok(Launch { refresh, frequency })
                    } else {
                        Err(ConfigError::ZeroFrequency)
                    }
                },
            },
        }
    }
}

} // verus!
