use vstd::prelude::*;
use std::sync::Arc;
use crate::driver::{config_outcome, Driver, DriverConfig, DriverError};

verus! {

/// The process-wide home of the driver: empty until the first successful
/// construction, then holding that one driver for good.
///
/// It counts how many drivers it has built. Callers that share it across
/// threads guard it with a lock; every access after the first finds the
/// driver already there and builds nothing.
pub struct DriverCell {
    driver: Option<Arc<Driver>>,
    constructions: u64,
}

/// The outcome of a construction, with the shared handle seen as the driver.
pub open spec fn unshared(r: Result<Arc<Driver>, DriverError>) -> Result<Driver, DriverError> {
    match r {
        Ok(d) => Ok(*d),
        Err(e) => Err(e),
    }
}

impl DriverCell {
    /// A driver has been built and is held.
    pub closed spec fn built(&self) -> bool {
        self.driver is Some
    }

    /// The driver held, once built.
    pub closed spec fn current(&self) -> Arc<Driver> {
        self.driver->0
    }

    /// How many drivers this cell has built.
    pub closed spec fn construction_count(&self) -> nat {
        self.constructions as nat
    }

    /// A driver is held exactly when one was built, and none was built after it.
    pub closed spec fn wf(&self) -> bool {
        self.constructions == (if self.driver is Some { 1u64 } else { 0u64 })
    }

    pub fn new() -> (r: DriverCell)
        ensures
            r.wf(),
            !r.built(),
            r.construction_count() == 0,
    {
        DriverCell { driver: None, constructions: 0 }
    }

    /// How many drivers this cell has built.
    pub fn constructions(&self) -> (r: u64)
        ensures
            r == self.construction_count(),
    {
        self.constructions
    }

    /// The driver, if one has been built.
    pub fn get(&self) -> (r: Option<Arc<Driver>>)
        ensures
            r is Some <==> self.built(),
            r is Some ==> r->0 == self.current(),
    {
        match &self.driver {
            Some(d) => Some(Arc::clone(d)),
            None => None,
        }
    }

    /// The shared driver: the one already held, or else one built from
    /// `config`. A failed construction leaves the cell empty and is reported.
    pub fn get_or_init(&mut self, config: DriverConfig) -> (r: Result<Arc<Driver>, DriverError>)
        requires
            old(self).wf(),
        ensures
            final(self).wf(),
            old(self).built() ==> {
                &&& *final(self) == *old(self)
                &&& r is Ok
                &&& r->Ok_0 == old(self).current()
            },
            !old(self).built() ==> {
                &&& (r is Ok <==> final(self).built())
                &&& (r is Ok ==> r->Ok_0 == final(self).current())
                &&& final(self).construction_count() == (if r is Ok { 1nat } else { 0nat })
                &&& config_outcome(config, unshared(r))
            },
    {
        match &self.driver {
            Some(d) => {
                return Ok(Arc::clone(d));
            },
            None => {},
        }
        match Driver::from_config(config) {
            Ok(driver) => {
                let shared = Arc::new(driver);
                self.driver = Some(Arc::clone(&shared));
                self.constructions = 1;
                Ok(shared)
            },
            Err(e) => Err(e),
        }
    }
}

/// However many times a well-formed cell has been asked for its driver, it
/// has built at most one, and it has built one exactly when it holds one.
pub proof fn lemma_built_at_most_once(cell: DriverCell)
    requires
        cell.wf(),
    ensures
        cell.construction_count() <= 1,
        cell.construction_count() == 1 <==> cell.built(),
{
}

} // verus!
