use vstd::prelude::*;

verus! {

/// An application fault flag.
#[allow(non_camel_case_types)]
#[derive(Debug, PartialEq, Eq, Structural, Hash, Clone, Copy)]
pub enum ApplicationError {
    DHT22_TIMEOUT,
}

/// Mutable runtime state: targets and the set of active fault flags.
pub struct ApplicationState {
    target_temp: u32,
    target_humidity: u32,
    target_co2: u32,
    /// The active flags, each held once.
    application_errors: Vec<ApplicationError>,
}

impl View for ApplicationState {
    type V = Set<ApplicationError>;

    /// The set of active fault flags.
    closed spec fn view(&self) -> Set<ApplicationError> {
        self.application_errors@.to_set()
    }
}

impl ApplicationState {
    /// Each active flag is held once.
    pub closed spec fn wf(&self) -> bool {
        self.application_errors@.no_duplicates()
    }

    /// Marks `error` as active; a flag that is already active stays once.
    pub fn add_error(&mut self, error: ApplicationError)
        requires
            old(self).wf(),
        ensures
            final(self).wf(),
            final(self)@ == old(self)@.insert(error),
    {
        if !self.has_error(error) {
            let ghost before = self.application_errors@;
            self.application_errors.push(error);
            proof {
                assert(self.application_errors@.to_set() =~= before.to_set().insert(error)) by {
                    assert forall|x: ApplicationError|
                        self.application_errors@.contains(x) <==> (before.contains(x) || x
                            == error) by {
                        if x == error {
                            assert(self.application_errors@[before.len() as int] == error);
                        }
                        if before.contains(x) {
                            let j = choose|j: int| 0 <= j < before.len() && before[j] == x;
                            assert(self.application_errors@[j] == x);
                        }
                    }
                }
                assert(self.application_errors@.no_duplicates()) by {
                    assert forall|i: int, j: int|
                        0 <= i < self.application_errors@.len() && 0 <= j
                            < self.application_errors@.len() && i != j implies
                        self.application_errors@[i] != self.application_errors@[j] by {
                        if i == before.len() as int {
                            assert(!before.contains(error));
                        } else if j == before.len() as int {
                            assert(!before.contains(error));
                        }
                    }
                }
            }
        }
    }

    /// Clears `error`; a flag that is not active stays inactive.
    pub fn remove_error(&mut self, error: ApplicationError)
        requires
            old(self).wf(),
        ensures
            final(self).wf(),
            final(self)@ == old(self)@.remove(error),
    {
        let mut i: usize = 0;
        while i < self.application_errors.len()
            invariant
                self.wf(),
                i <= self.application_errors@.len(),
                forall|j: int| 0 <= j < i ==> self.application_errors@[j] != error,
            decreases self.application_errors@.len() - i,
        {
            if self.application_errors[i] == error {
                let ghost before = self.application_errors@;
                self.application_errors.remove(i);
                proof {
                    let after = self.application_errors@;
                    assert(after =~= before.subrange(0, i as int) + before.subrange(
                        i + 1,
                        before.len() as int,
                    ));
                    assert forall|x: ApplicationError|
                        after.contains(x) <==> (before.contains(x) && x != error) by {
                        if after.contains(x) {
                            let k = choose|k: int| 0 <= k < after.len() && after[k] == x;
                            if k < i {
                                assert(before[k] == x);
                            } else {
                                assert(before[k + 1] == x);
                            }
                            assert(before[i as int] == error);
                        }
                        if before.contains(x) && x != error {
                            let k = choose|k: int| 0 <= k < before.len() && before[k] == x;
                            if k < i {
                                assert(after[k] == x);
                            } else {
                                assert(k != i);
                                assert(after[k - 1] == x);
                            }
                        }
                    }
                    assert(after.to_set() =~= before.to_set().remove(error));
                    assert(after.no_duplicates()) by {
                        assert forall|a: int, b: int|
                            0 <= a < after.len() && 0 <= b < after.len() && a != b implies after[a]
                                != after[b] by {
                            let a2 = if a < i { a } else { a + 1 };
                            let b2 = if b < i { b } else { b + 1 };
                            assert(after[a] == before[a2]);
                            assert(after[b] == before[b2]);
                        }
                    }
                }
                return;
            }
            i = i + 1;
        }
        proof {
            assert(!self.application_errors@.contains(error));
            assert(self.application_errors@.to_set() =~= self.application_errors@.to_set().remove(
                error,
            ));
        }
    }

    /// Whether `error` is active.
    pub fn has_error(&self, error: ApplicationError) -> (r: bool)
        ensures
            r == self@.contains(error),
    {
        let mut i: usize = 0;
        while i < self.application_errors.len()
            invariant
                i <= self.application_errors@.len(),
                forall|j: int| 0 <= j < i ==> self.application_errors@[j] != error,
            decreases self.application_errors@.len() - i,
        {
            if self.application_errors[i] == error {
                assert(self.application_errors@.to_set().contains(error));
                return true;
            }
            i = i + 1;
        }
        false
    }
}

impl Default for ApplicationState {
    /// No targets set and no fault flag active.
    fn default() -> (r: ApplicationState)
        ensures
            r.wf(),
            r@ == Set::<ApplicationError>::empty(),
    {
        let r = ApplicationState {
            target_temp: 0,
            target_humidity: 0,
            target_co2: 0,
            application_errors: Vec::new(),
        };
        assert(r.application_errors@.to_set() =~= Set::<ApplicationError>::empty());
        r
    }
}

/// Immutable settings needed at startup.
pub struct AppConfig {
    pub dht22_pin: u32,
    pub mister_pin: u32,
    pub ccs811_i2c_addr: u16,
    pub ccs811_wak_pin: u16,
    pub sda_pin: u16,
    pub scl_pin: u16,
}

} // verus!
