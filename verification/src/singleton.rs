//! A slot for one lazily built, shared instance.

use crate::sharing::share;
use std::sync::Arc;
use vstd::prelude::*;

verus! {

/// Message reported when the slot is read before anything was built.
pub open spec fn not_created_message() -> Seq<char> {
    "Singleton instance not created"@
}

/// What a request for the instance returned: the instance, or the text of
/// the error.
pub open spec fn handle_outcome<T>(result: Result<Arc<T>, String>) -> Result<T, Seq<char>> {
    match result {
        Ok(handle) => Ok(*handle),
        Err(message) => Err(message@),
    }
}

/// What a factory returned: the value it built, or the text of its error.
pub open spec fn factory_outcome<T>(made: Result<T, String>) -> Result<T, Seq<char>> {
    match made {
        Ok(value) => Ok(value),
        Err(message) => Err(message@),
    }
}

/// The slot after a factory returned `made` for an empty slot: a built
/// value moves in, a failure leaves the slot empty.
pub open spec fn installed<T>(made: Result<T, String>) -> Option<T> {
    match made {
        Ok(value) => Some(value),
        Err(_) => None,
    }
}

/// Holds at most one instance of `T`, built on first demand.
pub struct ThreadSafeSingleton<T> {
    instance: Option<Arc<T>>,
}

impl<T> View for ThreadSafeSingleton<T> {
    type V = Option<T>;

    closed spec fn view(&self) -> Option<T> {
        match self.instance {
            Some(handle) => Some(*handle),
            None => None,
        }
    }
}

impl<T> ThreadSafeSingleton<T> {
    /// An empty slot.
    pub fn new() -> (slot: ThreadSafeSingleton<T>)
        ensures
            slot@ is None,
    {
        ThreadSafeSingleton { instance: None }
    }

    /// A shared handle to the instance. If the slot is empty, `creator` is
    /// run once and what it builds moves in; if it fails, its error is
    /// returned and the slot stays empty. If the slot is full, `creator` is
    /// not run: the precondition asks nothing of it then, so no call of it
    /// would verify.
    pub fn get_or_create<F>(&mut self, creator: F) -> (result: Result<Arc<T>, String>) where
        F: FnOnce() -> Result<T, String>,

        requires
            old(self)@ is None ==> creator.requires(()),
        ensures
            old(self)@ matches Some(instance) ==> final(self)@ == old(self)@ && handle_outcome(
                result,
            ) == Ok::<T, Seq<char>>(instance),
            old(self)@ is None ==> exists|made: Result<T, String>|
                #![auto]
                creator.ensures((), made) && final(self)@ == installed(made) && handle_outcome(
                    result,
                ) == factory_outcome(made),
    {
        match &self.instance {
            Some(handle) => Ok(share(handle)),
            None => {
                let made = creator();
                match made {
                    Ok(value) => {
                        let handle = Arc::new(value);
                        let other = share(&handle);
                        self.instance = Some(handle);
                        proof {
                            let ghost witness: Result<T, String> = Ok(value);
                            assert(creator.ensures((), witness));
                            assert(self@ == installed(witness));
                        }
                        Ok(other)
                    },
                    Err(message) => {
                        proof {
                            let ghost witness: Result<T, String> = Err(message);
                            assert(creator.ensures((), witness));
                            assert(self@ == installed(witness));
                        }
                        Err(message)
                    },
                }
            },
        }
    }

    /// A shared handle to the instance, or an error if the slot is empty.
    pub fn get(&self) -> (result: Result<Arc<T>, String>)
        ensures
            match self@ {
                Some(instance) => handle_outcome(result) == Ok::<T, Seq<char>>(instance),
                None => handle_outcome(result) == Err::<T, Seq<char>>(not_created_message()),
            },
    {
        match &self.instance {
            Some(handle) => Ok(share(handle)),
            None => Err("Singleton instance not created".to_owned()),
        }
    }

    /// Empties the slot; handles given out stay valid, and the next
    /// `get_or_create` builds anew.
    pub fn reset(&mut self) -> (result: Result<(), String>)
        ensures
            result is Ok,
            final(self)@ is None,
    {
        self.instance = None;
        Ok(())
    }
}

} // verus!
