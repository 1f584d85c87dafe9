//! Keeping the session credential of a successful login between runs.

use vstd::prelude::*;

verus! {

/// The store could not be read or written.
#[derive(PartialEq, Eq, Structural, Clone, Copy, Debug)]
pub enum StoreError {
    Unavailable,
}

/// Persists one opaque session credential.
///
/// For every implementation: an absent session loads as `Ok(None)`, never as an error;
/// `remove_session` never fails and leaves no session; a successful `save_session(x)`
/// leaves `x`, which `load_session` then reports. A store that cannot fail (`infallible`)
/// always saves, and always loads exactly what it holds.
pub trait SessionStore {
    /// The credential held, if any.
    spec fn stored(&self) -> Option<Seq<u8>>;

    /// Whether reading and writing this store always succeed.
    spec fn infallible(&self) -> bool;

    fn save_session(&mut self, data: Vec<u8>) -> (r: Result<(), StoreError>)
        ensures
            old(self).infallible() ==> r is Ok,
            r is Ok ==> final(self).stored() == Some(data@),
            r is Err ==> final(self).stored() == old(self).stored(),
            final(self).infallible() == old(self).infallible(),
    ;

    fn load_session(&self) -> (r: Result<Option<Vec<u8>>, StoreError>)
        ensures
            self.stored() is None ==> r == Ok::<Option<Vec<u8>>, StoreError>(None),
            self.infallible() ==> r is Ok,
            r matches Ok(found) ==> match found {
                Some(v) => self.stored() == Some(v@),
                None => self.stored() is None,
            },
    ;

    fn remove_session(&mut self) -> (r: Result<(), StoreError>)
        ensures
            r is Ok,
            final(self).stored() is None,
            final(self).infallible() == old(self).infallible(),
    ;
}

/// A store that keeps the credential in memory.
#[derive(Debug, Clone, PartialEq, Eq)]
pub struct MemorySessionStore {
    pub session: Option<Vec<u8>>,
}

impl MemorySessionStore {
    /// An empty store.
    pub fn new() -> (r: MemorySessionStore)
        ensures
            r.stored() is None,
            r.infallible(),
    {
        MemorySessionStore { session: None }
    }
}

impl SessionStore for MemorySessionStore {
    open spec fn infallible(&self) -> bool {
        true
    }

    open spec fn stored(&self) -> Option<Seq<u8>> {
        match self.session {
            Some(v) => Some(v@),
            None => None,
        }
    }

    fn save_session(&mut self, data: Vec<u8>) -> (r: Result<(), StoreError>) {
        self.session = Some(data);
        Ok(())
    }

    fn load_session(&self) -> (r: Result<Option<Vec<u8>>, StoreError>) {
        match &self.session {
            Some(v) => Ok(Some(v.clone())),
            None => Ok(None),
        }
    }

    fn remove_session(&mut self) -> (r: Result<(), StoreError>) {
        self.session = None;
        Ok(())
    }
}

/// A store backed by one file; reading and writing it is left to the caller's runtime.
#[derive(Debug, Clone, PartialEq, Eq)]
pub struct FileSessionStore {
    pub path: String,
}

impl FileSessionStore {
    /// A boxed store for the file at `path`.
    pub fn boxed(path: String) -> (r: Box<FileSessionStore>)
        ensures
            r.path == path,
    {
        Box::new(FileSessionStore { path })
    }
}

} // verus!
