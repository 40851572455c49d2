//! A worked example of the tree this crate scaffolds: the dependency
//! container of a feature named `translations`, wiring a data source
//! behind a repository behind the interactor, as the `container` template
//! lays it out.
use vstd::prelude::*;

verus! {

/// The example feature's data source.
pub struct TranslationsDataSource {}

impl TranslationsDataSource {
    /// A fresh data source.
    pub fn new() -> (r: TranslationsDataSource) {
        TranslationsDataSource {  }
    }
}

/// The example feature's repository, backed by its data source.
pub struct TranslationsRepositoryImpl {
    /// The data source the repository reads through.
    pub data_source: Box<TranslationsDataSource>,
}

impl TranslationsRepositoryImpl {
    /// A repository over the given data source.
    pub fn new(data_source: Box<TranslationsDataSource>) -> (r: TranslationsRepositoryImpl)
        ensures
            r.data_source == data_source,
    {
        TranslationsRepositoryImpl { data_source }
    }
}

/// The example feature's interactor, backed by its repository.
pub struct TranslationsInteractorImpl {
    /// The repository the interactor works against.
    pub repository: Box<TranslationsRepositoryImpl>,
}

impl TranslationsInteractorImpl {
    /// An interactor over the given repository.
    pub fn new(repository: Box<TranslationsRepositoryImpl>) -> (r: TranslationsInteractorImpl)
        ensures
            r.repository == repository,
    {
        TranslationsInteractorImpl { repository }
    }
}

/// The example feature's dependency container.
pub struct TranslationsContainer {}

impl TranslationsContainer {
    /// Wires the full chain: a fresh data source, the repository over it,
    /// and the interactor over the repository.
    pub fn interactor() -> (r: TranslationsInteractorImpl)
        ensures
            *(*r.repository).data_source == (TranslationsDataSource {  }),
    {
        let data_source = Box::new(TranslationsDataSource::new());
        let repository = Box::new(TranslationsRepositoryImpl::new(data_source));
        TranslationsInteractorImpl::new(repository)
    }
}

} // verus!
