use rustlay::translations::TranslationsContainer;

#[test]
fn container_wires_the_interactor_chain() {
    let interactor = TranslationsContainer::interactor();
    // The chain is wired data source -> repository -> interactor.
    let _data_source = &interactor.repository.data_source;
}
