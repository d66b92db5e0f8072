use acala_service::service::{
    chain_ops_plan, dev_node_plan, node_plan, partial_plan, relay_chain_interface_kind,
    seal_on_import, ChainOpsError, ChainOpsPlan, DevAuthoring, ImportQueueKind, ParachainRole,
    RelayChainInterfaceKind, RuntimeAvailability, RuntimeVariant, ACALA_RUNTIME_NOT_AVAILABLE,
    KARURA_RUNTIME_NOT_AVAILABLE, MANDALA_RUNTIME_NOT_AVAILABLE,
};

const ALL: RuntimeAvailability = RuntimeAvailability { mandala: true, karura: true, acala: true };
const NONE: RuntimeAvailability = RuntimeAvailability { mandala: false, karura: false, acala: false };

#[test]
fn chain_ops_picks_runtime_by_id() {
    assert_eq!(
        chain_ops_plan("mandala-dev", ALL),
        Ok(ChainOpsPlan { runtime: RuntimeVariant::Mandala, dev: true })
    );
    assert_eq!(
        chain_ops_plan("mandala", ALL),
        Ok(ChainOpsPlan { runtime: RuntimeVariant::Mandala, dev: false })
    );
    assert_eq!(
        chain_ops_plan("karura-dev", ALL),
        Ok(ChainOpsPlan { runtime: RuntimeVariant::Karura, dev: false })
    );
    assert_eq!(
        chain_ops_plan("acala-dev", ALL),
        Ok(ChainOpsPlan { runtime: RuntimeVariant::Acala, dev: false })
    );
    assert_eq!(
        chain_ops_plan("wendala", ALL),
        Ok(ChainOpsPlan { runtime: RuntimeVariant::Acala, dev: false })
    );
    assert_eq!(
        chain_ops_plan("polkadot", ALL),
        Ok(ChainOpsPlan { runtime: RuntimeVariant::Acala, dev: false })
    );
}

#[test]
fn chain_ops_reports_missing_runtime() {
    assert_eq!(chain_ops_plan("mandala", NONE), Err(ChainOpsError::MandalaRuntimeNotAvailable));
    assert_eq!(chain_ops_plan("karura", NONE), Err(ChainOpsError::KaruraRuntimeNotAvailable));
    assert_eq!(chain_ops_plan("acala", NONE), Err(ChainOpsError::AcalaRuntimeNotAvailable));
    let only_acala = RuntimeAvailability { mandala: false, karura: false, acala: true };
    assert_eq!(chain_ops_plan("karura", only_acala), Err(ChainOpsError::KaruraRuntimeNotAvailable));
    assert!(chain_ops_plan("acala", only_acala).is_ok());
}

#[test]
fn chain_ops_error_messages() {
    assert_eq!(ChainOpsError::MandalaRuntimeNotAvailable.message(), MANDALA_RUNTIME_NOT_AVAILABLE);
    assert_eq!(ChainOpsError::KaruraRuntimeNotAvailable.message(), KARURA_RUNTIME_NOT_AVAILABLE);
    assert_eq!(ChainOpsError::AcalaRuntimeNotAvailable.message(), ACALA_RUNTIME_NOT_AVAILABLE);
    assert!(MANDALA_RUNTIME_NOT_AVAILABLE.contains("--features with-mandala-runtime"));
}

#[test]
fn partial_components() {
    let p = partial_plan(true, true, None);
    assert!(p.longest_chain);
    assert!(!p.telemetry);
    assert_eq!(p.import_queue, ImportQueueKind::ManualSeal);
    assert_eq!(partial_plan(true, false, Some(0)).import_queue, ImportQueueKind::DevAura);
    assert!(!partial_plan(true, false, Some(0)).telemetry);
    let q = partial_plan(false, true, Some(2));
    assert!(!q.longest_chain);
    assert!(q.telemetry);
    assert_eq!(q.import_queue, ImportQueueKind::ParachainAura);
}

#[test]
fn relay_chain_interface_choice() {
    assert_eq!(relay_chain_interface_kind(0), RelayChainInterfaceKind::InProcess);
    assert_eq!(relay_chain_interface_kind(1), RelayChainInterfaceKind::MinimalNode);
    assert_eq!(relay_chain_interface_kind(3), RelayChainInterfaceKind::MinimalNode);
}

#[test]
fn parachain_node() {
    let p = node_plan(true, false, 0, None);
    assert_eq!(p.role, ParachainRole::Collator);
    assert!(!p.offchain_workers);
    assert_eq!(p.relay_chain, RelayChainInterfaceKind::InProcess);
    assert_eq!(p.partial.import_queue, ImportQueueKind::ParachainAura);
    assert!(!p.partial.longest_chain);
    let f = node_plan(false, true, 2, Some(1));
    assert_eq!(f.role, ParachainRole::FullNode);
    assert!(f.offchain_workers);
    assert_eq!(f.relay_chain, RelayChainInterfaceKind::MinimalNode);
    assert!(f.partial.telemetry);
}

#[test]
fn dev_node() {
    let s = dev_node_plan(true, true, true, None);
    assert_eq!(s.authoring, DevAuthoring::InstantSeal);
    assert!(s.rpc_command_sink);
    assert!(s.offchain_workers);
    assert_eq!(s.partial.import_queue, ImportQueueKind::ManualSeal);
    assert!(s.partial.longest_chain);
    let a = dev_node_plan(true, false, false, None);
    assert_eq!(a.authoring, DevAuthoring::Aura);
    assert!(!a.rpc_command_sink);
    assert_eq!(a.partial.import_queue, ImportQueueKind::DevAura);
    let n = dev_node_plan(false, true, false, None);
    assert_eq!(n.authoring, DevAuthoring::NoAuthoring);
    assert!(!n.rpc_command_sink);
    assert!(n.partial.longest_chain);
}

#[test]
fn imported_transactions_seal_and_finalize() {
    let c = seal_on_import();
    assert!(!c.create_empty);
    assert!(c.finalize);
}
