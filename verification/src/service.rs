//! The decisions the node service takes while it assembles a node: which
//! import queue, relay-chain interface and block authoring to start, and
//! which runtime a chain specification is run with.
//!
//! Each decision is a function from plain facts about the configuration
//! to a plan; the service performs what the plan says.

use vstd::prelude::*;
use crate::variant::{
    is_acala_id, is_dev_id, is_karura_id, is_mandala_id, networks_are_exclusive, IdentifyVariant,
};

verus! {

/// Relay-chain block number offset of the mocked relay chain in development mode.
pub const MOCK_RELAY_OFFSET: u32 = 1000;

/// Relay-chain blocks per parachain block of the mocked relay chain.
pub const MOCK_RELAY_BLOCKS_PER_PARA_BLOCK: u32 = 2;

/// Parachain blocks per relay epoch of the mocked relay chain.
pub const MOCK_PARA_BLOCKS_PER_RELAY_EPOCH: u32 = 0;

/// Size of the buffer of the telemetry worker.
pub const TELEMETRY_WORKER_BUFFER: usize = 16;

/// Capacity of the channel through which RPC handlers command instant sealing.
pub const INSTANT_SEAL_COMMAND_CAPACITY: usize = 1024;

/// Duration of a relay-chain slot, in seconds.
pub const RELAY_CHAIN_SLOT_DURATION_SECS: u64 = 6;

/// Error text when the Mandala runtime was not compiled in.
pub const MANDALA_RUNTIME_NOT_AVAILABLE: &'static str = "Mandala runtime is not available. Please compile the node with `--features with-mandala-runtime` to enable it.";

/// Error text when the Karura runtime was not compiled in.
pub const KARURA_RUNTIME_NOT_AVAILABLE: &'static str = "Karura runtime is not available. Please compile the node with `--features with-karura-runtime` to enable it.";

/// Error text when the Acala runtime was not compiled in.
pub const ACALA_RUNTIME_NOT_AVAILABLE: &'static str = "Acala runtime is not available. Please compile the node with `--features with-acala-runtime` to enable it.";

/// How blocks are imported.
#[derive(Clone, Copy, Debug, PartialEq, Eq, Structural)]
pub enum ImportQueueKind {
    /// Development chain sealed on demand.
    ManualSeal,
    /// Development chain with Aura slots and a mocked relay chain.
    DevAura,
    /// Parachain import through the relay chain's Aura consensus.
    ParachainAura,
}

/// What the partial components of a node consist of.
#[derive(Clone, Copy, Debug, PartialEq, Eq, Structural)]
pub struct PartialPlan {
    /// A telemetry worker is started.
    pub telemetry: bool,
    /// A longest-chain selection is built.
    pub longest_chain: bool,
    /// The kind of import queue.
    pub import_queue: ImportQueueKind,
}

/// The partial components for a (development or parachain) node.
pub open spec fn spec_partial_plan(
    dev: bool,
    instant_sealing: bool,
    telemetry_endpoints: Option<usize>,
) -> PartialPlan {
    PartialPlan {
        telemetry: telemetry_endpoints matches Some(n) && n > 0,
        longest_chain: dev,
        import_queue: if dev {
            if instant_sealing {
                ImportQueueKind::ManualSeal
            } else {
                ImportQueueKind::DevAura
            }
        } else {
            ImportQueueKind::ParachainAura
        },
    }
}

/// Plans the partial components of a node. `telemetry_endpoints` is the
/// number of configured telemetry endpoints, if any were configured.
pub fn partial_plan(dev: bool, instant_sealing: bool, telemetry_endpoints: Option<usize>) -> (p:
    PartialPlan)
    ensures
        p == spec_partial_plan(dev, instant_sealing, telemetry_endpoints),
        p.telemetry <==> (telemetry_endpoints matches Some(n) && n > 0),
        p.longest_chain == dev,
{
    let telemetry = match telemetry_endpoints {
        Some(n) => n > 0,
        None => false,
    };
    let import_queue = if dev {
        if instant_sealing {
            ImportQueueKind::ManualSeal
        } else {
            ImportQueueKind::DevAura
        }
    } else {
        ImportQueueKind::ParachainAura
    };
    PartialPlan { telemetry, longest_chain: dev, import_queue }
}

/// How the node talks to the relay chain.
#[derive(Clone, Copy, Debug, PartialEq, Eq, Structural)]
pub enum RelayChainInterfaceKind {
    /// A minimal relay-chain node that uses external RPC servers.
    MinimalNode,
    /// A full relay-chain node inside this process.
    InProcess,
}

/// The relay-chain interface, given how many relay-chain RPC URLs were configured.
pub open spec fn spec_relay_chain_interface(rpc_url_count: usize) -> RelayChainInterfaceKind {
    if rpc_url_count > 0 {
        RelayChainInterfaceKind::MinimalNode
    } else {
        RelayChainInterfaceKind::InProcess
    }
}

/// Chooses the relay-chain interface: a minimal node when relay-chain RPC
/// URLs are given, an in-process node otherwise.
pub fn relay_chain_interface_kind(rpc_url_count: usize) -> (k: RelayChainInterfaceKind)
    ensures
        k == spec_relay_chain_interface(rpc_url_count),
        (k == RelayChainInterfaceKind::MinimalNode) <==> rpc_url_count > 0,
        (k == RelayChainInterfaceKind::InProcess) <==> rpc_url_count == 0,
{
    if rpc_url_count > 0 {
        RelayChainInterfaceKind::MinimalNode
    } else {
        RelayChainInterfaceKind::InProcess
    }
}

/// What a parachain node does with the blocks of its chain.
#[derive(Clone, Copy, Debug, PartialEq, Eq, Structural)]
pub enum ParachainRole {
    /// Authors blocks and hands them to the relay chain.
    Collator,
    /// Follows the chain without authoring.
    FullNode,
}

/// The plan of a parachain node.
#[derive(Clone, Copy, Debug, PartialEq, Eq, Structural)]
pub struct NodePlan {
    pub partial: PartialPlan,
    pub relay_chain: RelayChainInterfaceKind,
    pub offchain_workers: bool,
    pub role: ParachainRole,
}

/// The plan of a parachain node from its configuration.
pub open spec fn spec_node_plan(
    is_authority: bool,
    offchain_worker_enabled: bool,
    rpc_url_count: usize,
    telemetry_endpoints: Option<usize>,
) -> NodePlan {
    NodePlan {
        partial: spec_partial_plan(false, false, telemetry_endpoints),
        relay_chain: spec_relay_chain_interface(rpc_url_count),
        offchain_workers: offchain_worker_enabled,
        role: if is_authority {
            ParachainRole::Collator
        } else {
            ParachainRole::FullNode
        },
    }
}

/// Plans a parachain node: an authority collates, any other node follows
/// the chain; offchain workers run when enabled.
pub fn node_plan(
    is_authority: bool,
    offchain_worker_enabled: bool,
    rpc_url_count: usize,
    telemetry_endpoints: Option<usize>,
) -> (p: NodePlan)
    ensures
        p == spec_node_plan(is_authority, offchain_worker_enabled, rpc_url_count, telemetry_endpoints),
        (p.role == ParachainRole::Collator) <==> is_authority,
        p.offchain_workers == offchain_worker_enabled,
        (p.relay_chain == RelayChainInterfaceKind::MinimalNode) <==> rpc_url_count > 0,
        p.partial.telemetry <==> (telemetry_endpoints matches Some(n) && n > 0),
        !p.partial.longest_chain,
{
    let partial = partial_plan(false, false, telemetry_endpoints);
    let relay_chain = relay_chain_interface_kind(rpc_url_count);
    let role = if is_authority {
        ParachainRole::Collator
    } else {
        ParachainRole::FullNode
    };
    NodePlan { partial, relay_chain, offchain_workers: offchain_worker_enabled, role }
}

/// How a development node authors blocks.
#[derive(Clone, Copy, Debug, PartialEq, Eq, Structural)]
pub enum DevAuthoring {
    /// A block is sealed whenever a transaction is imported or an RPC asks for one.
    InstantSeal,
    /// Blocks are authored in Aura slots.
    Aura,
    /// The node does not author blocks.
    NoAuthoring,
}

/// The plan of a development node.
#[derive(Clone, Copy, Debug, PartialEq, Eq, Structural)]
pub struct DevNodePlan {
    pub partial: PartialPlan,
    pub offchain_workers: bool,
    pub authoring: DevAuthoring,
    /// RPC handlers get a channel to command the authoring task.
    pub rpc_command_sink: bool,
}

/// The plan of a development node from its configuration.
pub open spec fn spec_dev_node_plan(
    is_authority: bool,
    instant_sealing: bool,
    offchain_worker_enabled: bool,
    telemetry_endpoints: Option<usize>,
) -> DevNodePlan {
    let authoring = if !is_authority {
        DevAuthoring::NoAuthoring
    } else if instant_sealing {
        DevAuthoring::InstantSeal
    } else {
        DevAuthoring::Aura
    };
    DevNodePlan {
        partial: spec_partial_plan(true, instant_sealing, telemetry_endpoints),
        offchain_workers: offchain_worker_enabled,
        authoring,
        rpc_command_sink: authoring == DevAuthoring::InstantSeal,
    }
}

/// Plans a development node: an authority seals instantly or authors in
/// Aura slots; RPC handlers can command only instant sealing.
pub fn dev_node_plan(
    is_authority: bool,
    instant_sealing: bool,
    offchain_worker_enabled: bool,
    telemetry_endpoints: Option<usize>,
) -> (p: DevNodePlan)
    ensures
        p == spec_dev_node_plan(
            is_authority,
            instant_sealing,
            offchain_worker_enabled,
            telemetry_endpoints,
        ),
        !is_authority ==> p.authoring == DevAuthoring::NoAuthoring && !p.rpc_command_sink,
        is_authority && instant_sealing ==> p.authoring == DevAuthoring::InstantSeal
            && p.rpc_command_sink,
        is_authority && !instant_sealing ==> p.authoring == DevAuthoring::Aura && !p.rpc_command_sink,
        p.offchain_workers == offchain_worker_enabled,
        p.partial.telemetry <==> (telemetry_endpoints matches Some(n) && n > 0),
        p.partial.longest_chain,
{
    let partial = partial_plan(true, instant_sealing, telemetry_endpoints);
    let (authoring, rpc_command_sink) = if !is_authority {
        (DevAuthoring::NoAuthoring, false)
    } else if instant_sealing {
        (DevAuthoring::InstantSeal, true)
    } else {
        (DevAuthoring::Aura, false)
    };
    DevNodePlan { partial, offchain_workers: offchain_worker_enabled, authoring, rpc_command_sink }
}

/// The command an imported transaction sends to the instant-seal task.
#[derive(Clone, Copy, Debug, PartialEq, Eq, Structural)]
pub struct SealCommand {
    /// Seal a block even if it holds no transaction.
    pub create_empty: bool,
    /// Finalize the sealed block at once.
    pub finalize: bool,
}

/// On each imported transaction a new block is sealed, never an empty
/// one, and finalized at once.
pub fn seal_on_import() -> (c: SealCommand)
    ensures
        !c.create_empty,
        c.finalize,
{
    SealCommand { create_empty: false, finalize: true }
}

/// The runtime a chain is executed with.
#[derive(Clone, Copy, Debug, PartialEq, Eq, Structural)]
pub enum RuntimeVariant {
    Mandala,
    Karura,
    Acala,
}

/// Which runtimes the node was built with.
#[derive(Clone, Copy, Debug, PartialEq, Eq, Structural)]
pub struct RuntimeAvailability {
    pub mandala: bool,
    pub karura: bool,
    pub acala: bool,
}

/// A chain specification asks for a runtime the node was built without.
#[derive(Clone, Copy, Debug, PartialEq, Eq, Structural)]
pub enum ChainOpsError {
    MandalaRuntimeNotAvailable,
    KaruraRuntimeNotAvailable,
    AcalaRuntimeNotAvailable,
}

impl ChainOpsError {
    /// The error text reported to the user.
    pub fn message(&self) -> (m: &'static str)
        ensures
            m == match *self {
                ChainOpsError::MandalaRuntimeNotAvailable => MANDALA_RUNTIME_NOT_AVAILABLE,
                ChainOpsError::KaruraRuntimeNotAvailable => KARURA_RUNTIME_NOT_AVAILABLE,
                ChainOpsError::AcalaRuntimeNotAvailable => ACALA_RUNTIME_NOT_AVAILABLE,
            },
    {
        match *self {
            ChainOpsError::MandalaRuntimeNotAvailable => MANDALA_RUNTIME_NOT_AVAILABLE,
            ChainOpsError::KaruraRuntimeNotAvailable => KARURA_RUNTIME_NOT_AVAILABLE,
            ChainOpsError::AcalaRuntimeNotAvailable => ACALA_RUNTIME_NOT_AVAILABLE,
        }
    }
}

/// How chain operations open a chain: with which runtime, and whether its
/// partial components are those of a development chain.
#[derive(Clone, Copy, Debug, PartialEq, Eq, Structural)]
pub struct ChainOpsPlan {
    pub runtime: RuntimeVariant,
    pub dev: bool,
}

/// The chain-operations plan for the chain with identifier `id`.
pub open spec fn spec_chain_ops_plan(id: Seq<char>, available: RuntimeAvailability) -> Result<
    ChainOpsPlan,
    ChainOpsError,
> {
    if is_mandala_id(id) {
        if available.mandala {
            Ok(ChainOpsPlan { runtime: RuntimeVariant::Mandala, dev: is_dev_id(id) })
        } else {
            Err(ChainOpsError::MandalaRuntimeNotAvailable)
        }
    } else if is_karura_id(id) {
        if available.karura {
            Ok(ChainOpsPlan { runtime: RuntimeVariant::Karura, dev: false })
        } else {
            Err(ChainOpsError::KaruraRuntimeNotAvailable)
        }
    } else if available.acala {
        Ok(ChainOpsPlan { runtime: RuntimeVariant::Acala, dev: false })
    } else {
        Err(ChainOpsError::AcalaRuntimeNotAvailable)
    }
}

/// Chooses the runtime for chain operations on the chain with identifier
/// `chain_id`: Mandala chains (development ones as such), then Karura
/// chains, and every other chain with the Acala runtime; it is an error
/// when the node was built without that runtime.
pub fn chain_ops_plan(chain_id: &str, available: RuntimeAvailability) -> (r: Result<
    ChainOpsPlan,
    ChainOpsError,
>)
    ensures
        r == spec_chain_ops_plan(chain_id@, available),
        is_mandala_id(chain_id@) && available.mandala ==> r == Ok::<ChainOpsPlan, ChainOpsError>(
            ChainOpsPlan { runtime: RuntimeVariant::Mandala, dev: is_dev_id(chain_id@) },
        ),
        is_mandala_id(chain_id@) && !available.mandala ==> r == Err::<ChainOpsPlan, ChainOpsError>(
            ChainOpsError::MandalaRuntimeNotAvailable,
        ),
{
    if chain_id.is_mandala() {
        if available.mandala {
            Ok(ChainOpsPlan { runtime: RuntimeVariant::Mandala, dev: chain_id.is_dev() })
        } else {
            Err(ChainOpsError::MandalaRuntimeNotAvailable)
        }
    } else if chain_id.is_karura() {
        if available.karura {
            Ok(ChainOpsPlan { runtime: RuntimeVariant::Karura, dev: false })
        } else {
            Err(ChainOpsError::KaruraRuntimeNotAvailable)
        }
    } else if available.acala {
        Ok(ChainOpsPlan { runtime: RuntimeVariant::Acala, dev: false })
    } else {
        Err(ChainOpsError::AcalaRuntimeNotAvailable)
    }
}

/// A development node always has a longest-chain selection, and imports
/// blocks locally; a parachain node imports them through the relay chain.
pub proof fn dev_partial_has_select_chain(
    dev: bool,
    instant_sealing: bool,
    telemetry_endpoints: Option<usize>,
)
    ensures
        dev ==> spec_partial_plan(dev, instant_sealing, telemetry_endpoints).longest_chain,
        (spec_partial_plan(dev, instant_sealing, telemetry_endpoints).import_queue
            == ImportQueueKind::ParachainAura) <==> !dev,
{
}

/// The blocks a development authority authors are the ones its import
/// queue expects: instantly sealed blocks go with the manual-seal queue,
/// Aura blocks with the Aura queue.
pub proof fn dev_authoring_matches_import_queue(
    instant_sealing: bool,
    offchain_worker_enabled: bool,
    telemetry_endpoints: Option<usize>,
)
    ensures
        ({
            let p = spec_dev_node_plan(
                true,
                instant_sealing,
                offchain_worker_enabled,
                telemetry_endpoints,
            );
            &&& (p.authoring == DevAuthoring::InstantSeal) <==> (p.partial.import_queue
                == ImportQueueKind::ManualSeal)
            &&& (p.authoring == DevAuthoring::Aura) <==> (p.partial.import_queue
                == ImportQueueKind::DevAura)
            &&& p.partial.longest_chain
        }),
{
}

/// Chain operations run a chain with the runtime of the network its
/// identifier names: Mandala for Mandala chains, Karura for Karura chains,
/// Acala for Acala chains and any other; only Mandala chains can be opened
/// as development chains.
pub proof fn chain_ops_follows_network(id: Seq<char>, available: RuntimeAvailability)
    ensures
        spec_chain_ops_plan(id, available) matches Ok(p) ==> {
            &&& (p.runtime == RuntimeVariant::Mandala) <==> is_mandala_id(id)
            &&& (p.runtime == RuntimeVariant::Karura) <==> is_karura_id(id)
            &&& (p.runtime == RuntimeVariant::Acala) <==> (!is_mandala_id(id) && !is_karura_id(
                id,
            ))
            &&& p.dev ==> is_mandala_id(id) && is_dev_id(id)
        },
        is_acala_id(id) && available.acala ==> spec_chain_ops_plan(id, available) == Ok::<
            ChainOpsPlan,
            ChainOpsError,
        >(ChainOpsPlan { runtime: RuntimeVariant::Acala, dev: false }),
        is_karura_id(id) && available.karura ==> spec_chain_ops_plan(id, available) == Ok::<
            ChainOpsPlan,
            ChainOpsError,
        >(ChainOpsPlan { runtime: RuntimeVariant::Karura, dev: false }),
{
    networks_are_exclusive(id);
}

/// A telemetry worker is started exactly when at least one telemetry
/// endpoint is configured, for development and parachain nodes alike; a
/// longest-chain selection is built exactly for development nodes.
pub proof fn partial_plan_telemetry_and_chain_selection(
    dev: bool,
    instant_sealing: bool,
    telemetry_endpoints: Option<usize>,
)
    ensures
        spec_partial_plan(dev, instant_sealing, telemetry_endpoints).telemetry <==> (
        telemetry_endpoints matches Some(n) && n > 0),
        spec_partial_plan(dev, instant_sealing, telemetry_endpoints).longest_chain == dev,
        dev && instant_sealing ==> spec_partial_plan(dev, instant_sealing, telemetry_endpoints).import_queue
            == ImportQueueKind::ManualSeal,
        dev && !instant_sealing ==> spec_partial_plan(
            dev,
            instant_sealing,
            telemetry_endpoints,
        ).import_queue == ImportQueueKind::DevAura,
{
}

/// A parachain node collates exactly when it is an authority, whichever
/// relay-chain interface it uses; it runs offchain workers exactly when they
/// are enabled, whatever its role; it reaches the relay chain through a
/// minimal node exactly when relay-chain RPC URLs are given; and its
/// telemetry follows the configured endpoints.
pub proof fn node_plan_role_and_workers(
    is_authority: bool,
    offchain_worker_enabled: bool,
    rpc_url_count: usize,
    telemetry_endpoints: Option<usize>,
)
    ensures
        ({
            let p = spec_node_plan(
                is_authority,
                offchain_worker_enabled,
                rpc_url_count,
                telemetry_endpoints,
            );
            &&& (p.role == ParachainRole::Collator) <==> is_authority
            &&& (p.role == ParachainRole::FullNode) <==> !is_authority
            &&& p.offchain_workers == offchain_worker_enabled
            &&& (p.relay_chain == RelayChainInterfaceKind::MinimalNode) <==> rpc_url_count > 0
            &&& p.partial.telemetry <==> (telemetry_endpoints matches Some(n) && n > 0)
            &&& !p.partial.longest_chain
            &&& p.partial.import_queue == ImportQueueKind::ParachainAura
        }),
{
}

/// Only an authority authors blocks on a development chain: with instant
/// sealing it seals on demand and gives RPC handlers a command sink, without
/// it authors in Aura slots; a non-authority authors nothing and gets no
/// command sink. Offchain workers run exactly when enabled, and telemetry
/// follows the configured endpoints.
pub proof fn dev_node_authoring_by_authority(
    is_authority: bool,
    instant_sealing: bool,
    offchain_worker_enabled: bool,
    telemetry_endpoints: Option<usize>,
)
    ensures
        ({
            let p = spec_dev_node_plan(
                is_authority,
                instant_sealing,
                offchain_worker_enabled,
                telemetry_endpoints,
            );
            &&& !is_authority ==> p.authoring == DevAuthoring::NoAuthoring && !p.rpc_command_sink
            &&& is_authority && instant_sealing ==> p.authoring == DevAuthoring::InstantSeal
                && p.rpc_command_sink
            &&& is_authority && !instant_sealing ==> p.authoring == DevAuthoring::Aura
                && !p.rpc_command_sink
            &&& p.rpc_command_sink <==> (is_authority && instant_sealing)
            &&& p.offchain_workers == offchain_worker_enabled
            &&& p.partial.telemetry <==> (telemetry_endpoints matches Some(n) && n > 0)
            &&& p.partial.longest_chain
        }),
{
}

/// Chain operations open a Mandala chain with the Mandala runtime whenever
/// the node has it, as a development chain exactly when the identifier ends
/// in "dev", whatever other runtimes the node has; a Karura chain with the
/// Karura runtime and any other chain with the Acala runtime, never as
/// development chains; and report the missing runtime otherwise.
pub proof fn chain_ops_runtime_and_dev(id: Seq<char>, available: RuntimeAvailability)
    ensures
        is_mandala_id(id) && available.mandala ==> spec_chain_ops_plan(id, available) == Ok::<
            ChainOpsPlan,
            ChainOpsError,
        >(ChainOpsPlan { runtime: RuntimeVariant::Mandala, dev: is_dev_id(id) }),
        is_mandala_id(id) && !available.mandala ==> spec_chain_ops_plan(id, available) == Err::<
            ChainOpsPlan,
            ChainOpsError,
        >(ChainOpsError::MandalaRuntimeNotAvailable),
        !is_mandala_id(id) && is_karura_id(id) ==> spec_chain_ops_plan(id, available) == (if available.karura {
            Ok::<ChainOpsPlan, ChainOpsError>(ChainOpsPlan { runtime: RuntimeVariant::Karura, dev: false })
        } else {
            Err::<ChainOpsPlan, ChainOpsError>(ChainOpsError::KaruraRuntimeNotAvailable)
        }),
        !is_mandala_id(id) && !is_karura_id(id) ==> spec_chain_ops_plan(id, available) == (if available.acala {
            Ok::<ChainOpsPlan, ChainOpsError>(ChainOpsPlan { runtime: RuntimeVariant::Acala, dev: false })
        } else {
            Err::<ChainOpsPlan, ChainOpsError>(ChainOpsError::AcalaRuntimeNotAvailable)
        }),
{
}

} // verus!
