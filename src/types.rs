//! Plain configuration values shared by the components.
use vstd::prelude::*;

verus! {

/// Which client program runs in the container.
#[derive(Clone, Copy, Debug, PartialEq, Eq, Structural)]
pub enum EthereumProgram {
    Parity,
    GoEthereum,
}

/// Whether a supervised process is launched again after it exits.
#[derive(Clone, Copy, Debug, PartialEq, Eq, Structural)]
pub enum RestartPolicy {
    No,
    Always,
    OnFailure,
}

/// The role of this node in the fleet.
#[derive(Clone, Debug)]
pub enum NodeType {
    Miner { index: usize, miner_count: usize, sealer_mnemonic: String },
    Transactor { miner_count: usize, sealer_mnemonic: String },
}

impl NodeType {
    pub fn is_miner(&self) -> (r: bool)
        ensures
            r == (self is Miner),
    {
        match self {
            NodeType::Miner { .. } => true,
            _ => false,
        }
    }

    pub fn is_transactor(&self) -> (r: bool)
        ensures
            r == (self is Transactor),
    {
        match self {
            NodeType::Transactor { .. } => true,
            _ => false,
        }
    }

    /// The fleet's designated first node: the miner of index zero.
    pub fn is_first_miner(&self) -> (r: bool)
        ensures
            r == (self matches NodeType::Miner { index, .. } && index == 0),
    {
        match self {
            NodeType::Miner { index, .. } => *index == 0,
            NodeType::Transactor { .. } => false,
        }
    }
}

} // verus!
