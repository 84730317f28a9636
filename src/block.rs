use vstd::prelude::*;

verus! {

/// The network whose upgrade heights and subsidy schedule apply.
#[derive(Clone, Copy, Debug, PartialEq, Eq, Structural)]
pub enum Network {
    Mainnet,
    Testnet,
}

/// A transparent input of a transaction.
#[derive(Clone, Copy, Debug, PartialEq, Eq)]
pub enum Input {
    /// Spends output `index` of the earlier transaction whose hash is `hash`.
    PrevOut { hash: [u8; 32], index: u32 },
    /// Creates new coins; carries the height of the block that holds it.
    Coinbase { height: u32 },
}

/// A transparent output: the amount it pays, in zatoshis.
#[derive(Clone, Copy, Debug, PartialEq, Eq, Structural)]
pub struct Output {
    pub value: u64,
}

/// The parts of a transaction that the block checks read.
#[derive(Clone, Debug, PartialEq, Eq)]
pub struct Transaction {
    pub inputs: Vec<Input>,
    pub outputs: Vec<Output>,
}

/// A block header, field by field as it is serialized.
#[derive(Clone, Debug, PartialEq, Eq)]
pub struct Header {
    pub version: u32,
    pub previous_block_hash: [u8; 32],
    pub merkle_root: [u8; 32],
    pub commitment_bytes: [u8; 32],
    /// Seconds since the Unix epoch, as declared by the miner.
    pub time: u32,
    /// The target in compact form.
    pub difficulty_threshold: u32,
    pub nonce: [u8; 32],
    /// The Equihash solution, without its length prefix.
    pub solution: Vec<u8>,
}

/// A block: its header and its transactions, in order.
#[derive(Clone, Debug, PartialEq, Eq)]
pub struct Block {
    pub header: Header,
    pub transactions: Vec<Transaction>,
}

impl Input {
    pub fn is_coinbase(&self) -> (r: bool)
        ensures
            r == (*self is Coinbase),
    {
        match self {
            Input::Coinbase { .. } => true,
            Input::PrevOut { .. } => false,
        }
    }
}

impl Transaction {
    /// A coinbase transaction has one input, and that input is a coinbase input.
    pub open spec fn spec_is_coinbase(&self) -> bool {
        self.inputs@.len() == 1 && self.inputs@[0] is Coinbase
    }

    /// Some input of the transaction is a coinbase input.
    pub open spec fn spec_contains_coinbase_input(&self) -> bool {
        exists|i: int| 0 <= i < self.inputs@.len() && (#[trigger] self.inputs@[i]) is Coinbase
    }

    pub fn is_coinbase(&self) -> (r: bool)
        ensures
            r == self.spec_is_coinbase(),
    {
        self.inputs.len() == 1 && self.inputs[0].is_coinbase()
    }

    pub fn contains_coinbase_input(&self) -> (r: bool)
        ensures
            r == self.spec_contains_coinbase_input(),
    {
        let mut i: usize = 0;
        while i < self.inputs.len()
            invariant
                i <= self.inputs@.len(),
                forall|j: int| 0 <= j < i ==> !((#[trigger] self.inputs@[j]) is Coinbase),
            decreases self.inputs@.len() - i,
        {
            if self.inputs[i].is_coinbase() {
                return true;
            }
            i += 1;
        }
        false
    }
}

impl Block {
    /// The height carried by the first input of the first transaction, when that
    /// input is a coinbase input.
    pub open spec fn spec_coinbase_height(&self) -> Option<u32> {
        if self.transactions@.len() > 0 && self.transactions@[0].inputs@.len() > 0 {
            match self.transactions@[0].inputs@[0] {
                Input::Coinbase { height } => Some(height),
                Input::PrevOut { .. } => None,
            }
        } else {
            None
        }
    }

    pub fn coinbase_height(&self) -> (r: Option<u32>)
        ensures
            r == self.spec_coinbase_height(),
    {
        if self.transactions.len() == 0 || self.transactions[0].inputs.len() == 0 {
            return None;
        }
        match self.transactions[0].inputs[0] {
            Input::Coinbase { height } => Some(height),
            Input::PrevOut { .. } => None,
        }
    }
}

} // verus!
