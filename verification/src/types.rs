//! Data model: lock descriptors, cells, the transaction snapshot, the decoded
//! selling parameters, and the error kinds the engine can report.
use vstd::prelude::*;

verus! {

/// Identifies the policy governing a cell: which code runs, how the code hash
/// is interpreted, and with what argument bytes. Two descriptors denote the
/// same lock exactly when all three fields are byte-identical.
pub struct LockDescriptor {
    pub code_hash: Vec<u8>,
    pub hash_type: u8,
    pub args: Vec<u8>,
}

/// Mathematical image of a `LockDescriptor`.
#[verifier::ext_equal]
pub struct LockDescriptorModel {
    pub code_hash: Seq<u8>,
    pub hash_type: u8,
    pub args: Seq<u8>,
}

impl View for LockDescriptor {
    type V = LockDescriptorModel;

    open spec fn view(&self) -> LockDescriptorModel {
        LockDescriptorModel {
            code_hash: self.code_hash@,
            hash_type: self.hash_type,
            args: self.args@,
        }
    }
}

/// A unit of value in the ledger: its capacity, the lock that authorizes
/// consuming it, and an optional type descriptor carrying extra semantics.
pub struct Cell {
    pub capacity: u64,
    pub lock: LockDescriptor,
    pub type_: Option<LockDescriptor>,
}

/// Mathematical image of a `Cell`.
#[verifier::ext_equal]
pub struct CellModel {
    pub capacity: u64,
    pub lock: LockDescriptorModel,
    pub type_: Option<LockDescriptorModel>,
}

impl View for Cell {
    type V = CellModel;

    open spec fn view(&self) -> CellModel {
        CellModel {
            capacity: self.capacity,
            lock: self.lock@,
            type_: match self.type_ {
                Some(t) => Some(t@),
                None => None,
            },
        }
    }
}

/// The mathematical image of a list of cells.
pub open spec fn cells_model(cells: Seq<Cell>) -> Seq<CellModel> {
    cells.map_values(|c: Cell| c@)
}

/// Read-only snapshot of the transaction under verification: the cells it
/// consumes and the cells it produces, in order.
pub struct TransactionView {
    pub inputs: Vec<Cell>,
    pub outputs: Vec<Cell>,
}

/// Mathematical image of a `TransactionView`.
#[verifier::ext_equal]
pub struct TransactionModel {
    pub inputs: Seq<CellModel>,
    pub outputs: Seq<CellModel>,
}

impl View for TransactionView {
    type V = TransactionModel;

    open spec fn view(&self) -> TransactionModel {
        TransactionModel { inputs: cells_model(self.inputs@), outputs: cells_model(self.outputs@) }
    }
}

/// The policy parameters decoded from the invoking lock's own argument bytes:
/// who must be paid, and how much.
pub struct SellingInfo {
    pub owner_lock: LockDescriptor,
    pub price: u64,
}

/// Mathematical image of a `SellingInfo`.
#[verifier::ext_equal]
pub struct SellingInfoModel {
    pub owner_lock: LockDescriptorModel,
    pub price: u64,
}

impl View for SellingInfo {
    type V = SellingInfoModel;

    open spec fn view(&self) -> SellingInfoModel {
        SellingInfoModel { owner_lock: self.owner_lock@, price: self.price }
    }
}

/// Why an invocation rejects the transaction.
#[derive(Clone, Copy, Debug, PartialEq, Eq, Structural)]
pub enum Error {
    /// The invoking lock's own argument bytes are shorter than the minimal
    /// layout, so the policy parameters cannot be recovered.
    InvalidArgs,
    /// Neither the owner path nor the purchase path authorizes consumption.
    InvalidUnlock,
}

} // verus!
