//! Transactions as they are submitted and as the runtime executes them.

use vstd::prelude::*;
use crate::felt::{all_canonical, all_in_field, Felt};

verus! {

/// A transaction as a client submits it. Every word is as it came off the
/// wire: it may lie outside the field, and the fee bound and the nonce may be
/// absent.
#[derive(Clone, Debug, PartialEq, Eq)]
pub enum WireTransaction {
    Invoke {
        sender_address: Felt,
        calldata: Vec<Felt>,
        signature: Vec<Felt>,
        max_fee: Option<Felt>,
        nonce: Option<Felt>,
    },
    Declare {
        sender_address: Felt,
        class_hash: Felt,
        /// Present for a class that comes with compiled code.
        compiled_class_hash: Option<Felt>,
        signature: Vec<Felt>,
        max_fee: Option<Felt>,
        nonce: Option<Felt>,
    },
    DeployAccount {
        class_hash: Felt,
        contract_address_salt: Felt,
        constructor_calldata: Vec<Felt>,
        signature: Vec<Felt>,
        max_fee: Option<Felt>,
        nonce: Option<Felt>,
    },
}

/// A wire transaction as a mathematical value.
pub enum WireTransactionView {
    Invoke {
        sender_address: Felt,
        calldata: Seq<Felt>,
        signature: Seq<Felt>,
        max_fee: Option<Felt>,
        nonce: Option<Felt>,
    },
    Declare {
        sender_address: Felt,
        class_hash: Felt,
        compiled_class_hash: Option<Felt>,
        signature: Seq<Felt>,
        max_fee: Option<Felt>,
        nonce: Option<Felt>,
    },
    DeployAccount {
        class_hash: Felt,
        contract_address_salt: Felt,
        constructor_calldata: Seq<Felt>,
        signature: Seq<Felt>,
        max_fee: Option<Felt>,
        nonce: Option<Felt>,
    },
}

impl View for WireTransaction {
    type V = WireTransactionView;

    open spec fn view(&self) -> WireTransactionView {
        match *self {
            WireTransaction::Invoke { sender_address, calldata, signature, max_fee, nonce } => {
                WireTransactionView::Invoke {
                    sender_address,
                    calldata: calldata@,
                    signature: signature@,
                    max_fee,
                    nonce,
                }
            },
            WireTransaction::Declare {
                sender_address,
                class_hash,
                compiled_class_hash,
                signature,
                max_fee,
                nonce,
            } => WireTransactionView::Declare {
                sender_address,
                class_hash,
                compiled_class_hash,
                signature: signature@,
                max_fee,
                nonce,
            },
            WireTransaction::DeployAccount {
                class_hash,
                contract_address_salt,
                constructor_calldata,
                signature,
                max_fee,
                nonce,
            } => WireTransactionView::DeployAccount {
                class_hash,
                contract_address_salt,
                constructor_calldata: constructor_calldata@,
                signature: signature@,
                max_fee,
                nonce,
            },
        }
    }
}

impl DeepView for WireTransaction {
    type V = WireTransactionView;

    open spec fn deep_view(&self) -> WireTransactionView {
        self@
    }
}

/// A transaction as the runtime executes it. Besides the three kinds that
/// clients submit there is the message from the base layer, which only the
/// chain itself originates.
#[derive(Clone, Debug, PartialEq, Eq)]
pub enum ExecutableTransaction {
    Invoke {
        sender_address: Felt,
        calldata: Vec<Felt>,
        signature: Vec<Felt>,
        max_fee: u128,
        nonce: Felt,
    },
    Declare {
        sender_address: Felt,
        class_hash: Felt,
        compiled_class_hash: Option<Felt>,
        signature: Vec<Felt>,
        max_fee: u128,
        nonce: Felt,
    },
    DeployAccount {
        /// Where the account will live.
        contract_address: Felt,
        class_hash: Felt,
        contract_address_salt: Felt,
        constructor_calldata: Vec<Felt>,
        signature: Vec<Felt>,
        max_fee: u128,
        nonce: Felt,
    },
    L1Handler {
        contract_address: Felt,
        entry_point_selector: Felt,
        calldata: Vec<Felt>,
        nonce: Felt,
    },
}

/// An executable transaction as a mathematical value.
pub enum ExecutableTransactionView {
    Invoke {
        sender_address: Felt,
        calldata: Seq<Felt>,
        signature: Seq<Felt>,
        max_fee: u128,
        nonce: Felt,
    },
    Declare {
        sender_address: Felt,
        class_hash: Felt,
        compiled_class_hash: Option<Felt>,
        signature: Seq<Felt>,
        max_fee: u128,
        nonce: Felt,
    },
    DeployAccount {
        contract_address: Felt,
        class_hash: Felt,
        contract_address_salt: Felt,
        constructor_calldata: Seq<Felt>,
        signature: Seq<Felt>,
        max_fee: u128,
        nonce: Felt,
    },
    L1Handler {
        contract_address: Felt,
        entry_point_selector: Felt,
        calldata: Seq<Felt>,
        nonce: Felt,
    },
}

impl View for ExecutableTransaction {
    type V = ExecutableTransactionView;

    open spec fn view(&self) -> ExecutableTransactionView {
        match *self {
            ExecutableTransaction::Invoke {
                sender_address,
                calldata,
                signature,
                max_fee,
                nonce,
            } => {
                ExecutableTransactionView::Invoke {
                    sender_address,
                    calldata: calldata@,
                    signature: signature@,
                    max_fee,
                    nonce,
                }
            },
            ExecutableTransaction::Declare {
                sender_address,
                class_hash,
                compiled_class_hash,
                signature,
                max_fee,
                nonce,
            } => ExecutableTransactionView::Declare {
                sender_address,
                class_hash,
                compiled_class_hash,
                signature: signature@,
                max_fee,
                nonce,
            },
            ExecutableTransaction::DeployAccount {
                contract_address,
                class_hash,
                contract_address_salt,
                constructor_calldata,
                signature,
                max_fee,
                nonce,
            } => ExecutableTransactionView::DeployAccount {
                contract_address,
                class_hash,
                contract_address_salt,
                constructor_calldata: constructor_calldata@,
                signature: signature@,
                max_fee,
                nonce,
            },
            ExecutableTransaction::L1Handler {
                contract_address,
                entry_point_selector,
                calldata,
                nonce,
            } => ExecutableTransactionView::L1Handler {
                contract_address,
                entry_point_selector,
                calldata: calldata@,
                nonce,
            },
        }
    }
}

impl DeepView for ExecutableTransaction {
    type V = ExecutableTransactionView;

    open spec fn deep_view(&self) -> ExecutableTransactionView {
        self@
    }
}

impl ExecutableTransactionView {
    /// The single words of the transaction, the nonce among them.
    pub open spec fn words(self) -> Seq<Felt> {
        match self {
            ExecutableTransactionView::Invoke { sender_address, nonce, .. } => {
                seq![sender_address, nonce]
            },
            ExecutableTransactionView::Declare {
                sender_address,
                class_hash,
                compiled_class_hash,
                nonce,
                ..
            } => match compiled_class_hash {
                Some(compiled) => seq![sender_address, class_hash, nonce, compiled],
                None => seq![sender_address, class_hash, nonce],
            },
            ExecutableTransactionView::DeployAccount {
                contract_address,
                class_hash,
                contract_address_salt,
                nonce,
                ..
            } => seq![contract_address, class_hash, contract_address_salt, nonce],
            ExecutableTransactionView::L1Handler {
                contract_address,
                entry_point_selector,
                nonce,
                ..
            } => seq![contract_address, entry_point_selector, nonce],
        }
    }

    /// The signature. A message from the base layer has none.
    pub open spec fn signature(self) -> Seq<Felt> {
        match self {
            ExecutableTransactionView::Invoke { signature, .. } => signature,
            ExecutableTransactionView::Declare { signature, .. } => signature,
            ExecutableTransactionView::DeployAccount { signature, .. } => signature,
            ExecutableTransactionView::L1Handler { .. } => Seq::<Felt>::empty(),
        }
    }

    /// The call data. A declaration has none.
    pub open spec fn calldata(self) -> Seq<Felt> {
        match self {
            ExecutableTransactionView::Invoke { calldata, .. } => calldata,
            ExecutableTransactionView::Declare { .. } => Seq::<Felt>::empty(),
            ExecutableTransactionView::DeployAccount { constructor_calldata, .. } => {
                constructor_calldata
            },
            ExecutableTransactionView::L1Handler { calldata, .. } => calldata,
        }
    }

    /// Whether every word of the transaction is an element of the field.
    pub open spec fn is_well_formed(self) -> bool {
        &&& all_canonical(self.words())
        &&& all_canonical(self.signature())
        &&& all_canonical(self.calldata())
    }
}

impl ExecutableTransaction {
    /// Tells whether every word of the transaction is an element of the
    /// field.
    pub fn well_formed(&self) -> (well: bool)
        ensures
            well == self@.is_well_formed(),
    {
        match self {
            ExecutableTransaction::Invoke { sender_address, calldata, signature, nonce, .. } => {
                sender_address.in_field() && nonce.in_field() && all_in_field(signature)
                    && all_in_field(calldata)
            },
            ExecutableTransaction::Declare {
                sender_address,
                class_hash,
                compiled_class_hash,
                signature,
                nonce,
                ..
            } => {
                let compiled_fits = match compiled_class_hash {
                    Some(compiled) => compiled.in_field(),
                    None => true,
                };
                sender_address.in_field() && class_hash.in_field() && nonce.in_field()
                    && compiled_fits && all_in_field(signature)
            },
            ExecutableTransaction::DeployAccount {
                contract_address,
                class_hash,
                contract_address_salt,
                constructor_calldata,
                signature,
                nonce,
                ..
            } => {
                contract_address.in_field() && class_hash.in_field()
                    && contract_address_salt.in_field() && nonce.in_field() && all_in_field(
                    signature,
                ) && all_in_field(constructor_calldata)
            },
            ExecutableTransaction::L1Handler {
                contract_address,
                entry_point_selector,
                calldata,
                nonce,
            } => {
                contract_address.in_field() && entry_point_selector.in_field() && nonce.in_field()
                    && all_in_field(calldata)
            },
        }
    }
}

} // verus!
