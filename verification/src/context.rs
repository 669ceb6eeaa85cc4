//! Models of the caller-supplied account references and of the execution
//! context that owns the cache.
//!
//! A legacy reference carries an address directly; an indexed reference names
//! an account by its position within an instruction frame, which maps it to a
//! transaction-wide index, which in turn names an address.

use vstd::prelude::*;

use crate::address::Address;
use crate::sysvar_cache::CacheModel;
use crate::sysvar_cache::SysvarCache;
use crate::InstructionError;

verus! {

/// A legacy account reference: a handle exposing the account's address
/// directly.
pub struct KeyedAccount {
    key: Address,
}

impl View for KeyedAccount {
    type V = Seq<u8>;

    closed spec fn view(&self) -> Seq<u8> {
        self.key@
    }
}

impl KeyedAccount {
    /// Builds a reference to the account at `key`.
    pub fn new(key: Address) -> (r: KeyedAccount)
        ensures
            r@ == key@,
    {
        KeyedAccount { key }
    }

    /// The account's address, stated without any signer information.
    pub fn unsigned_key(&self) -> (r: &Address)
        ensures
            r@ == self@,
    {
        &self.key
    }
}

/// The per-unit-of-work account list: the addresses of every account loaded
/// for the transaction, by transaction-wide index.
pub struct TransactionContext {
    account_keys: Vec<Address>,
}

impl View for TransactionContext {
    type V = Seq<Seq<u8>>;

    closed spec fn view(&self) -> Seq<Seq<u8>> {
        self.account_keys@.map_values(|a: Address| a@)
    }
}

impl TransactionContext {
    /// Builds a context over the given account addresses.
    pub fn new(account_keys: Vec<Address>) -> (r: TransactionContext)
        ensures
            r@ == account_keys@.map_values(|a: Address| a@),
    {
        TransactionContext { account_keys }
    }

    /// Looks an account's address up by its transaction-wide index.
    pub fn get_key_of_account_at_index(&self, index_in_transaction: usize) -> (r: Result<
        &Address,
        InstructionError,
    >)
        ensures
            index_in_transaction < self@.len() ==> (r matches Ok(a) && a@ == self@[
                index_in_transaction as int
            ]),
            index_in_transaction >= self@.len() ==> (r matches Err(e) && e
                == InstructionError::NotEnoughAccountKeys),
    {
        if index_in_transaction < self.account_keys.len() {
            Ok(&self.account_keys[index_in_transaction])
        } else {
            Err(InstructionError::NotEnoughAccountKeys)
        }
    }
}

/// What resolving an indexed account reference yields: the address at the
/// named position, or the resolver's own error when either index is out of
/// range.
pub open spec fn resolved_key(
    transaction_context: TransactionContext,
    instruction_context: InstructionContext,
    instruction_account_index: usize,
) -> Result<Seq<u8>, InstructionError> {
    if instruction_account_index >= instruction_context@.len() {
        Err(InstructionError::NotEnoughAccountKeys)
    } else if instruction_context@[instruction_account_index as int]
        >= transaction_context@.len() {
        Err(InstructionError::NotEnoughAccountKeys)
    } else {
        Ok(transaction_context@[instruction_context@[instruction_account_index as int] as int])
    }
}

/// One instruction's frame: for each account the instruction references, the
/// transaction-wide index it resolves to.
pub struct InstructionContext {
    instruction_accounts: Vec<usize>,
}

impl View for InstructionContext {
    type V = Seq<usize>;

    closed spec fn view(&self) -> Seq<usize> {
        self.instruction_accounts@
    }
}

impl InstructionContext {
    /// Builds a frame whose accounts resolve to the given transaction-wide
    /// indexes.
    pub fn new(instruction_accounts: Vec<usize>) -> (r: InstructionContext)
        ensures
            r@ == instruction_accounts@,
    {
        InstructionContext { instruction_accounts }
    }

    /// Resolves the instruction-level account index to an address, first
    /// through this frame, then through the transaction's account list.
    pub fn get_instruction_account_key<'a>(
        &self,
        transaction_context: &'a TransactionContext,
        instruction_account_index: usize,
    ) -> (r: Result<&'a Address, InstructionError>)
        ensures
            match resolved_key(*transaction_context, *self, instruction_account_index) {
                Ok(k) => r matches Ok(a) && a@ == k,
                Err(e) => r matches Err(e2) && e2 == e,
            },
    {
        if instruction_account_index >= self.instruction_accounts.len() {
            return Err(InstructionError::NotEnoughAccountKeys);
        }
        let index_in_transaction = self.instruction_accounts[instruction_account_index];
        transaction_context.get_key_of_account_at_index(index_in_transaction)
    }
}

/// The execution context of one unit of work: it owns the snapshot cache and
/// the transaction's account list.
pub struct InvokeContext {
    /// The account list of the unit of work.
    pub transaction_context: TransactionContext,
    /// The snapshot cache of the unit of work.
    pub sysvar_cache: SysvarCache,
}

impl InvokeContext {
    /// The model of the cache this context owns.
    pub open spec fn sysvar_cache_model(&self) -> CacheModel {
        self.sysvar_cache@
    }

    /// Builds a context around an account list and a cache.
    pub fn new(transaction_context: TransactionContext, sysvar_cache: SysvarCache) -> (r:
        InvokeContext)
        ensures
            r.transaction_context == transaction_context,
            r.sysvar_cache_model() == sysvar_cache@,
    {
        InvokeContext { transaction_context, sysvar_cache }
    }

    /// The cache this context owns.
    pub fn get_sysvar_cache(&self) -> (r: &SysvarCache)
        ensures
            r@ == self.sysvar_cache_model(),
    {
        &self.sysvar_cache
    }
}

} // verus!
