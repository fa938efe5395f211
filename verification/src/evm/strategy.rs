//! A fee strategy held as EVM bytecode and run on an in-memory EVM.

use crate::types::trade_info::{
    after_initialize_calldata, after_swap_calldata, decode_fee_pair, decode_string_bytes,
    encode_after_initialize, fee_pair_of, string_bytes_of, TradeInfo, SELECTOR_GET_NAME,
};
use crate::types::wad::{Wad, MAX_FEE};
use revm::db::{CacheDB, EmptyDBTyped, InMemoryDB};
use crate::evm::strategy::CallOutcome::{Created, Halted, Rejected, Returned, Reverted};
use revm::primitives::ExecutionResult::{Halt, Revert, Success};
use revm::primitives::HaltReason::OutOfGas;
use revm::primitives::Output::{Call, Create};
use revm::primitives::{AccountInfo, Address, Bytecode, Bytes, TxEnv, U256};
use revm::Evm;
use vstd::prelude::*;
use vstd::string::StringExecFns;

verus! {

/// The in-memory account store of the EVM, opaque to the verifier.
#[verifier::external_type_specification]
#[verifier::external_body]
#[verifier::reject_recursive_types(ExtDB)]
pub struct ExCacheDB<ExtDB>(CacheDB<ExtDB>);

/// The backing store under the in-memory one: it holds nothing.
#[verifier::external_type_specification]
#[verifier::external_body]
#[verifier::reject_recursive_types(E)]
pub struct ExEmptyDBTyped<E>(EmptyDBTyped<E>);

/// Why a strategy could not be deployed or run.
#[derive(Debug)]
pub enum EVMError {
    /// The deployment transaction did not leave runtime code.
    DeploymentFailed(String),
    /// A call was rejected, reverted or halted.
    ExecutionFailed(String),
    /// A call returned bytes that hold no valid answer.
    InvalidReturnData(String),
    /// A call used up its gas.
    OutOfGas,
}

/// An `EVMError` with its message as a sequence of characters.
pub enum EVMErrorView {
    DeploymentFailed(Seq<char>),
    ExecutionFailed(Seq<char>),
    InvalidReturnData(Seq<char>),
    OutOfGas,
}

impl View for EVMError {
    type V = EVMErrorView;

    open spec fn view(&self) -> EVMErrorView {
        match self {
            EVMError::DeploymentFailed(m) => EVMErrorView::DeploymentFailed(m@),
            EVMError::ExecutionFailed(m) => EVMErrorView::ExecutionFailed(m@),
            EVMError::InvalidReturnData(m) => EVMErrorView::InvalidReturnData(m@),
            EVMError::OutOfGas => EVMErrorView::OutOfGas,
        }
    }
}

impl EVMErrorView {
    /// The text shown for the error.
    pub open spec fn message(self) -> Seq<char> {
        match self {
            EVMErrorView::DeploymentFailed(m) => "Deployment failed: "@ + m,
            EVMErrorView::ExecutionFailed(m) => "Execution failed: "@ + m,
            EVMErrorView::InvalidReturnData(m) => "Invalid return data: "@ + m,
            EVMErrorView::OutOfGas => "Out of gas"@,
        }
    }
}

impl EVMError {
    /// The text shown for the error.
    pub fn message(&self) -> (r: String)
        ensures
            r@ == self@.message(),
    {
        match self {
            EVMError::DeploymentFailed(m) => String::from_str("Deployment failed: ").concat(
                m.as_str(),
            ),
            EVMError::ExecutionFailed(m) => String::from_str("Execution failed: ").concat(
                m.as_str(),
            ),
            EVMError::InvalidReturnData(m) => String::from_str("Invalid return data: ").concat(
                m.as_str(),
            ),
            EVMError::OutOfGas => String::from_str("Out of gas"),
        }
    }
}

/// How one transaction ended, in plain values.
#[derive(Debug)]
pub enum CallOutcome {
    /// The EVM refused the transaction; its reason as text.
    Rejected(String),
    /// A call ran to its end and returned these bytes.
    Returned(Vec<u8>),
    /// A creation ran to its end and left this runtime code.
    Created(Vec<u8>),
    /// The code reverted; what it returned, as text.
    Reverted(String),
    /// The code halted: whether its gas ran out, and the reason as text.
    Halted(bool, String),
}

/// A `CallOutcome` over sequences.
pub enum CallOutcomeView {
    Rejected(Seq<char>),
    Returned(Seq<u8>),
    Created(Seq<u8>),
    Reverted(Seq<char>),
    Halted(bool, Seq<char>),
}

impl View for CallOutcome {
    type V = CallOutcomeView;

    open spec fn view(&self) -> CallOutcomeView {
        match self {
            CallOutcome::Rejected(t) => CallOutcomeView::Rejected(t@),
            CallOutcome::Returned(d) => CallOutcomeView::Returned(d@),
            CallOutcome::Created(c) => CallOutcomeView::Created(c@),
            CallOutcome::Reverted(t) => CallOutcomeView::Reverted(t@),
            CallOutcome::Halted(out_of_gas, t) => CallOutcomeView::Halted(*out_of_gas, t@),
        }
    }
}

/// What a deployment yields for each way its transaction can end: the
/// runtime code of a finished creation, a deployment failure otherwise.
pub open spec fn deployed_code_of(outcome: CallOutcomeView) -> Result<Seq<u8>, EVMErrorView> {
    match outcome {
        CallOutcomeView::Created(code) => Ok(code),
        CallOutcomeView::Returned(_) => Err(
            EVMErrorView::DeploymentFailed("Expected Create output"@),
        ),
        CallOutcomeView::Reverted(t) => Err(EVMErrorView::DeploymentFailed("Reverted: "@ + t)),
        CallOutcomeView::Halted(_, t) => Err(EVMErrorView::DeploymentFailed("Halted: "@ + t)),
        CallOutcomeView::Rejected(t) => Err(EVMErrorView::DeploymentFailed(t)),
    }
}

/// What a call yields for each way its transaction can end: the returned
/// bytes of a finished call, `OutOfGas` where the gas ran out, an execution
/// failure otherwise.
pub open spec fn returned_data_of(outcome: CallOutcomeView) -> Result<Seq<u8>, EVMErrorView> {
    match outcome {
        CallOutcomeView::Returned(data) => Ok(data),
        CallOutcomeView::Created(_) => Err(
            EVMErrorView::ExecutionFailed("Unexpected Create output"@),
        ),
        CallOutcomeView::Reverted(t) => Err(EVMErrorView::ExecutionFailed("Reverted: "@ + t)),
        CallOutcomeView::Halted(out_of_gas, t) => if out_of_gas {
            Err(EVMErrorView::OutOfGas)
        } else {
            Err(EVMErrorView::ExecutionFailed("Halted: "@ + t))
        },
        CallOutcomeView::Rejected(t) => Err(EVMErrorView::ExecutionFailed(t)),
    }
}

/// The fee pair in returned bytes, or the error for bytes that hold none.
pub open spec fn fee_answer_of(data: Seq<u8>) -> Result<(Wad, Wad), EVMErrorView> {
    match fee_pair_of(data) {
        Some(pair) => Ok(pair),
        None => Err(EVMErrorView::InvalidReturnData("Failed to decode fee pair"@)),
    }
}

/// The runtime code that a deployment transaction left, or why it left none.
pub fn deployed_code(outcome: CallOutcome) -> (r: Result<Vec<u8>, EVMError>)
    ensures
        match r {
            Ok(code) => deployed_code_of(outcome@) == Ok::<Seq<u8>, EVMErrorView>(code@),
            Err(e) => deployed_code_of(outcome@) == Err::<Seq<u8>, EVMErrorView>(e@),
        },
{
    match outcome {
        CallOutcome::Created(code) => Ok(code),
        CallOutcome::Returned(_) => Err(
            EVMError::DeploymentFailed(String::from_str("Expected Create output")),
        ),
        CallOutcome::Reverted(t) => Err(
            EVMError::DeploymentFailed(String::from_str("Reverted: ").concat(t.as_str())),
        ),
        CallOutcome::Halted(_, t) => Err(
            EVMError::DeploymentFailed(String::from_str("Halted: ").concat(t.as_str())),
        ),
        CallOutcome::Rejected(t) => Err(EVMError::DeploymentFailed(t)),
    }
}

/// The bytes that a call returned, or why it returned none.
pub fn returned_data(outcome: CallOutcome) -> (r: Result<Vec<u8>, EVMError>)
    ensures
        match r {
            Ok(data) => returned_data_of(outcome@) == Ok::<Seq<u8>, EVMErrorView>(data@),
            Err(e) => returned_data_of(outcome@) == Err::<Seq<u8>, EVMErrorView>(e@),
        },
{
    match outcome {
        CallOutcome::Returned(data) => Ok(data),
        CallOutcome::Created(_) => Err(
            EVMError::ExecutionFailed(String::from_str("Unexpected Create output")),
        ),
        CallOutcome::Reverted(t) => Err(
            EVMError::ExecutionFailed(String::from_str("Reverted: ").concat(t.as_str())),
        ),
        CallOutcome::Halted(out_of_gas, t) => if out_of_gas {
            Err(EVMError::OutOfGas)
        } else {
            Err(EVMError::ExecutionFailed(String::from_str("Halted: ").concat(t.as_str())))
        },
        CallOutcome::Rejected(t) => Err(EVMError::ExecutionFailed(t)),
    }
}

/// The fee pair that a strategy answered with, or `InvalidReturnData`.
pub fn fee_answer(data: &[u8]) -> (r: Result<(Wad, Wad), EVMError>)
    ensures
        match r {
            Ok(pair) => fee_answer_of(data@) == Ok::<(Wad, Wad), EVMErrorView>(pair),
            Err(e) => fee_answer_of(data@) == Err::<(Wad, Wad), EVMErrorView>(e@),
        },
{
    match decode_fee_pair(data) {
        Some(pair) => Ok(pair),
        None => Err(EVMError::InvalidReturnData(String::from_str("Failed to decode fee pair"))),
    }
}

/// The name in the bytes that `getName` returned: the dynamic string in
/// them, where its bytes are UTF-8.
pub open spec fn name_of(data: Seq<u8>) -> Option<Seq<char>> {
    match string_bytes_of(data) {
        Some(bytes) => if vstd::utf8::valid_utf8(bytes) {
            Some(vstd::utf8::decode_utf8(bytes))
        } else {
            None
        },
        None => None,
    }
}

/// `String::from_utf8`: the string that the bytes encode, exactly where
/// they are valid UTF-8.
#[verifier::external_body]
fn string_from_utf8(bytes: Vec<u8>) -> (r: Option<String>)
    ensures
        r.is_some() == vstd::utf8::valid_utf8(bytes@),
        r.is_some() ==> r.unwrap()@ == vstd::utf8::decode_utf8(bytes@),
{
    String::from_utf8(bytes).ok()
}

/// Read the name that `getName` returned, if the bytes hold one.
pub fn decode_name(data: &[u8]) -> (r: Option<String>)
    ensures
        match r {
            Some(name) => name_of(data@) == Some(name@),
            None => name_of(data@).is_none(),
        },
{
    match decode_string_bytes(data) {
        Some(bytes) => string_from_utf8(bytes),
        None => None,
    }
}

/// The name of a strategy once `getName` has answered with `data`: the name
/// in the answer, or the name as it was where the answer holds none.
pub open spec fn name_after(current: Seq<char>, data: Seq<u8>) -> Seq<char> {
    match name_of(data) {
        Some(name) => name,
        None => current,
    }
}

/// The name to go by once `getName` has answered with `data`.
pub fn answered_name(current: String, data: &[u8]) -> (r: String)
    ensures
        r@ == name_after(current@, data@),
{
    match decode_name(data) {
        Some(name) => name,
        None => current,
    }
}

/// Gas for `afterInitialize`.
pub const GAS_LIMIT_INIT: u64 = 250_000;

/// Gas for `afterSwap`.
pub const GAS_LIMIT_TRADE: u64 = 250_000;

/// Gas for `getName`.
pub const GAS_LIMIT_NAME: u64 = 50_000;

/// Gas for the deployment transaction.
pub const GAS_LIMIT_DEPLOY: u64 = 10_000_000;

/// Balance given to the calling account before deployment.
pub const CALLER_BALANCE: u128 = 1_000_000_000_000_000_000_000;

/// Address at which the strategy's runtime code is installed.
pub const STRATEGY_ADDRESS: [u8; 20] = [
    0x10, 0x00, 0x00, 0x00, 0x00, 0x00, 0x00, 0x00, 0x00, 0x00,
    0x00, 0x00, 0x00, 0x00, 0x00, 0x00, 0x00, 0x00, 0x00, 0x01,
];

/// Address from which every transaction is sent.
pub const CALLER_ADDRESS: [u8; 20] = [
    0x20, 0x00, 0x00, 0x00, 0x00, 0x00, 0x00, 0x00, 0x00, 0x00,
    0x00, 0x00, 0x00, 0x00, 0x00, 0x00, 0x00, 0x00, 0x00, 0x02,
];

/// What the store records of one account: its balance, its nonce and the
/// bytes of its code, if it has any.
pub struct AccountRecord {
    pub balance: nat,
    pub nonce: u64,
    pub code: Option<Seq<u8>>,
}

/// The account records that a store holds, by address.
pub uninterp spec fn accounts_of(db: InMemoryDB) -> Map<Seq<u8>, AccountRecord>;

/// The records of a store without accounts.
pub open spec fn no_accounts() -> Map<Seq<u8>, AccountRecord> {
    Map::empty()
}

/// True of a store in which the strategy's address holds a contract as a
/// deployment leaves it: code, no balance, and the nonce 1.
pub open spec fn strategy_installed(accounts: Map<Seq<u8>, AccountRecord>) -> bool {
    &&& accounts.dom().contains(STRATEGY_ADDRESS@)
    &&& accounts[STRATEGY_ADDRESS@].balance == 0
    &&& accounts[STRATEGY_ADDRESS@].nonce == 1
    &&& accounts[STRATEGY_ADDRESS@].code is Some
}

/// `InMemoryDB::default`: a store that holds no account.
#[verifier::external_body]
fn new_database() -> (db: InMemoryDB)
    ensures
        accounts_of(db) == no_accounts(),
{
    InMemoryDB::default()
}

/// Why the EVM refuses to read `code`, as text, or nothing where it reads
/// it. Code is refused where it claims a container format and does not keep
/// to it; the answer depends on the bytes alone.
pub uninterp spec fn code_refusal(code: Seq<u8>) -> Option<Seq<char>>;

/// `CacheDB::insert_account_info`: the store then records the given balance,
/// nonce and code for `address`, and for every other address what it did
/// before. Code is first read with `Bytecode::new_raw_checked`; where that
/// refuses it, as `code_refusal` names, the store stays as it was and the
/// refusal comes back as its debug text. Without code nothing is refused.
#[verifier::external_body]
fn insert_account(
    db: &mut InMemoryDB,
    address: [u8; 20],
    balance: u128,
    nonce: u64,
    code: Option<Vec<u8>>,
) -> (r: Result<(), String>)
    ensures
        match r {
            Ok(()) => {
                &&& code matches Some(bytes) ==> code_refusal(bytes@) is None
                &&& accounts_of(*final(db)) == accounts_of(*old(db)).insert(
                    address@,
                    AccountRecord {
                        balance: balance as nat,
                        nonce,
                        code: match code {
                            Some(bytes) => Some(bytes@),
                            None => None,
                        },
                    },
                )
            },
            Err(text) => {
                &&& code matches Some(bytes) && code_refusal(bytes@) == Some(text@)
                &&& accounts_of(*final(db)) == accounts_of(*old(db))
            },
        },
{
    let code = match code {
        Some(bytes) => match Bytecode::new_raw_checked(Bytes::from(bytes)) {
            Ok(bytecode) => Some(bytecode),
            Err(error) => return Err(format!("{:?}", error)),
        },
        None => None,
    };
    let code_hash = match &code {
        Some(bytecode) => bytecode.hash_slow(),
        None => Default::default(),
    };
    let info = AccountInfo { balance: U256::from(balance), nonce, code_hash, code };
    db.insert_account_info(Address::new(address), info);
    Ok(())
}

/// What one transaction does: how it ends, and the store that it leaves. Both
/// are decided by the store before it, the sender, the target (none for a
/// creation), the data and the gas limit, and by nothing else.
pub uninterp spec fn evm_transaction(db: InMemoryDB, caller: Seq<u8>, target: Option<Seq<u8>>, data: Seq<u8>, gas_limit: u64) -> (CallOutcomeView, InMemoryDB);

/// A target address as a sequence of bytes.
pub open spec fn target_view(target: Option<[u8; 20]>) -> Option<Seq<u8>> {
    match target {
        Some(address) => Some(address@),
        None => None,
    }
}

/// Run one transaction with `Evm::transact_commit`, which keeps its effects
/// in the store, and tell apart the ways in which it can end: returned bytes
/// and runtime code come back as they are, everything else as its debug
/// text, a halt with the mark of whether the gas ran out. With no `target`
/// the transaction creates a contract from `data`. Outcome and store are
/// what `evm_transaction` names.
#[verifier::external_body]
fn transact(
    db: &mut InMemoryDB,
    caller: [u8; 20],
    target: Option<[u8; 20]>,
    data: &[u8],
    gas_limit: u64,
) -> (r: CallOutcome)
    ensures
        r@ == evm_transaction(*old(db), caller@, target_view(target), data@, gas_limit).0,
        *final(db) == evm_transaction(*old(db), caller@, target_view(target), data@, gas_limit).1,
{
    let env = TxEnv {
        caller: caller.into(),
        transact_to: target.map(Address::new).into(),
        data: Bytes::copy_from_slice(data),
        gas_limit,
        ..Default::default()
    };
    match Evm::builder().with_db(db).with_tx_env(env).build().transact_commit() {
        Err(error) => Rejected(format!("{:?}", error)),
        Ok(Success { output: Call(bytes), .. }) => Returned(bytes.into()),
        Ok(Success { output: Create(code, _), .. }) => Created(code.into()),
        Ok(Revert { output, .. }) => Reverted(format!("{:?}", output)),
        Ok(Halt { reason, .. }) => Halted(matches!(reason, OutOfGas(_)), format!("{:?}", reason)),
    }
}

/// A call to the strategy: the transaction from the caller's address to the
/// strategy's.
pub open spec fn strategy_call(store: InMemoryDB, calldata: Seq<u8>, gas_limit: u64) -> (
    CallOutcomeView,
    InMemoryDB,
) {
    evm_transaction(store, CALLER_ADDRESS@, Some(STRATEGY_ADDRESS@), calldata, gas_limit)
}

/// The creation that a deployment runs: the transaction from the caller's
/// address, without target, with the strategy's init code as data.
pub open spec fn creation(store: InMemoryDB, bytecode: Seq<u8>) -> (CallOutcomeView, InMemoryDB) {
    evm_transaction(store, CALLER_ADDRESS@, None, bytecode, GAS_LIMIT_DEPLOY)
}

/// The records of a store in which only the caller has an account, with its
/// starting balance.
pub open spec fn funded_accounts() -> Map<Seq<u8>, AccountRecord> {
    no_accounts().insert(
        CALLER_ADDRESS@,
        AccountRecord { balance: CALLER_BALANCE as nat, nonce: 0, code: None },
    )
}

/// True where `store` and `r` are what installing the code of a creation
/// leads to. Where the creation left runtime code that the EVM reads, the
/// installation succeeds: the store after the creation gets an account at
/// the strategy's address with that code, no balance and the nonce 1. Where
/// the EVM refuses the code, the deployment has failed with the refusal as
/// its text, and the accounts stay. Where the creation left no code, its
/// error is the result and the store is the one it left.
pub open spec fn installs(
    created: (CallOutcomeView, InMemoryDB),
    r: Result<(), EVMErrorView>,
    store: InMemoryDB,
) -> bool {
    match deployed_code_of(created.0) {
        Ok(code) => match code_refusal(code) {
            None => {
                &&& r == Ok::<(), EVMErrorView>(())
                &&& accounts_of(store) == accounts_of(created.1).insert(
                    STRATEGY_ADDRESS@,
                    AccountRecord { balance: 0, nonce: 1, code: Some(code) },
                )
            },
            Some(text) => {
                &&& r == Err::<(), EVMErrorView>(EVMErrorView::DeploymentFailed(text))
                &&& accounts_of(store) == accounts_of(created.1)
            },
        },
        Err(failure) => r == Err::<(), EVMErrorView>(failure) && store == created.1,
    }
}

/// True where `store` and `r` are what a deployment of `bytecode` leads to
/// that starts from the store `funded`: a store in which only the caller
/// has an account.
pub open spec fn deploys(
    funded: InMemoryDB,
    bytecode: Seq<u8>,
    r: Result<(), EVMErrorView>,
    store: InMemoryDB,
) -> bool {
    accounts_of(funded) == funded_accounts() && installs(creation(funded, bytecode), r, store)
}

/// True where `store` and `r` are what a deployment of `bytecode` leads to.
pub open spec fn is_deployment(
    bytecode: Seq<u8>,
    r: Result<(), EVMErrorView>,
    store: InMemoryDB,
) -> bool {
    exists|funded: InMemoryDB| #[trigger] deploys(funded, bytecode, r, store)
}

/// A strategy deployed on an EVM of its own.
pub struct EVMStrategy {
    /// Name shown for the strategy.
    name: String,
    /// Init code, kept for redeployment.
    bytecode: Vec<u8>,
    /// Account store of the EVM.
    db: InMemoryDB,
    /// Call data of the latest `afterSwap` call.
    trade_calldata: [u8; 196],
}

/// A strategy host as contracts see it.
pub struct EVMStrategyView {
    pub name: Seq<char>,
    pub bytecode: Seq<u8>,
    pub trade_calldata: Seq<u8>,
    pub store: InMemoryDB,
}

impl View for EVMStrategy {
    type V = EVMStrategyView;

    closed spec fn view(&self) -> EVMStrategyView {
        EVMStrategyView {
            name: self.name@,
            bytecode: self.bytecode@,
            trade_calldata: self.trade_calldata@,
            store: self.db,
        }
    }
}

/// The call data buffer of a new host: 196 zero bytes.
pub open spec fn empty_calldata() -> Seq<u8> {
    Seq::new(196, |i: int| 0u8)
}

impl EVMStrategyView {
    /// The bytes that the strategy returns for a call, or the call's error.
    pub open spec fn call_answer(self, calldata: Seq<u8>, gas_limit: u64) -> Result<
        Seq<u8>,
        EVMErrorView,
    > {
        returned_data_of(strategy_call(self.store, calldata, gas_limit).0)
    }

    /// The fees that the strategy answers a call with, or the error.
    pub open spec fn fee_answer(self, calldata: Seq<u8>, gas_limit: u64) -> Result<
        (Wad, Wad),
        EVMErrorView,
    > {
        match self.call_answer(calldata, gas_limit) {
            Ok(data) => fee_answer_of(data),
            Err(e) => Err(e),
        }
    }

    /// The host after a call: its store is the one that the call left.
    pub open spec fn after_call(self, calldata: Seq<u8>, gas_limit: u64) -> EVMStrategyView {
        EVMStrategyView {
            name: self.name,
            bytecode: self.bytecode,
            trade_calldata: self.trade_calldata,
            store: strategy_call(self.store, calldata, gas_limit).1,
        }
    }

    /// The host with other call data in its buffer.
    pub open spec fn with_calldata(self, calldata: Seq<u8>) -> EVMStrategyView {
        EVMStrategyView {
            name: self.name,
            bytecode: self.bytecode,
            trade_calldata: calldata,
            store: self.store,
        }
    }

    /// The host under another name.
    pub open spec fn with_name(self, name: Seq<char>) -> EVMStrategyView {
        EVMStrategyView {
            name,
            bytecode: self.bytecode,
            trade_calldata: self.trade_calldata,
            store: self.store,
        }
    }

    /// The host after it has asked the strategy for its name: where the call
    /// returns, the name is the one in the answer, or the name as it was
    /// where the answer holds none. Where the call fails, the name stays.
    pub open spec fn after_name_call(self) -> EVMStrategyView {
        let asked = self.after_call(SELECTOR_GET_NAME@, GAS_LIMIT_NAME);
        match self.call_answer(SELECTOR_GET_NAME@, GAS_LIMIT_NAME) {
            Ok(answer) => asked.with_name(name_after(self.name, answer)),
            Err(_) => asked,
        }
    }

    /// The result of asking the strategy for its name: the call's error, if
    /// any.
    pub open spec fn name_call_result(self) -> Result<(), EVMErrorView> {
        match self.call_answer(SELECTOR_GET_NAME@, GAS_LIMIT_NAME) {
            Ok(_) => Ok(()),
            Err(e) => Err(e),
        }
    }

    /// True where `after` and `r` are what deploying this host's bytecode
    /// anew leads to: name, bytecode and call data stay, and the store is
    /// that of the deployment.
    pub open spec fn redeployed(self, r: Result<(), EVMErrorView>, after: EVMStrategyView) -> bool {
        &&& after.name == self.name
        &&& after.bytecode == self.bytecode
        &&& after.trade_calldata == self.trade_calldata
        &&& is_deployment(self.bytecode, r, after.store)
        &&& r is Ok ==> strategy_installed(accounts_of(after.store))
    }
}

/// A result with bytes, as contracts see it.
pub open spec fn data_result_view(r: Result<Vec<u8>, EVMError>) -> Result<Seq<u8>, EVMErrorView> {
    match r {
        Ok(data) => Ok(data@),
        Err(e) => Err(e@),
    }
}

/// A result with a fee pair, as contracts see it.
pub open spec fn fee_result_view(r: Result<(Wad, Wad), EVMError>) -> Result<
    (Wad, Wad),
    EVMErrorView,
> {
    match r {
        Ok(pair) => Ok(pair),
        Err(e) => Err(e@),
    }
}

/// A result without a value, as contracts see it.
pub open spec fn unit_result_view(r: Result<(), EVMError>) -> Result<(), EVMErrorView> {
    match r {
        Ok(()) => Ok(()),
        Err(e) => Err(e@),
    }
}

/// A result with a host, as contracts see it.
pub open spec fn host_result_view(r: Result<EVMStrategy, EVMError>) -> Result<
    EVMStrategyView,
    EVMErrorView,
> {
    match r {
        Ok(strategy) => Ok(strategy@),
        Err(e) => Err(e@),
    }
}

/// True where `r` is what constructing a host leads to whose deployment
/// succeeded and left the store `deployed`: the host then asks the strategy
/// for its name, and is the result unless that call fails.
pub open spec fn constructs(
    deployed: InMemoryDB,
    bytecode: Seq<u8>,
    default_name: Seq<char>,
    r: Result<EVMStrategyView, EVMErrorView>,
) -> bool {
    let fresh = EVMStrategyView {
        name: default_name,
        bytecode,
        trade_calldata: empty_calldata(),
        store: deployed,
    };
    &&& is_deployment(bytecode, Ok(()), deployed)
    &&& strategy_installed(accounts_of(deployed))
    &&& match fresh.name_call_result() {
        Ok(()) => r == Ok::<EVMStrategyView, EVMErrorView>(fresh.after_name_call()),
        Err(e) => r == Err::<EVMStrategyView, EVMErrorView>(e),
    }
}

/// True where `r` is the error of a deployment of `bytecode` that failed
/// and left the store `store`.
pub open spec fn fails_to_deploy(
    store: InMemoryDB,
    bytecode: Seq<u8>,
    r: Result<EVMStrategyView, EVMErrorView>,
) -> bool {
    match r {
        Ok(_) => false,
        Err(e) => is_deployment(bytecode, Err(e), store),
    }
}

/// True where `r` is what constructing a host from `bytecode` and
/// `default_name` leads to: the error of a failed deployment, or else what
/// follows a deployment that succeeded.
pub open spec fn is_construction(
    bytecode: Seq<u8>,
    default_name: Seq<char>,
    r: Result<EVMStrategyView, EVMErrorView>,
) -> bool {
    ||| exists|store: InMemoryDB| #[trigger] fails_to_deploy(store, bytecode, r)
    ||| exists|deployed: InMemoryDB| #[trigger] constructs(deployed, bytecode, default_name, r)
}

/// Hosts in one state answer one call alike and are left in one state: what
/// a strategy answers depends on its host's state and the call alone.
pub proof fn lemma_same_state_same_answer(
    a: EVMStrategyView,
    b: EVMStrategyView,
    calldata: Seq<u8>,
    gas_limit: u64,
)
    requires
        a == b,
    ensures
        a.call_answer(calldata, gas_limit) == b.call_answer(calldata, gas_limit),
        a.fee_answer(calldata, gas_limit) == b.fee_answer(calldata, gas_limit),
        a.after_call(calldata, gas_limit) == b.after_call(calldata, gas_limit),
{
}

impl EVMStrategy {
    /// Deploy `bytecode` on a fresh EVM and ask the strategy for its name.
    /// The name stays `default_name` unless the strategy returns one.
    pub fn new(bytecode: Vec<u8>, default_name: String) -> (r: Result<EVMStrategy, EVMError>)
        ensures
            is_construction(bytecode@, default_name@, host_result_view(r)),
    {
        let mut strategy = EVMStrategy {
            name: default_name,
            bytecode,
            db: new_database(),
            trade_calldata: [0u8; 196],
        };
        assert(strategy.trade_calldata@ =~= empty_calldata());
        match strategy.deploy() {
            Ok(()) => {},
            Err(e) => {
                assert(fails_to_deploy(
                    strategy@.store,
                    bytecode@,
                    Err::<EVMStrategyView, EVMErrorView>(e@),
                ));
                return Err(e);
            },
        }
        let ghost deployed = strategy@;
        let named = strategy.fetch_name();
        let r = match named {
            Ok(()) => Ok(strategy),
            Err(e) => Err(e),
        };
        assert(constructs(deployed.store, bytecode@, default_name@, host_result_view(r)));
        r
    }

    /// Start from an empty EVM, fund the caller, run the init code and
    /// install the runtime code it leaves at the strategy's address. Runtime
    /// code that the EVM cannot read counts as a failed deployment.
    fn deploy(&mut self) -> (r: Result<(), EVMError>)
        ensures
            old(self)@.redeployed(unit_result_view(r), final(self)@),
    {
        self.db = new_database();
        match insert_account(&mut self.db, CALLER_ADDRESS, CALLER_BALANCE, 0, None) {
            Ok(()) => {},
            Err(text) => {
                return Err(EVMError::DeploymentFailed(text));
            },
        }
        let ghost funded = self.db;
        let outcome = transact(
            &mut self.db,
            CALLER_ADDRESS,
            None,
            self.bytecode.as_slice(),
            GAS_LIMIT_DEPLOY,
        );
        let r = self.install(outcome);
        assert(deploys(funded, self.bytecode@, unit_result_view(r), self.db));
        r
    }

    /// Finish a deployment whose creation ended in `outcome`, as `installs`
    /// says.
    fn install(&mut self, outcome: CallOutcome) -> (r: Result<(), EVMError>)
        ensures
            final(self)@.name == old(self)@.name,
            final(self)@.bytecode == old(self)@.bytecode,
            final(self)@.trade_calldata == old(self)@.trade_calldata,
            installs((outcome@, old(self)@.store), unit_result_view(r), final(self)@.store),
            r is Ok ==> strategy_installed(accounts_of(final(self)@.store)),
    {
        match deployed_code(outcome) {
            Ok(code) => match insert_account(&mut self.db, STRATEGY_ADDRESS, 0, 1, Some(code)) {
                Ok(()) => Ok(()),
                Err(text) => Err(EVMError::DeploymentFailed(text)),
            },
            Err(e) => Err(e),
        }
    }

    /// Ask the strategy for its name and keep it if the answer holds one.
    fn fetch_name(&mut self) -> (r: Result<(), EVMError>)
        ensures
            unit_result_view(r) == old(self)@.name_call_result(),
            final(self)@ == old(self)@.after_name_call(),
    {
        let selector = SELECTOR_GET_NAME;
        match self.call(&selector, GAS_LIMIT_NAME) {
            Ok(data) => {
                let mut current = String::new();
                core::mem::swap(&mut current, &mut self.name);
                self.name = answered_name(current, data.as_slice());
                Ok(())
            },
            Err(e) => Err(e),
        }
    }

    /// The strategy's name.
    pub fn name(&self) -> (r: &str)
        ensures
            r@ == self@.name,
    {
        self.name.as_str()
    }

    /// Tell the strategy the starting reserves and get its starting fees:
    /// the pair that its answer to the `afterInitialize` call holds, each fee
    /// at most `MAX_FEE`.
    pub fn after_initialize(&mut self, initial_x: Wad, initial_y: Wad) -> (r: Result<
        (Wad, Wad),
        EVMError,
    >)
        ensures
            final(self)@ == old(self)@.after_call(
                after_initialize_calldata(initial_x, initial_y),
                GAS_LIMIT_INIT,
            ),
            fee_result_view(r) == old(self)@.fee_answer(
                after_initialize_calldata(initial_x, initial_y),
                GAS_LIMIT_INIT,
            ),
            r matches Ok(pair) ==> 0 <= pair.0.0 <= MAX_FEE && 0 <= pair.1.0 <= MAX_FEE,
    {
        let calldata = encode_after_initialize(initial_x, initial_y);
        match self.call(&calldata, GAS_LIMIT_INIT) {
            Ok(data) => fee_answer(data.as_slice()),
            Err(e) => Err(e),
        }
    }

    /// Tell the strategy of a trade and get its next fees: the pair that its
    /// answer to the `afterSwap` call holds, each fee at most `MAX_FEE`. The
    /// call data of the trade stays in the host.
    pub fn after_swap(&mut self, trade: &TradeInfo) -> (r: Result<(Wad, Wad), EVMError>)
        ensures
            final(self)@ == old(self)@.with_calldata(after_swap_calldata(*trade)).after_call(
                after_swap_calldata(*trade),
                GAS_LIMIT_TRADE,
            ),
            fee_result_view(r) == old(self)@.fee_answer(
                after_swap_calldata(*trade),
                GAS_LIMIT_TRADE,
            ),
            r matches Ok(pair) ==> 0 <= pair.0.0 <= MAX_FEE && 0 <= pair.1.0 <= MAX_FEE,
    {
        trade.encode_calldata(&mut self.trade_calldata);
        let calldata = self.trade_calldata;
        match self.call(&calldata, GAS_LIMIT_TRADE) {
            Ok(data) => fee_answer(data.as_slice()),
            Err(e) => Err(e),
        }
    }

    /// Deploy the strategy anew on an empty EVM.
    pub fn reset(&mut self) -> (r: Result<(), EVMError>)
        ensures
            old(self)@.redeployed(unit_result_view(r), final(self)@),
    {
        self.deploy()
    }

    /// A host of its own for the same bytecode, deployed on a fresh EVM, with
    /// this host's name as the default name. Nothing of this host's EVM
    /// state is carried over.
    pub fn try_clone(&self) -> (r: Result<EVMStrategy, EVMError>)
        ensures
            is_construction(self@.bytecode, self@.name, host_result_view(r)),
    {
        EVMStrategy::new(self.bytecode.clone(), self.name.clone())
    }

    /// Send `calldata` to the strategy and take what it returns.
    fn call(&mut self, calldata: &[u8], gas_limit: u64) -> (r: Result<Vec<u8>, EVMError>)
        ensures
            final(self)@ == old(self)@.after_call(calldata@, gas_limit),
            data_result_view(r) == old(self)@.call_answer(calldata@, gas_limit),
    {
        let outcome = transact(
            &mut self.db,
            CALLER_ADDRESS,
            Some(STRATEGY_ADDRESS),
            calldata,
            gas_limit,
        );
        returned_data(outcome)
    }
}

} // verus!
