//! The mint bookkeeping: who owns the contract, what a mint costs, and which
//! seed belongs to which token.
//!
//! Token ids are handed out in order, starting at zero, so the seeds form a
//! sequence and the total supply is its length. A token and its seed are
//! recorded together or not at all: a mint that the price or the ownership
//! registry refuses leaves the state as it was.
//!
//! The registry is not part of this crate. A mint is told the registry's
//! answer to recording the next token id for the caller; `authorize_mint`
//! says which token id that is, and whether to ask at all.
use vstd::prelude::*;
use crate::erc721;
use crate::erc721::ERC721NonexistentToken;
use crate::error::registry_error;
use crate::error::InsufficientPayment;
use crate::error::NotOwner;
use crate::error::SquiggleError;
use crate::metadata::seed_token_uri;
use crate::metadata::token_uri_text;
use crate::metadata::TOKEN_NAME;
use crate::metadata::TOKEN_SYMBOL;
use crate::primitives::Address;
use crate::primitives::Seed;
use crate::primitives::U256;
use crate::seed::generate_seed;
use crate::seed::seed_of;

verus! {

/// What the chain tells of the call in progress.
#[derive(Clone, Copy, Debug, PartialEq, Eq)]
pub struct Environment {
    /// The number of the current block.
    pub block_number: u64,
    /// The account that makes the call.
    pub msg_sender: Address,
    /// The chain that the contract lives on.
    pub chain_id: u64,
    /// The payment attached to the call.
    pub msg_value: U256,
    /// The balance that the contract holds.
    pub contract_balance: U256,
}

/// The error of a mint that was paid too little.
pub open spec fn insufficient_payment() -> SquiggleError {
    SquiggleError::InsufficientPayment(InsufficientPayment {  })
}

/// The error of a call that only the owner may make.
pub open spec fn not_owner() -> SquiggleError {
    SquiggleError::NotOwner(NotOwner {  })
}

/// The error of a query for a token that was never minted.
pub open spec fn nonexistent_token(token_id: U256) -> SquiggleError {
    SquiggleError::NonexistentToken(ERC721NonexistentToken { token_id })
}

/// The state of the contract as mathematics.
pub struct ContractModel {
    pub owner: Seq<u8>,
    pub mint_price: nat,
    /// The seed of each token, by token id.
    pub seeds: Seq<Seq<u8>>,
}

impl ContractModel {
    /// The number of tokens minted so far, which is the next token id.
    pub open spec fn total_supply(self) -> nat {
        self.seeds.len()
    }

    /// The state with one more token, of the given seed.
    pub open spec fn with_token(self, seed: Seq<u8>) -> ContractModel {
        ContractModel { seeds: self.seeds.push(seed), ..self }
    }

    /// The state with another mint price.
    pub open spec fn with_price(self, mint_price: nat) -> ContractModel {
        ContractModel { mint_price, ..self }
    }

    /// What a mint answers: the new token's id, or why there is none. The
    /// payment is looked at first, the registry's answer second.
    pub open spec fn mint(self, payment: nat, registry: Result<(), erc721::Error>) -> Result<
        nat,
        SquiggleError,
    > {
        if payment < self.mint_price {
            Err(insufficient_payment())
        } else {
            match registry {
                Err(e) => Err(registry_error(e)),
                Ok(_) => Ok(self.total_supply()),
            }
        }
    }

    /// The state after a mint: one more token if the mint succeeded, and no
    /// change if it failed.
    pub open spec fn after_mint(
        self,
        payment: nat,
        seed: Seq<u8>,
        registry: Result<(), erc721::Error>,
    ) -> ContractModel {
        if self.mint(payment, registry) is Ok {
            self.with_token(seed)
        } else {
            self
        }
    }

    /// What a change of the mint price answers.
    pub open spec fn update_mint_price(self, caller: Seq<u8>) -> Result<(), SquiggleError> {
        if caller == self.owner {
            Ok(())
        } else {
            Err(not_owner())
        }
    }

    /// The state after a change of the mint price was asked for.
    pub open spec fn after_update_mint_price(self, caller: Seq<u8>, new_price: nat) -> ContractModel {
        if caller == self.owner {
            self.with_price(new_price)
        } else {
            self
        }
    }
}

/// A call that can change the state of the contract.
pub enum Call {
    /// A mint with the given payment, for a token of the given seed, and the
    /// registry's answer to it.
    Mint { payment: nat, seed: Seq<u8>, registry: Result<(), erc721::Error> },
    /// A change of the mint price, asked for by `caller`.
    UpdateMintPrice { caller: Seq<u8>, new_price: nat },
}

impl ContractModel {
    /// The state after a call.
    pub open spec fn after(self, call: Call) -> ContractModel {
        match call {
            Call::Mint { payment, seed, registry } => self.after_mint(payment, seed, registry),
            Call::UpdateMintPrice { caller, new_price } => self.after_update_mint_price(
                caller,
                new_price,
            ),
        }
    }

    /// The token id that a call issues, if it issues one.
    pub open spec fn issued(self, call: Call) -> Option<nat> {
        match call {
            Call::Mint { payment, seed, registry } => match self.mint(payment, registry) {
                Ok(token_id) => Some(token_id),
                Err(_) => None,
            },
            Call::UpdateMintPrice { .. } => None,
        }
    }

    /// The state after a sequence of calls, made one after the other.
    pub open spec fn after_all(self, calls: Seq<Call>) -> ContractModel
        decreases calls.len(),
    {
        if calls.len() == 0 {
            self
        } else {
            self.after_all(calls.drop_last()).after(calls.last())
        }
    }

    /// The token id that call `k` of a sequence of calls issues, if it issues
    /// one.
    pub open spec fn issued_at(self, calls: Seq<Call>, k: int) -> Option<nat> {
        self.after_all(calls.take(k)).issued(calls[k])
    }
}

/// A mint that is paid less than the mint price fails for that reason,
/// whatever the registry would answer, and leaves the state as it was.
pub proof fn lemma_underpaid_mint(
    state: ContractModel,
    payment: nat,
    seed: Seq<u8>,
    registry: Result<(), erc721::Error>,
)
    requires
        payment < state.mint_price,
    ensures
        state.mint(payment, registry) == Err::<nat, SquiggleError>(insufficient_payment()),
        state.after_mint(payment, seed, registry) == state,
{
}

/// A mint that the registry refuses fails with the registry's error and
/// leaves the state as it was.
pub proof fn lemma_refused_mint(
    state: ContractModel,
    payment: nat,
    seed: Seq<u8>,
    refusal: erc721::Error,
)
    requires
        payment >= state.mint_price,
    ensures
        state.mint(payment, Err(refusal)) == Err::<nat, SquiggleError>(registry_error(refusal)),
        state.after_mint(payment, seed, Err(refusal)) == state,
{
}

/// A change of the mint price that anyone but the owner asks for fails, and
/// leaves the state as it was.
pub proof fn lemma_only_owner_sets_price(state: ContractModel, caller: Seq<u8>, new_price: nat)
    requires
        caller != state.owner,
    ensures
        state.update_mint_price(caller) == Err::<(), SquiggleError>(not_owner()),
        state.after_update_mint_price(caller, new_price) == state,
{
}

/// No call changes the owner, takes a token away or changes a token's seed;
/// a call that issues a token id issues the total supply, and adds one to it.
pub proof fn lemma_call_keeps_tokens(state: ContractModel, call: Call)
    ensures
        state.after(call).owner == state.owner,
        state.seeds.is_prefix_of(state.after(call).seeds),
        match state.issued(call) {
            Some(token_id) => token_id == state.total_supply() && state.after(call).total_supply()
                == token_id + 1,
            None => state.after(call).seeds == state.seeds,
        },
{
}

/// Over any sequence of calls the owner stays, and the tokens minted before
/// stay as they were.
pub proof fn lemma_calls_keep_tokens(state: ContractModel, calls: Seq<Call>)
    ensures
        state.after_all(calls).owner == state.owner,
        state.seeds.is_prefix_of(state.after_all(calls).seeds),
    decreases calls.len(),
{
    if calls.len() > 0 {
        lemma_calls_keep_tokens(state, calls.drop_last());
        lemma_call_keeps_tokens(state.after_all(calls.drop_last()), calls.last());
    }
}

/// The total supply never goes down: after the first `j` calls of a
/// sequence it is at most what it is after the first `k`, for `j <= k`.
pub proof fn lemma_supply_grows(state: ContractModel, calls: Seq<Call>, j: int, k: int)
    requires
        0 <= j <= k <= calls.len(),
    ensures
        state.after_all(calls.take(j)).total_supply() <= state.after_all(
            calls.take(k),
        ).total_supply(),
    decreases k - j,
{
    if j < k {
        lemma_supply_grows(state, calls, j, k - 1);
        assert(calls.take(k).drop_last() =~= calls.take(k - 1));
        lemma_call_keeps_tokens(state.after_all(calls.take(k - 1)), calls[k - 1]);
    }
}

/// No token id is issued twice: of two calls that both issue a token id, the
/// later one issues the larger id.
pub proof fn lemma_token_ids_increase(state: ContractModel, calls: Seq<Call>, j: int, k: int)
    requires
        0 <= j < k < calls.len(),
        state.issued_at(calls, j) is Some,
        state.issued_at(calls, k) is Some,
    ensures
        state.issued_at(calls, j)->0 < state.issued_at(calls, k)->0,
{
    let before_j = state.after_all(calls.take(j));
    let before_k = state.after_all(calls.take(k));
    lemma_call_keeps_tokens(before_j, calls[j]);
    lemma_call_keeps_tokens(before_k, calls[k]);
    assert(calls.take(j + 1).drop_last() =~= calls.take(j));
    assert(state.after_all(calls.take(j + 1)) == before_j.after(calls[j]));
    lemma_supply_grows(state, calls, j + 1, k);
}

/// Token ids are dense and in mint order: where the first `n` calls of a
/// sequence are all successful mints, the total supply grows by `n`, and the
/// call after them, if it is a successful mint too, issues the id `n` above
/// the total supply at the start. On a new contract, the mint number `n`,
/// counted from zero, issues the token id `n`.
pub proof fn lemma_token_ids_dense(state: ContractModel, calls: Seq<Call>, n: int)
    requires
        0 <= n <= calls.len(),
        forall|i: int| 0 <= i < n ==> (#[trigger] state.issued_at(calls, i)) is Some,
    ensures
        state.after_all(calls.take(n)).total_supply() == state.total_supply() + n,
        forall|i: int| 0 <= i < n ==> #[trigger] state.issued_at(calls, i) == Some(
            (state.total_supply() + i) as nat,
        ),
    decreases n,
{
    if n > 0 {
        lemma_token_ids_dense(state, calls, n - 1);
        assert(calls.take(n).drop_last() =~= calls.take(n - 1));
        assert(state.issued_at(calls, n - 1) is Some);
        lemma_call_keeps_tokens(state.after_all(calls.take(n - 1)), calls[n - 1]);
    } else {
        assert(calls.take(0) =~= Seq::<Call>::empty());
    }
}

/// The state of the contract.
#[derive(Clone, Debug, PartialEq, Eq)]
pub struct ContractState {
    owner: Address,
    mint_price: U256,
    seeds: Vec<Seed>,
}

impl View for ContractState {
    type V = ContractModel;

    closed spec fn view(&self) -> ContractModel {
        ContractModel {
            owner: self.owner@,
            mint_price: self.mint_price@,
            seeds: self.seeds@.map_values(|seed: Seed| seed@),
        }
    }
}

impl ContractState {
    /// The state of a new contract: the caller owns it, and nothing is minted.
    pub fn constructor(env: &Environment, mint_price: U256) -> (state: ContractState)
        ensures
            state@.owner == env.msg_sender@,
            state@.mint_price == mint_price@,
            state@.seeds == Seq::<Seq<u8>>::empty(),
    {
        let state = ContractState { owner: env.msg_sender, mint_price, seeds: Vec::new() };
        assert(state@.seeds =~= Seq::<Seq<u8>>::empty());
        state
    }

    /// A state that was stored away, put together again.
    pub fn restore(owner: Address, mint_price: U256, seeds: Vec<Seed>) -> (state: ContractState)
        ensures
            state@.owner == owner@,
            state@.mint_price == mint_price@,
            state@.seeds == seeds@.map_values(|seed: Seed| seed@),
    {
        ContractState { owner, mint_price, seeds }
    }

    /// The name of the collection.
    pub fn name() -> (name: String)
        ensures
            name@ == TOKEN_NAME@,
    {
        TOKEN_NAME.to_owned()
    }

    /// The symbol of the collection.
    pub fn symbol() -> (symbol: String)
        ensures
            symbol@ == TOKEN_SYMBOL@,
    {
        TOKEN_SYMBOL.to_owned()
    }

    /// The owner of the contract.
    pub fn owner(&self) -> (owner: Address)
        ensures
            owner@ == self@.owner,
    {
        self.owner
    }

    /// The price of a mint.
    pub fn mint_price(&self) -> (price: U256)
        ensures
            price@ == self@.mint_price,
    {
        self.mint_price
    }

    /// The number of tokens minted so far.
    pub fn total_supply(&self) -> (supply: U256)
        ensures
            supply@ == self@.total_supply(),
    {
        U256::from_usize(self.seeds.len())
    }

    /// The seed of a token, if the token was minted.
    pub fn seed(&self, token_id: &U256) -> (seed: Option<Seed>)
        ensures
            seed is Some <==> token_id@ < self@.total_supply(),
            seed matches Some(s) ==> s@ == self@.seeds[token_id@ as int],
    {
        let supply = self.seeds.len();
        assert(self@.total_supply() == supply);
        match token_id.to_usize() {
            Some(index) => {
                if index < supply {
                    Some(self.seeds[index])
                } else {
                    None
                }
            },
            None => None,
        }
    }

    /// The metadata of a token, as a `data:` URI. There is none for a token
    /// that was never minted.
    pub fn token_uri(&self, token_id: U256) -> (uri: Result<String, SquiggleError>)
        ensures
            match uri {
                Ok(text) => token_id@ < self@.total_supply() && text@ == token_uri_text(
                    self@.seeds[token_id@ as int],
                ),
                Err(e) => token_id@ >= self@.total_supply() && e == nonexistent_token(token_id),
            },
    {
        match self.seed(&token_id) {
            Some(seed) => Ok(seed_token_uri(seed)),
            None => Err(SquiggleError::NonexistentToken(ERC721NonexistentToken { token_id })),
        }
    }

    /// Whether the caller has paid for a mint, and if so, the id of the token
    /// that the registry is to record for the caller.
    pub fn authorize_mint(&self, env: &Environment) -> (token_id: Result<U256, SquiggleError>)
        ensures
            match token_id {
                Ok(id) => env.msg_value@ >= self@.mint_price && id@ == self@.total_supply(),
                Err(e) => env.msg_value@ < self@.mint_price && e == insufficient_payment(),
            },
    {
        if env.msg_value.lt(&self.mint_price) {
            Err(SquiggleError::InsufficientPayment(InsufficientPayment {  }))
        } else {
            Ok(self.total_supply())
        }
    }

    /// Mints a token with the given seed, where `registry` is the registry's
    /// answer to recording the next token id for the caller. A mint that is
    /// paid too little, or that the registry refuses, changes nothing.
    pub fn mint_with_seed(
        &mut self,
        env: &Environment,
        seed: Seed,
        registry: Result<(), erc721::Error>,
    ) -> (token_id: Result<U256, SquiggleError>)
        ensures
            final(self)@ == old(self)@.after_mint(env.msg_value@, seed@, registry),
            match token_id {
                Ok(id) => old(self)@.mint(env.msg_value@, registry) == Ok::<nat, SquiggleError>(
                    id@,
                ),
                Err(e) => old(self)@.mint(env.msg_value@, registry) == Err::<nat, SquiggleError>(
                    e,
                ),
            },
    {
        let token_id = self.authorize_mint(env)?;
        match registry {
            Err(e) => Err(SquiggleError::from(e)),
            Ok(_) => {
                self.seeds.push(seed);
                assert(self@.seeds =~= old(self)@.seeds.push(seed@));
                Ok(token_id)
            },
        }
    }

    /// Mints a token for the caller, where `registry` is the registry's
    /// answer to recording the next token id for the caller. The token's seed
    /// is derived from the block, the caller and the chain.
    pub fn mint(&mut self, env: &Environment, registry: Result<(), erc721::Error>) -> (token_id:
        Result<U256, SquiggleError>)
        ensures
            final(self)@ == old(self)@.after_mint(
                env.msg_value@,
                seed_of(env.block_number, env.msg_sender@, env.chain_id),
                registry,
            ),
            match token_id {
                Ok(id) => old(self)@.mint(env.msg_value@, registry) == Ok::<nat, SquiggleError>(
                    id@,
                ),
                Err(e) => old(self)@.mint(env.msg_value@, registry) == Err::<nat, SquiggleError>(
                    e,
                ),
            },
    {
        match self.authorize_mint(env) {
            Err(e) => Err(e),
            Ok(_) => {
                let seed = generate_seed(env.block_number, &env.msg_sender, env.chain_id);
                self.mint_with_seed(env, seed, registry)
            },
        }
    }

    /// Sets the price of a mint. Only the owner may.
    pub fn update_mint_price(&mut self, env: &Environment, new_price: U256) -> (done: Result<
        (),
        SquiggleError,
    >)
        ensures
            done == old(self)@.update_mint_price(env.msg_sender@),
            final(self)@ == old(self)@.after_update_mint_price(env.msg_sender@, new_price@),
    {
        if !env.msg_sender.same_as(&self.owner) {
            return Err(SquiggleError::NotOwner(NotOwner {  }));
        }
        self.mint_price = new_price;
        Ok(())
    }

    /// The balance that the contract holds. Only the owner may ask.
    pub fn get_contract_balance(&self, env: &Environment) -> (balance: Result<U256, SquiggleError>)
        ensures
            match balance {
                Ok(amount) => env.msg_sender@ == self@.owner && amount == env.contract_balance,
                Err(e) => env.msg_sender@ != self@.owner && e == not_owner(),
            },
    {
        if !env.msg_sender.same_as(&self.owner) {
            return Err(SquiggleError::NotOwner(NotOwner {  }));
        }
        Ok(env.contract_balance)
    }
}

} // verus!
