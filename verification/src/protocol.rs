//! The protocol facade: one factory and one router for one deployment,
//! exposed as a single coherent surface. Chain identity lives in the
//! factory alone; the facade forwards chain get/set to it.

use vstd::prelude::*;
use crate::address::Address;
use crate::address::CodeHash;
use crate::address::canonical_tokens;
use crate::calls::AddLiquidityCall;
use crate::calls::Amount;
use crate::calls::CreatePairCall;
use crate::calls::QuoteRequest;
use crate::calls::RemoveLiquidityCall;
use crate::calls::SwapCall;
use crate::chain::Chain;
use crate::chain::ProtocolType;
use crate::chain::book_entry;
use crate::chain::pair_code_hash_seq;
use crate::errors::Error;
use crate::factory::Factory;
use crate::factory::Pair;
use crate::factory::effective_chain;
use crate::factory::pair_address_seq;
use crate::router::Router;
use crate::router::swap_error;
use crate::router::swap_side_spec;
use crate::slippage::max_in_spec;
use crate::slippage::min_out_spec;

verus! {

/// One protocol deployment: a pair factory and a swap router, composed.
#[derive(Clone, Copy, Debug)]
pub struct Protocol {
    /// The liquidity pair factory.
    pub factory: Factory,
    /// The swap router.
    pub router: Router,
}

impl Protocol {
    /// Creates a new instance from explicit factory and router addresses,
    /// with no chain configured yet.
    pub fn new(factory: Address, router: Address, protocol: ProtocolType) -> (r: Protocol)
        ensures
            r.factory.address == factory,
            r.factory.protocol == protocol,
            r.factory.chain is None,
            r.router.address == router,
    {
        Protocol { factory: Factory::new(factory, protocol), router: Router::new(router) }
    }

    /// Creates a new instance by looking the deployment up in the
    /// addressbook. An unlisted chain/protocol combination yields `None`, an
    /// absence, not an error.
    pub fn new_with_chain(chain: Chain, protocol: ProtocolType) -> (r: Option<Protocol>)
        ensures
            match r {
                Some(p) => {
                    &&& book_entry(protocol, chain) == Some(
                        (p.factory.address@, p.router.address@),
                    )
                    &&& p.factory.protocol == protocol
                    &&& p.factory.chain == Some(chain)
                },
                None => book_entry(protocol, chain) is None,
            },
    {
        match protocol.try_addresses(chain) {
            Some((factory, router)) => {
                let mut this = Protocol::new(factory, router, protocol);
                this.factory.set_chain(chain);
                Some(this)
            },
            None => None,
        }
    }

    /// The protocol's chain, if configured.
    pub fn chain(&self) -> (r: Option<Chain>)
        ensures
            r == self.factory.chain,
    {
        self.factory.chain()
    }

    /// Configures the protocol's chain; the factory is the single authority
    /// on chain identity, so only it changes.
    pub fn set_chain(&mut self, chain: Chain)
        ensures
            final(self).factory.chain == Some(chain),
            final(self).factory.address == old(self).factory.address,
            final(self).factory.protocol == old(self).factory.protocol,
            final(self).router == old(self).router,
    {
        self.factory.set_chain(chain);
    }

    /// A reference to the factory.
    pub fn factory(&self) -> (r: &Factory)
        ensures
            *r == self.factory,
    {
        &self.factory
    }

    /// The factory's bytecode fingerprint lookup; see [`Factory::pair_code_hash`].
    pub fn pair_codehash(&self, chain: Option<Chain>) -> (r: CodeHash)
        ensures
            r@ == pair_code_hash_seq(
                self.factory.protocol,
                effective_chain(chain, self.factory.chain),
            ),
    {
        self.factory.pair_code_hash(chain)
    }

    /// The factory's pool-creation call builder; see [`Factory::create_pair`].
    pub fn create_pair(&self, token_a: Address, token_b: Address) -> (r: CreatePairCall)
        requires
            token_a@ != token_b@,
        ensures
            r.target == self.factory.address,
            r.token_a == token_a,
            r.token_b == token_b,
    {
        self.factory.create_pair(token_a, token_b)
    }

    /// The factory's offline pool derivation; see [`Factory::pair_for`].
    pub fn pair_for(&self, token_a: Address, token_b: Address) -> (r: Pair)
        requires
            token_a@ != token_b@,
        ensures
            r.address@ == pair_address_seq(
                self.factory.address@,
                token_a@,
                token_b@,
                pair_code_hash_seq(self.factory.protocol, self.factory.chain),
            ),
            (r.token0@, r.token1@) == canonical_tokens(token_a@, token_b@),
    {
        self.factory.pair_for(token_a, token_b)
    }

    /// A reference to the router.
    pub fn router(&self) -> (r: &Router)
        ensures
            *r == self.router,
    {
        &self.router
    }

    /// The router's liquidity-provision builder; see [`Router::add_liquidity`].
    pub fn add_liquidity(
        &self,
        token_a: Address,
        token_b: Address,
        amount_a_desired: u128,
        amount_b_desired: u128,
        amount_a_min: u128,
        amount_b_min: u128,
        to: Address,
        deadline: u128,
    ) -> (r: Result<AddLiquidityCall, Error>)
        ensures
            match r {
                Ok(c) => amount_a_min <= amount_a_desired && amount_b_min <= amount_b_desired
                    && c.target == self.router.address && c.token_a == token_a && c.token_b
                    == token_b && c.amount_a_desired == amount_a_desired && c.amount_b_desired
                    == amount_b_desired && c.amount_a_min == amount_a_min && c.amount_b_min
                    == amount_b_min && c.to == to && c.deadline == deadline,
                Err(e) => (amount_a_min > amount_a_desired || amount_b_min > amount_b_desired) && e
                    == Error::InvalidAmount,
            },
    {
        self.router.add_liquidity(
            token_a,
            token_b,
            amount_a_desired,
            amount_b_desired,
            amount_a_min,
            amount_b_min,
            to,
            deadline,
        )
    }

    /// The router's liquidity-withdrawal builder; see [`Router::remove_liquidity`].
    pub fn remove_liquidity(
        &self,
        token_a: Address,
        token_b: Address,
        liquidity: u128,
        amount_a_min: u128,
        amount_b_min: u128,
        to: Address,
        deadline: u128,
    ) -> (r: Result<RemoveLiquidityCall, Error>)
        ensures
            match r {
                Ok(c) => liquidity > 0 && c.target == self.router.address && c.token_a == token_a
                    && c.token_b == token_b && c.liquidity == liquidity && c.amount_a_min
                    == amount_a_min && c.amount_b_min == amount_b_min && c.to == to && c.deadline
                    == deadline,
                Err(e) => liquidity == 0 && e == Error::InvalidAmount,
            },
    {
        self.router.remove_liquidity(
            token_a,
            token_b,
            liquidity,
            amount_a_min,
            amount_b_min,
            to,
            deadline,
        )
    }

    /// The router's quote-request builder; see [`Router::swap_quote`].
    pub fn swap_quote(
        &self,
        amount: Amount,
        slippage_bps: i64,
        path: &Vec<Address>,
        native_wrapper: Address,
    ) -> (r: Result<QuoteRequest, Error>)
        ensures
            match r {
                Ok(q) => swap_error(path@, slippage_bps, native_wrapper) is None && match amount {
                    Amount::ExactIn(a) => q matches QuoteRequest::AmountsOut {
                        amount_in,
                        path: p,
                    } && amount_in == a && p@ == path@,
                    Amount::ExactOut(a) => q matches QuoteRequest::AmountsIn {
                        amount_out,
                        path: p,
                    } && amount_out == a && p@ == path@,
                },
                Err(e) => swap_error(path@, slippage_bps, native_wrapper) == Some(e),
            },
    {
        self.router.swap_quote(amount, slippage_bps, path, native_wrapper)
    }

    /// The router's swap builder; see [`Router::swap`].
    pub fn swap(
        &self,
        amount: Amount,
        slippage_bps: i64,
        path: &Vec<Address>,
        to: Address,
        deadline: u128,
        native_wrapper: Address,
        quoted: u128,
    ) -> (r: Result<SwapCall, Error>)
        requires
            amount is ExactOut ==> quoted <= u128::MAX / 2,
        ensures
            match r {
                Ok(c) => swap_error(path@, slippage_bps, native_wrapper) is None && c.target
                    == self.router.address && c.side == swap_side_spec(path@, native_wrapper)
                    && c.path@ == path@ && c.to == to && c.deadline == deadline && match amount {
                    Amount::ExactIn(a) => c.exact_input && c.amount_in == a && c.amount_out
                        == min_out_spec(quoted as int, slippage_bps as int),
                    Amount::ExactOut(a) => !c.exact_input && c.amount_out == a && c.amount_in
                        == max_in_spec(quoted as int, slippage_bps as int),
                },
                Err(e) => swap_error(path@, slippage_bps, native_wrapper) == Some(e),
            },
    {
        self.router.swap(amount, slippage_bps, path, to, deadline, native_wrapper, quoted)
    }
}

} // verus!
