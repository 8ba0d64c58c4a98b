//! The settings of a fungible token and the rules of its ledger. The rules
//! are functions from the balances that a request finds to the balances that
//! it leaves; reading and writing the balances is left to the caller.

use crate::contracts::erc20::events::Approval;
use crate::contracts::erc20::events::Transfer;
use crate::traits::math::danger::clamped;
use crate::traits::math::danger::UnsafeMath;
use crate::traits::zero::all_zero;
use crate::traits::zero::Zero;
use crate::types::ident::ScAgentId;
use vstd::prelude::*;

verus! {

/// The settings of a token contract.
#[derive(Clone, Copy, Debug, PartialEq, Eq)]
pub struct Token {
    name: &'static str,
    symbol: &'static str,
    decimals: u8,
    meta: bool,
    burn: bool,
    mint: bool,
}

impl Token {
    /// The number of decimals of a token that sets none.
    pub const DECIMALS: u8 = 18;

    /// The name of the token.
    pub closed spec fn spec_name(self) -> Seq<char> {
        self.name@
    }

    /// The symbol of the token.
    pub closed spec fn spec_symbol(self) -> Seq<char> {
        self.symbol@
    }

    /// The number of decimals the token uses.
    pub closed spec fn spec_decimals(self) -> u8 {
        self.decimals
    }

    /// Whether the token answers for its name, symbol and decimals.
    pub closed spec fn has_meta(self) -> bool {
        self.meta
    }

    /// Whether holders can burn the token.
    pub closed spec fn can_burn(self) -> bool {
        self.burn
    }

    /// Whether the token can be minted after its creation.
    pub closed spec fn can_mint(self) -> bool {
        self.mint
    }

    /// Whether two settings carry the same name and the same symbol.
    pub open spec fn same_names(self, other: Token) -> bool {
        self.spec_name() == other.spec_name() && self.spec_symbol() == other.spec_symbol()
    }

    /// Creates the settings of a token with 18 decimals that answers for its
    /// metadata and can be neither burnt nor minted.
    pub fn new(name: &'static str, symbol: &'static str) -> (token: Self)
        ensures
            token.spec_name() == name@,
            token.spec_symbol() == symbol@,
            token.spec_decimals() == 18,
            token.has_meta(),
            !token.can_burn(),
            !token.can_mint(),
    {
        Self { name, symbol, decimals: Self::DECIMALS, meta: true, burn: false, mint: false }
    }

    /// Sets the number of decimals.
    pub fn decimals(self, decimals: u8) -> (token: Self)
        ensures
            token.same_names(self),
            token.spec_decimals() == decimals,
            token.has_meta() == self.has_meta(),
            token.can_burn() == self.can_burn(),
            token.can_mint() == self.can_mint(),
    {
        Self { decimals, ..self }
    }

    /// Sets whether the token answers for its metadata.
    pub fn meta(self, meta: bool) -> (token: Self)
        ensures
            token.same_names(self),
            token.spec_decimals() == self.spec_decimals(),
            token.has_meta() == meta,
            token.can_burn() == self.can_burn(),
            token.can_mint() == self.can_mint(),
    {
        Self { meta, ..self }
    }

    /// Sets whether holders can burn the token.
    pub fn burn(self, burn: bool) -> (token: Self)
        ensures
            token.same_names(self),
            token.spec_decimals() == self.spec_decimals(),
            token.has_meta() == self.has_meta(),
            token.can_burn() == burn,
            token.can_mint() == self.can_mint(),
    {
        Self { burn, ..self }
    }

    /// Sets whether the token can be minted after its creation.
    pub fn mint(self, mint: bool) -> (token: Self)
        ensures
            token.same_names(self),
            token.spec_decimals() == self.spec_decimals(),
            token.has_meta() == self.has_meta(),
            token.can_burn() == self.can_burn(),
            token.can_mint() == mint,
    {
        Self { mint, ..self }
    }
}

impl Token {
    /// Returns the name of the token.
    pub fn name(&self) -> (name: &'static str)
        ensures
            name@ == self.spec_name(),
    {
        self.name
    }

    /// Returns the symbol of the token.
    pub fn symbol(&self) -> (symbol: &'static str)
        ensures
            symbol@ == self.spec_symbol(),
    {
        self.symbol
    }

    /// Returns the number of decimals the token uses.
    pub fn decimal_places(&self) -> (decimals: u8)
        ensures
            decimals == self.spec_decimals(),
    {
        self.decimals
    }

    /// Returns `true` if the token answers for its name, symbol and
    /// decimals.
    pub fn is_meta(&self) -> (meta: bool)
        ensures
            meta == self.has_meta(),
    {
        self.meta
    }

    /// Returns `true` if holders can burn the token.
    pub fn is_burnable(&self) -> (burn: bool)
        ensures
            burn == self.can_burn(),
    {
        self.burn
    }

    /// Returns `true` if the token can be minted after its creation.
    pub fn is_mintable(&self) -> (mint: bool)
        ensures
            mint == self.can_mint(),
    {
        self.mint
    }
}

/// An entry point of a token contract.
#[derive(Clone, Copy, Debug, PartialEq, Eq, Structural)]
pub enum Export {
    TotalSupply,
    BalanceOf,
    Transfer,
    TransferFrom,
    Approve,
    Allowance,
    Name,
    Symbol,
    Decimals,
    Burn,
    BurnFrom,
    Init,
    BeforeTokenTransfer,
}

impl Export {
    /// Whether the entry point only reads the ledger.
    pub open spec fn spec_is_view(self) -> bool {
        match self {
            Export::TotalSupply
            | Export::BalanceOf
            | Export::Allowance
            | Export::Name
            | Export::Symbol
            | Export::Decimals => true,
            _ => false,
        }
    }

    /// Returns `true` if the entry point only reads the ledger.
    pub fn is_view(self) -> (view: bool)
        ensures
            view == self.spec_is_view(),
    {
        match self {
            Export::TotalSupply
            | Export::BalanceOf
            | Export::Allowance
            | Export::Name
            | Export::Symbol
            | Export::Decimals => true,
            _ => false,
        }
    }

    /// Returns the name under which the entry point is registered.
    pub fn name(self) -> (name: &'static str)
        ensures
            name@ == match self {
                Export::TotalSupply => "totalSupply"@,
                Export::BalanceOf => "balanceOf"@,
                Export::Transfer => "transfer"@,
                Export::TransferFrom => "transferFrom"@,
                Export::Approve => "approve"@,
                Export::Allowance => "allowance"@,
                Export::Name => "name"@,
                Export::Symbol => "symbol"@,
                Export::Decimals => "decimals"@,
                Export::Burn => "burn"@,
                Export::BurnFrom => "burnFrom"@,
                Export::Init => "init"@,
                Export::BeforeTokenTransfer => "_beforeTokenTransfer"@,
            },
    {
        match self {
            Export::TotalSupply => "totalSupply",
            Export::BalanceOf => "balanceOf",
            Export::Transfer => "transfer",
            Export::TransferFrom => "transferFrom",
            Export::Approve => "approve",
            Export::Allowance => "allowance",
            Export::Name => "name",
            Export::Symbol => "symbol",
            Export::Decimals => "decimals",
            Export::Burn => "burn",
            Export::BurnFrom => "burnFrom",
            Export::Init => "init",
            Export::BeforeTokenTransfer => "_beforeTokenTransfer",
        }
    }
}

/// Why the ledger refuses a request.
#[derive(Clone, Copy, Debug, PartialEq, Eq, Structural)]
pub enum LedgerError {
    TransferFromZero,
    TransferToZero,
    TransferExceedsBalance,
    TransferExceedsAllowance,
    ApproveFromZero,
    ApproveToZero,
    MintToZero,
    BurnFromZero,
    BurnExceedsBalance,
    BurnExceedsAllowance,
    InvalidTotal,
}

impl LedgerError {
    /// Returns the reason in words.
    pub fn message(self) -> (text: &'static str)
        ensures
            text@ == match self {
                LedgerError::TransferFromZero => "ERC20: transfer from the zero address"@,
                LedgerError::TransferToZero => "ERC20: transfer to the zero address"@,
                LedgerError::TransferExceedsBalance => "ERC20: transfer amount exceeds balance"@,
                LedgerError::TransferExceedsAllowance => "ERC20: transfer amount exceeds allowance"@,
                LedgerError::ApproveFromZero => "ERC20: approve from the zero address"@,
                LedgerError::ApproveToZero => "ERC20: approve to the zero address"@,
                LedgerError::MintToZero => "ERC20: mint to the zero address"@,
                LedgerError::BurnFromZero => "ERC20: burn from the zero address"@,
                LedgerError::BurnExceedsBalance => "ERC20: burn amount exceeds balances"@,
                LedgerError::BurnExceedsAllowance => "ERC20: burn amount exceeds allowance"@,
                LedgerError::InvalidTotal => "invalid param: `total`"@,
            },
    {
        match self {
            LedgerError::TransferFromZero => "ERC20: transfer from the zero address",
            LedgerError::TransferToZero => "ERC20: transfer to the zero address",
            LedgerError::TransferExceedsBalance => "ERC20: transfer amount exceeds balance",
            LedgerError::TransferExceedsAllowance => "ERC20: transfer amount exceeds allowance",
            LedgerError::ApproveFromZero => "ERC20: approve from the zero address",
            LedgerError::ApproveToZero => "ERC20: approve to the zero address",
            LedgerError::MintToZero => "ERC20: mint to the zero address",
            LedgerError::BurnFromZero => "ERC20: burn from the zero address",
            LedgerError::BurnExceedsBalance => "ERC20: burn amount exceeds balances",
            LedgerError::BurnExceedsAllowance => "ERC20: burn amount exceeds allowance",
            LedgerError::InvalidTotal => "invalid param: `total`",
        }
    }
}

/// What a transfer leaves behind: the balance of the sender, the balance of
/// the recipient, and the event to emit.
#[derive(Clone, Debug, PartialEq)]
pub struct Moved {
    pub owner_balance: i64,
    pub to_balance: i64,
    pub event: Transfer,
}

/// What minting leaves behind: the supply, the balance of the recipient, and
/// the event to emit.
#[derive(Clone, Debug, PartialEq)]
pub struct Minted {
    pub supply: i64,
    pub balance: i64,
    pub event: Transfer,
}

/// What burning leaves behind: the supply and the balance of the holder.
#[derive(Clone, Copy, Debug, PartialEq, Eq, Structural)]
pub struct Burnt {
    pub supply: i64,
    pub balance: i64,
}

/// The entry points that a token with the settings `token` registers, in the
/// order in which it registers them.
pub open spec fn exports_of(token: Token) -> Seq<Export> {
    let core = seq![
        Export::TotalSupply,
        Export::BalanceOf,
        Export::Transfer,
        Export::TransferFrom,
        Export::Approve,
        Export::Allowance,
    ];
    let meta = if token.has_meta() {
        seq![Export::Name, Export::Symbol, Export::Decimals]
    } else {
        Seq::<Export>::empty()
    };
    let burn = if token.can_burn() {
        seq![Export::Burn, Export::BurnFrom]
    } else {
        Seq::<Export>::empty()
    };
    core + meta + burn + seq![Export::Init, Export::BeforeTokenTransfer]
}

/// What a transfer of `value` makes of the two balances. The recipient is
/// credited after the sender is debited, so a transfer to oneself is credited
/// on the balance that the debit left. Both steps stop at the ends of the
/// range.
pub open spec fn moved_balances(
    to_self: bool,
    owner_balance: i64,
    to_balance: i64,
    value: i64,
) -> (i64, i64) {
    let debited = clamped(owner_balance - value);
    let credited = clamped(
        if to_self {
            debited
        } else {
            to_balance
        } + value,
    );
    if to_self {
        (credited, credited)
    } else {
        (debited, credited)
    }
}

/// Why a transfer is refused, if it is: the sender is the zero address, or
/// else the recipient is, or else the balance does not cover the amount.
pub open spec fn transfer_refusal(
    owner: Seq<u8>,
    to: Seq<u8>,
    owner_balance: i64,
    value: i64,
) -> Option<LedgerError> {
    if all_zero(owner) {
        Some(LedgerError::TransferFromZero)
    } else if all_zero(to) {
        Some(LedgerError::TransferToZero)
    } else if owner_balance < value {
        Some(LedgerError::TransferExceedsBalance)
    } else {
        None
    }
}

/// Why an approval is refused, if it is: the owner is the zero address, or
/// else the spender is.
pub open spec fn approve_refusal(owner: Seq<u8>, spender: Seq<u8>) -> Option<LedgerError> {
    if all_zero(owner) {
        Some(LedgerError::ApproveFromZero)
    } else if all_zero(spender) {
        Some(LedgerError::ApproveToZero)
    } else {
        None
    }
}

/// A generic token contract.
#[derive(Clone, Copy, Debug)]
pub struct ERC20 {
    token: Token,
}

impl ERC20 {
    /// The settings of the token.
    pub closed spec fn spec_token(&self) -> Token {
        self.token
    }

    /// Creates the contract of a token with the settings `token`.
    pub fn new(token: Token) -> (contract: Self)
        ensures
            contract.spec_token() == token,
    {
        Self { token }
    }

    /// Returns the settings of the token.
    pub fn token(&self) -> (token: Token)
        ensures
            token == self.spec_token(),
    {
        self.token
    }

    /// Returns the entry points that the contract registers, in order: the
    /// six core ones; the three metadata views where the token answers for
    /// its metadata; the two burn functions where the token can be burnt;
    /// then the initialisation and the transfer hook. A token that can be
    /// minted after its creation has no initialisation yet and cannot be
    /// registered.
    pub fn exports(&self) -> (exports: Vec<Export>)
        requires
            !self.spec_token().can_mint(),
        ensures
            exports@ == exports_of(self.spec_token()),
    {
        let mut exports: Vec<Export> = Vec::new();
        exports.push(Export::TotalSupply);
        exports.push(Export::BalanceOf);
        exports.push(Export::Transfer);
        exports.push(Export::TransferFrom);
        exports.push(Export::Approve);
        exports.push(Export::Allowance);
        if self.token.is_meta() {
            exports.push(Export::Name);
            exports.push(Export::Symbol);
            exports.push(Export::Decimals);
        }
        if self.token.is_burnable() {
            exports.push(Export::Burn);
            exports.push(Export::BurnFrom);
        }
        exports.push(Export::Init);
        exports.push(Export::BeforeTokenTransfer);
        assert(exports@ =~= exports_of(self.spec_token()));
        exports
    }

    /// Checks the total of a token with a fixed supply: it has to be more
    /// than nothing.
    pub fn init_fixed(total: i64) -> (checked: Result<(), LedgerError>)
        ensures
            checked == if total > 0 {
                Ok::<(), LedgerError>(())
            } else {
                Err::<(), LedgerError>(LedgerError::InvalidTotal)
            },
    {
        if total > 0 {
            Ok(())
        } else {
            Err(LedgerError::InvalidTotal)
        }
    }

    /// Moves `value` from `owner` to `to`. Neither may be the zero address,
    /// and the balance of `owner` has to cover `value`.
    pub fn transfer(
        owner: &ScAgentId,
        to: &ScAgentId,
        owner_balance: i64,
        to_balance: i64,
        value: i64,
    ) -> (moved: Result<Moved, LedgerError>)
        ensures
            transfer_refusal(owner@, to@, owner_balance, value) == match moved {
                Ok(_) => None::<LedgerError>,
                Err(error) => Some(error),
            },
            match moved {
                Ok(moved) => {
                    &&& (moved.owner_balance, moved.to_balance) == moved_balances(
                        owner@ == to@,
                        owner_balance,
                        to_balance,
                        value,
                    )
                    &&& moved.event.from@ == owner@
                    &&& moved.event.to@ == to@
                    &&& moved.event.value == value
                },
                Err(_) => true,
            },
    {
        if owner.is_zero() {
            return Err(LedgerError::TransferFromZero);
        }
        if to.is_zero() {
            return Err(LedgerError::TransferToZero);
        }
        if owner_balance < value {
            return Err(LedgerError::TransferExceedsBalance);
        }
        let to_self: bool = owner.same(to);
        let mut debited: i64 = owner_balance;
        debited.dec_value(value);
        let mut credited: i64 = if to_self {
            debited
        } else {
            to_balance
        };
        credited.inc_value(value);
        let owner_balance: i64 = if to_self {
            credited
        } else {
            debited
        };
        Ok(Moved { owner_balance, to_balance: credited, event: Transfer::new(*owner, *to, value) })
    }

    /// Lets `spender` spend `value` of the balance of `owner`. Neither may be
    /// the zero address.
    pub fn approve(owner: &ScAgentId, spender: &ScAgentId, value: i64) -> (approved: Result<
        Approval,
        LedgerError,
    >)
        ensures
            approve_refusal(owner@, spender@) == match approved {
                Ok(_) => None::<LedgerError>,
                Err(error) => Some(error),
            },
            match approved {
                Ok(event) => event.owner@ == owner@ && event.spender@ == spender@ && event.value
                    == value,
                Err(_) => true,
            },
    {
        if owner.is_zero() {
            return Err(LedgerError::ApproveFromZero);
        }
        if spender.is_zero() {
            return Err(LedgerError::ApproveToZero);
        }
        Ok(Approval::new(*owner, *spender, value))
    }

    /// Takes `value` off an allowance that has to cover it, and returns what
    /// is left of the allowance. A difference that no 64-bit integer holds
    /// is left out.
    pub fn spend(allowance: i64, value: i64, burning: bool) -> (left: Result<i64, LedgerError>)
        requires
            allowance - value <= i64::MAX,
        ensures
            left == if allowance >= value {
                Ok::<i64, LedgerError>((allowance - value) as i64)
            } else if burning {
                Err::<i64, LedgerError>(LedgerError::BurnExceedsAllowance)
            } else {
                Err::<i64, LedgerError>(LedgerError::TransferExceedsAllowance)
            },
    {
        if allowance >= value {
            Ok(allowance - value)
        } else if burning {
            Err(LedgerError::BurnExceedsAllowance)
        } else {
            Err(LedgerError::TransferExceedsAllowance)
        }
    }

    /// Creates `value` new tokens for `to`, which may not be the zero
    /// address. Supply and balance stop at the ends of the range.
    pub fn mint(to: &ScAgentId, supply: i64, balance: i64, value: i64) -> (minted: Result<
        Minted,
        LedgerError,
    >)
        ensures
            match minted {
                Ok(minted) => {
                    &&& !all_zero(to@)
                    &&& minted.supply == clamped(supply + value)
                    &&& minted.balance == clamped(balance + value)
                    &&& all_zero(minted.event.from@)
                    &&& minted.event.to@ == to@
                    &&& minted.event.value == value
                },
                Err(error) => all_zero(to@) && error == LedgerError::MintToZero,
            },
    {
        if to.is_zero() {
            return Err(LedgerError::MintToZero);
        }
        let mut supply: i64 = supply;
        supply.inc_value(value);
        let mut balance: i64 = balance;
        balance.inc_value(value);
        let nobody: ScAgentId = Zero::zero();
        Ok(Minted { supply, balance, event: Transfer::new(nobody, *to, value) })
    }

    /// Destroys `value` tokens of `from`, which may not be the zero address
    /// and whose balance has to cover `value`. Supply and balance stop at the
    /// ends of the range.
    pub fn burn(from: &ScAgentId, supply: i64, balance: i64, value: i64) -> (burnt: Result<
        Burnt,
        LedgerError,
    >)
        ensures
            burnt == if all_zero(from@) {
                Err::<Burnt, LedgerError>(LedgerError::BurnFromZero)
            } else if balance < value {
                Err::<Burnt, LedgerError>(LedgerError::BurnExceedsBalance)
            } else {
                Ok::<Burnt, LedgerError>(
                    Burnt { supply: clamped(supply - value), balance: clamped(balance - value) },
                )
            },
    {
        if from.is_zero() {
            return Err(LedgerError::BurnFromZero);
        }
        if balance < value {
            return Err(LedgerError::BurnExceedsBalance);
        }
        let mut supply: i64 = supply;
        supply.dec_value(value);
        let mut balance: i64 = balance;
        balance.dec_value(value);
        Ok(Burnt { supply, balance })
    }
}

} // verus!
