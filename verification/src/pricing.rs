//! What the pricing curves are given.
//!
//! The curves themselves are evaluated in floating point by the caller. This
//! module decides which curve prices a deposit, and prepares the curve's
//! inputs as decimal numbers of whole units: amounts are converted from
//! minimal units, and the ratios that the curves start from are formed in
//! decimal arithmetic.

use crate::burn::burn_rejection;
use crate::context::CallContext;
use crate::contract::Contract;
use crate::error::ContractError;
use crate::metadata::TOKEN_DECIMAL;
use rust_decimal::Decimal;
use vstd::prelude::*;

verus! {

/// The largest mantissa of a decimal number: 96 bits.
pub const MAX_MANTISSA: u128 = 0xFFFF_FFFF_FFFF_FFFF_FFFF_FFFF;

/// The largest scale of a decimal number.
pub const MAX_SCALE: u32 = 28;

/// A decimal number: `mantissa / 10^scale`.
#[derive(Clone, Copy, Debug, PartialEq, Eq, Structural)]
pub struct DecimalValue {
    pub mantissa: i128,
    pub scale: u32,
}

impl DecimalValue {
    /// Decimal arithmetic can hold the number.
    pub open spec fn representable(self) -> bool {
        -(MAX_MANTISSA as int) <= self.mantissa <= MAX_MANTISSA as int && self.scale <= MAX_SCALE
    }
}

/// The curve that prices a deposit.
#[derive(Clone, Copy, Debug, PartialEq, Eq, Structural)]
pub enum PurchaseInput {
    /// No reserve is locked yet: the polynomial curve, from the deposit and
    /// the supply in whole units.
    Polynomial { amount: DecimalValue, current_supply: DecimalValue },
    /// Reserve is locked: the continuous-reserve curve, from the ratio of the
    /// deposit to the locked reserve and the supply in whole units.
    Bancor { deposit_ratio: DecimalValue, current_supply: DecimalValue },
}

/// What the sale curve is given: the share of the supply that is sold, and
/// the locked reserve in whole units.
#[derive(Clone, Copy, Debug, PartialEq, Eq, Structural)]
pub struct SaleInput {
    pub sold_ratio: DecimalValue,
    pub reserve_balance: DecimalValue,
}

/// The quotient of two decimal numbers as `rust_decimal` computes it, each
/// number given by mantissa and scale: `None` where it reports a division by
/// zero or an overflow.
pub uninterp spec fn decimal_quotient(
    dividend_mantissa: int,
    dividend_scale: nat,
    divisor_mantissa: int,
    divisor_scale: nat,
) -> Option<(int, nat)>;

/// An amount of minimal units as a decimal number of whole units.
pub open spec fn whole_units(amount: nat) -> DecimalValue {
    DecimalValue { mantissa: amount as i128, scale: TOKEN_DECIMAL as u32 }
}

/// The quotient of two amounts in whole units, in the decimal arithmetic of
/// `rust_decimal`.
pub open spec fn amount_ratio(dividend: nat, divisor: nat) -> Option<DecimalValue> {
    match decimal_quotient(
        dividend as int,
        TOKEN_DECIMAL as nat,
        divisor as int,
        TOKEN_DECIMAL as nat,
    ) {
        Some((mantissa, scale)) => Some(
            DecimalValue { mantissa: mantissa as i128, scale: scale as u32 },
        ),
        None => None,
    }
}

/// What the purchase curve is given for `deposit` at the given supply and
/// reserve, where decimal arithmetic can hold it.
pub open spec fn purchase_input_of(reserve_locked: nat, total_supply: nat, deposit: nat) -> Option<
    PurchaseInput,
> {
    if deposit > MAX_MANTISSA || total_supply > MAX_MANTISSA {
        None
    } else if reserve_locked == 0 {
        Some(
            PurchaseInput::Polynomial {
                amount: whole_units(deposit),
                current_supply: whole_units(total_supply),
            },
        )
    } else if reserve_locked > MAX_MANTISSA {
        None
    } else {
        match amount_ratio(deposit, reserve_locked) {
            Some(deposit_ratio) => Some(
                PurchaseInput::Bancor { deposit_ratio, current_supply: whole_units(total_supply) },
            ),
            None => None,
        }
    }
}

/// What the sale curve is given for `sell_amount` at the given supply and
/// reserve, where decimal arithmetic can hold it.
pub open spec fn sale_input_of(reserve_locked: nat, total_supply: nat, sell_amount: nat) -> Option<
    SaleInput,
> {
    if sell_amount > MAX_MANTISSA || reserve_locked > MAX_MANTISSA || total_supply
        > MAX_MANTISSA {
        None
    } else {
        match amount_ratio(sell_amount, total_supply) {
            Some(sold_ratio) => Some(
                SaleInput { sold_ratio, reserve_balance: whole_units(reserve_locked) },
            ),
            None => None,
        }
    }
}

/// `Decimal::try_from_i128_with_scale`, read back with `Decimal::mantissa`
/// and `Decimal::scale`: a decimal number is built from a mantissa of at most
/// 96 bits and a scale of at most 28, and holds exactly these two; anything
/// else is refused.
#[verifier::external_body]
fn decimal_from_parts(mantissa: i128, scale: u32) -> (number: Option<DecimalValue>)
    ensures
        number == if (DecimalValue { mantissa, scale }).representable() {
            Some(DecimalValue { mantissa, scale })
        } else {
            None
        },
{
    match Decimal::try_from_i128_with_scale(mantissa, scale) {
        Ok(d) => Some(DecimalValue { mantissa: d.mantissa(), scale: d.scale() }),
        Err(_) => None,
    }
}

/// `Decimal::checked_div` on two numbers built by
/// `Decimal::from_i128_with_scale`: the quotient by mantissa and scale, or
/// `None` where the division is by zero or overflows. The quotient is a
/// function of the two numbers alone; nothing else is claimed of it.
#[verifier::external_body]
fn decimal_checked_div(dividend: DecimalValue, divisor: DecimalValue) -> (quotient: Option<
    DecimalValue,
>)
    requires
        dividend.representable(),
        divisor.representable(),
    ensures
        match quotient {
            Some(q) => decimal_quotient(
                dividend.mantissa as int,
                dividend.scale as nat,
                divisor.mantissa as int,
                divisor.scale as nat,
            ) == Some((q.mantissa as int, q.scale as nat)),
            None => decimal_quotient(
                dividend.mantissa as int,
                dividend.scale as nat,
                divisor.mantissa as int,
                divisor.scale as nat,
            ) is None,
        },
{
    let n = Decimal::from_i128_with_scale(dividend.mantissa, dividend.scale);
    let d = Decimal::from_i128_with_scale(divisor.mantissa, divisor.scale);
    match n.checked_div(d) {
        Some(q) => Some(DecimalValue { mantissa: q.mantissa(), scale: q.scale() }),
        None => None,
    }
}

/// An amount of minimal units as a decimal number of whole units, where
/// decimal arithmetic can hold it.
pub fn to_whole_units(amount: u128) -> (number: Option<DecimalValue>)
    ensures
        number == if amount <= MAX_MANTISSA {
            Some(whole_units(amount as nat))
        } else {
            None
        },
        number matches Some(n) ==> n.representable(),
{
    if amount > MAX_MANTISSA {
        return None;
    }
    decimal_from_parts(amount as i128, TOKEN_DECIMAL as u32)
}

impl PurchaseInput {
    /// The input of the continuous-reserve curve, from the ratio of the
    /// deposit to the locked reserve as decimal arithmetic gave it: refused
    /// where it gave none.
    pub fn bancor(deposit_ratio: Option<DecimalValue>, current_supply: DecimalValue) -> (result:
        Result<PurchaseInput, ContractError>)
        ensures
            result == match deposit_ratio {
                Some(ratio) => Ok::<PurchaseInput, ContractError>(
                    PurchaseInput::Bancor { deposit_ratio: ratio, current_supply },
                ),
                None => Err(ContractError::DecimalRange),
            },
    {
        match deposit_ratio {
            Some(ratio) => Ok(PurchaseInput::Bancor { deposit_ratio: ratio, current_supply }),
            None => Err(ContractError::DecimalRange),
        }
    }
}

impl SaleInput {
    /// The input of the sale curve, from the share of the supply that is
    /// sold as decimal arithmetic gave it: refused where it gave none.
    pub fn of_ratio(sold_ratio: Option<DecimalValue>, reserve_balance: DecimalValue) -> (result:
        Result<SaleInput, ContractError>)
        ensures
            result == match sold_ratio {
                Some(ratio) => Ok::<SaleInput, ContractError>(
                    SaleInput { sold_ratio: ratio, reserve_balance },
                ),
                None => Err(ContractError::DecimalRange),
            },
    {
        match sold_ratio {
            Some(ratio) => Ok(SaleInput { sold_ratio: ratio, reserve_balance }),
            None => Err(ContractError::DecimalRange),
        }
    }
}

impl Contract {
    /// What the purchase curve is given for a net `deposit` at the current
    /// supply and reserve: the polynomial curve while no reserve is locked,
    /// the continuous-reserve curve after that.
    pub fn purchase_input(&self, deposit: u128) -> (result: Result<PurchaseInput, ContractError>)
        ensures
            match result {
                Ok(input) => purchase_input_of(
                    self@.reserve_locked,
                    self@.total_supply,
                    deposit as nat,
                ) == Some(input),
                Err(e) => {
                    &&& e == ContractError::DecimalRange
                    &&& purchase_input_of(
                        self@.reserve_locked,
                        self@.total_supply,
                        deposit as nat,
                    ) is None
                },
            },
    {
        let amount = match to_whole_units(deposit) {
            Some(amount) => amount,
            None => {
                return Err(ContractError::DecimalRange);
            },
        };
        let current_supply = match to_whole_units(self.ft_total_supply()) {
            Some(current_supply) => current_supply,
            None => {
                return Err(ContractError::DecimalRange);
            },
        };
        if self.lzr_locked() == 0 {
            return Ok(PurchaseInput::Polynomial { amount, current_supply });
        }
        let locked = match to_whole_units(self.lzr_locked()) {
            Some(locked) => locked,
            None => {
                return Err(ContractError::DecimalRange);
            },
        };
        PurchaseInput::bancor(decimal_checked_div(amount, locked), current_supply)
    }

    /// What the sale curve is given for a burn of `sell_amount` tokens of
    /// `account_id` at the current supply and reserve. The burn is checked as
    /// `ft_burn` checks it, so that a curve is only ever asked about a burn
    /// that the ledger accepts.
    pub fn sale_input(&self, ctx: &CallContext, sell_amount: u128, account_id: &String) -> (result:
        Result<SaleInput, ContractError>)
        requires
            self.wf(),
        ensures
            match result {
                Ok(input) => {
                    &&& burn_rejection(
                        *ctx,
                        self@.balance(account_id@),
                        self@.reserve_locked,
                        self@.total_supply,
                        sell_amount as nat,
                        0,
                    ) is None
                    &&& sale_input_of(
                        self@.reserve_locked,
                        self@.total_supply,
                        sell_amount as nat,
                    ) == Some(input)
                },
                Err(e) => {
                    ||| burn_rejection(
                        *ctx,
                        self@.balance(account_id@),
                        self@.reserve_locked,
                        self@.total_supply,
                        sell_amount as nat,
                        0,
                    ) == Some(e)
                    ||| {
                        &&& burn_rejection(
                            *ctx,
                            self@.balance(account_id@),
                            self@.reserve_locked,
                            self@.total_supply,
                            sell_amount as nat,
                            0,
                        ) is None
                        &&& e == ContractError::DecimalRange
                        &&& sale_input_of(
                            self@.reserve_locked,
                            self@.total_supply,
                            sell_amount as nat,
                        ) is None
                    }
                },
            },
    {
        match self.check_burn(ctx, sell_amount, account_id) {
            Ok(_) => {},
            Err(e) => {
                return Err(e);
            },
        }
        let amount = match to_whole_units(sell_amount) {
            Some(amount) => amount,
            None => {
                return Err(ContractError::DecimalRange);
            },
        };
        let reserve_balance = match to_whole_units(self.lzr_locked()) {
            Some(reserve_balance) => reserve_balance,
            None => {
                return Err(ContractError::DecimalRange);
            },
        };
        let current_supply = match to_whole_units(self.ft_total_supply()) {
            Some(current_supply) => current_supply,
            None => {
                return Err(ContractError::DecimalRange);
            },
        };
        SaleInput::of_ratio(decimal_checked_div(amount, current_supply), reserve_balance)
    }
}

} // verus!
