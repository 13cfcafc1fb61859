//! The account of the USD-margined futures.

use vstd::prelude::*;
use vstd::string::*;
use crate::decode::FromJson;
use crate::endpoints::{with_base, BaseRequest, Endpoint, EndpointRequest, Method, SecurityType};
use crate::errors::BinanceApiError;
use crate::json::{string_view, Json, JsonValue};
use crate::text::{
    optional_signed_decimal, optional_small_signed_decimal, optional_u32_decimal,
    push_optional_i32_pair, push_optional_i64_pair, push_optional_pair, push_optional_u32_pair,
    push_pair, str_eq, with_optional_pair,
};

verus! {

/// The account of the USD-margined futures.
#[derive(Debug, Clone, Copy, PartialEq, Eq, Structural)]
pub enum AccountInfoEP {
    Balance,
    IncomeHistory,
}

impl AccountInfoEP {
    /// The path of the operation.
    pub open spec fn spec_path(self) -> Seq<char> {
        match self {
            AccountInfoEP::Balance => "/fapi/v3/balance"@,
            AccountInfoEP::IncomeHistory => "/fapi/v1/income"@,
        }
    }

    pub fn path(&self) -> (path: &'static str)
        ensures
            path@ == self.spec_path(),
    {
        match self {
            AccountInfoEP::Balance => "/fapi/v3/balance",
            AccountInfoEP::IncomeHistory => "/fapi/v1/income",
        }
    }
}

impl Endpoint for AccountInfoEP {
    open spec fn spec_is_implemented(&self) -> bool {
        true
    }

    open spec fn spec_action_params(&self) -> (Method, SecurityType, Seq<char>) {
        match self {
            AccountInfoEP::Balance => (Method::GET, SecurityType::UserData, self.spec_path()),
            AccountInfoEP::IncomeHistory => (Method::GET, SecurityType::UserData, self.spec_path()),
        }
    }

    fn is_implemented(&self) -> (r: bool) {
        true
    }

    fn action_params(&self) -> (r: (Method, SecurityType, String)) {
        let path = String::from_str(self.path());
        match self {
            AccountInfoEP::Balance => (Method::GET, SecurityType::UserData, path),
            AccountInfoEP::IncomeHistory => (Method::GET, SecurityType::UserData, path),
        }
    }
}

/// The balances of the futures account.
#[derive(Debug)]
pub struct BalanceRequest(pub BaseRequest);

impl EndpointRequest for BalanceRequest {
    type Response = Vec<BalanceResponse>;

    open spec fn spec_query(&self) -> Seq<char> {
        with_base(Seq::empty(), self.0)
    }

    open spec fn spec_is_valid(&self) -> bool {
        true
    }

    fn to_string(&self) -> (query: String) {
        self.0.to_string()
    }

    fn validate(&self) -> (r: Result<(), BinanceApiError>) {
        Ok(())
    }
}

/// The balance of one asset of the futures account.
#[derive(Debug, Clone, Default)]
pub struct BalanceResponse {
    pub account_alias: String,
    pub asset: String,
    pub balance: String,
    pub cross_wallet_balance: String,
    pub cross_un_pnl: String,
    pub available_balance: String,
    pub max_withdraw_amount: String,
    pub margin_available: bool,
    pub update_time: i64,
}

impl FromJson for BalanceResponse {
    open spec fn has_shape(document: JsonValue) -> bool {
        &&& document.text_at("accountAlias"@) is Some
        &&& document.text_at("asset"@) is Some
        &&& document.text_at("balance"@) is Some
        &&& document.text_at("crossWalletBalance"@) is Some
        &&& document.text_at("crossUnPnl"@) is Some
        &&& document.text_at("availableBalance"@) is Some
        &&& document.text_at("maxWithdrawAmount"@) is Some
        &&& document.bool_at("marginAvailable"@) is Some
        &&& document.i64_at("updateTime"@) is Some
    }

    open spec fn describes(&self, document: JsonValue) -> bool {
        &&& Some(self.account_alias@) == document.text_at("accountAlias"@)
        &&& Some(self.asset@) == document.text_at("asset"@)
        &&& Some(self.balance@) == document.text_at("balance"@)
        &&& Some(self.cross_wallet_balance@) == document.text_at("crossWalletBalance"@)
        &&& Some(self.cross_un_pnl@) == document.text_at("crossUnPnl"@)
        &&& Some(self.available_balance@) == document.text_at("availableBalance"@)
        &&& Some(self.max_withdraw_amount@) == document.text_at("maxWithdrawAmount"@)
        &&& Some(self.margin_available) == document.bool_at("marginAvailable"@)
        &&& Some(self.update_time) == document.i64_at("updateTime"@)
    }

    fn from_json(document: &Json) -> (r: Option<Self>) {
        let account_alias = document.text_at("accountAlias")?;
        let asset = document.text_at("asset")?;
        let balance = document.text_at("balance")?;
        let cross_wallet_balance = document.text_at("crossWalletBalance")?;
        let cross_un_pnl = document.text_at("crossUnPnl")?;
        let available_balance = document.text_at("availableBalance")?;
        let max_withdraw_amount = document.text_at("maxWithdrawAmount")?;
        let margin_available = document.bool_at("marginAvailable")?;
        let update_time = document.i64_at("updateTime")?;
        Some(
            BalanceResponse {
                account_alias,
                asset,
                balance,
                cross_wallet_balance,
                cross_un_pnl,
                available_balance,
                max_withdraw_amount,
                margin_available,
                update_time,
            },
        )
    }
}

/// The income of the futures account over a period.
#[derive(Debug)]
pub struct IncomeHistoryRequest {
    pub symbol: Option<String>,
    pub income_type: Option<IncomeType>,
    pub start_time: Option<i64>,
    pub end_time: Option<i64>,
    pub page: Option<i32>,
    pub limit: Option<u32>,
    pub base: BaseRequest,
}

impl IncomeHistoryRequest {
    /// The required parameters are given; every optional one is left out.
    pub fn init(base: BaseRequest) -> (r: Self)
        ensures
            r.symbol is None,
            r.income_type is None,
            r.start_time is None,
            r.end_time is None,
            r.page is None,
            r.limit is None,
            r.base == base,
    {
        IncomeHistoryRequest {
            symbol: None,
            income_type: None,
            start_time: None,
            end_time: None,
            page: None,
            limit: None,
            base,
        }
    }
}

impl EndpointRequest for IncomeHistoryRequest {
    type Response = Vec<IncomeHistory>;

    open spec fn spec_query(&self) -> Seq<char> {
        let q = Seq::<char>::empty();
        let q = with_optional_pair(q, "symbol"@, string_view(self.symbol));
        let q = with_optional_pair(
            q,
            "incomeType"@,
            match self.income_type {
                Some(v) => Some(v.spec_name()),
                None => None,
            },
        );
        let q = with_optional_pair(q, "startTime"@, optional_signed_decimal(self.start_time));
        let q = with_optional_pair(q, "endTime"@, optional_signed_decimal(self.end_time));
        let q = with_optional_pair(q, "page"@, optional_small_signed_decimal(self.page));
        let q = with_optional_pair(q, "limit"@, optional_u32_decimal(self.limit));
        let q = with_base(q, self.base);
        q
    }

    open spec fn spec_is_valid(&self) -> bool {
        true
    }

    fn to_string(&self) -> (query: String) {
        let mut out = String::new();
        push_optional_pair(&mut out, "symbol", &self.symbol);
        if let Some(v) = &self.income_type {
            push_pair(&mut out, "incomeType", v.as_str());
        }
        push_optional_i64_pair(&mut out, "startTime", self.start_time);
        push_optional_i64_pair(&mut out, "endTime", self.end_time);
        push_optional_i32_pair(&mut out, "page", self.page);
        push_optional_u32_pair(&mut out, "limit", self.limit);
        self.base.push_to(&mut out);
        out
    }

    fn validate(&self) -> (r: Result<(), BinanceApiError>) {
        Ok(())
    }
}

/// Where an income comes from.
#[derive(Debug, Clone, Copy, PartialEq, Eq, Structural, Default)]
pub enum IncomeType {
    #[default]
    Transfer,
    WelcomeBonus,
    RealizedPnl,
    FundingFee,
    Commission,
    InsuranceClear,
    ReferralKickback,
    CommissionRebate,
    ApiRebate,
    ContestReward,
    CrossCollateralTransfer,
    OptionsPremiumFee,
    OptionsSettleProfit,
    InternalTransfer,
    AutoExchange,
    DeliveredSettelment,
    CoinSwapDeposit,
    CoinSwapWithdraw,
    PositionLimitIncreaseFee,
    StrategyUmfuturesTransfer,
    FeeReturn,
    BfusdReward,
}

impl IncomeType {
    /// The name by which the exchange knows the value.
    pub open spec fn spec_name(self) -> Seq<char> {
        match self {
            IncomeType::Transfer => "TRANSFER"@,
            IncomeType::WelcomeBonus => "WELCOME_BONUS"@,
            IncomeType::RealizedPnl => "REALIZED_PNL"@,
            IncomeType::FundingFee => "FUNDING_FEE"@,
            IncomeType::Commission => "COMMISSION"@,
            IncomeType::InsuranceClear => "INSURANCE_CLEAR"@,
            IncomeType::ReferralKickback => "REFERRAL_KICKBACK"@,
            IncomeType::CommissionRebate => "COMMISSION_REBATE"@,
            IncomeType::ApiRebate => "API_REBATE"@,
            IncomeType::ContestReward => "CONTEST_REWARD"@,
            IncomeType::CrossCollateralTransfer => "CROSS_COLLATERAL_TRANSFER"@,
            IncomeType::OptionsPremiumFee => "OPTIONS_PREMIUM_FEE"@,
            IncomeType::OptionsSettleProfit => "OPTIONS_SETTLE_PROFIT"@,
            IncomeType::InternalTransfer => "INTERNAL_TRANSFER"@,
            IncomeType::AutoExchange => "AUTO_EXCHANGE"@,
            IncomeType::DeliveredSettelment => "DELIVERED_SETTELMENT"@,
            IncomeType::CoinSwapDeposit => "COIN_SWAP_DEPOSIT"@,
            IncomeType::CoinSwapWithdraw => "COIN_SWAP_WITHDRAW"@,
            IncomeType::PositionLimitIncreaseFee => "POSITION_LIMIT_INCREASE_FEE"@,
            IncomeType::StrategyUmfuturesTransfer => "STRATEGY_UMFUTURES_TRANSFER"@,
            IncomeType::FeeReturn => "FEE_RETURN"@,
            IncomeType::BfusdReward => "BFUSD_REWARD"@,
        }
    }

    pub fn as_str(&self) -> (name: &'static str)
        ensures
            name@ == self.spec_name(),
    {
        match self {
            IncomeType::Transfer => "TRANSFER",
            IncomeType::WelcomeBonus => "WELCOME_BONUS",
            IncomeType::RealizedPnl => "REALIZED_PNL",
            IncomeType::FundingFee => "FUNDING_FEE",
            IncomeType::Commission => "COMMISSION",
            IncomeType::InsuranceClear => "INSURANCE_CLEAR",
            IncomeType::ReferralKickback => "REFERRAL_KICKBACK",
            IncomeType::CommissionRebate => "COMMISSION_REBATE",
            IncomeType::ApiRebate => "API_REBATE",
            IncomeType::ContestReward => "CONTEST_REWARD",
            IncomeType::CrossCollateralTransfer => "CROSS_COLLATERAL_TRANSFER",
            IncomeType::OptionsPremiumFee => "OPTIONS_PREMIUM_FEE",
            IncomeType::OptionsSettleProfit => "OPTIONS_SETTLE_PROFIT",
            IncomeType::InternalTransfer => "INTERNAL_TRANSFER",
            IncomeType::AutoExchange => "AUTO_EXCHANGE",
            IncomeType::DeliveredSettelment => "DELIVERED_SETTELMENT",
            IncomeType::CoinSwapDeposit => "COIN_SWAP_DEPOSIT",
            IncomeType::CoinSwapWithdraw => "COIN_SWAP_WITHDRAW",
            IncomeType::PositionLimitIncreaseFee => "POSITION_LIMIT_INCREASE_FEE",
            IncomeType::StrategyUmfuturesTransfer => "STRATEGY_UMFUTURES_TRANSFER",
            IncomeType::FeeReturn => "FEE_RETURN",
            IncomeType::BfusdReward => "BFUSD_REWARD",
        }
    }

    /// The value of a name, the names tried in the order of the variants.
    pub open spec fn spec_parse(name: Seq<char>) -> Option<Self> {
        if name == "TRANSFER"@ {
            Some(IncomeType::Transfer)
        } else if name == "WELCOME_BONUS"@ {
            Some(IncomeType::WelcomeBonus)
        } else if name == "REALIZED_PNL"@ {
            Some(IncomeType::RealizedPnl)
        } else if name == "FUNDING_FEE"@ {
            Some(IncomeType::FundingFee)
        } else if name == "COMMISSION"@ {
            Some(IncomeType::Commission)
        } else if name == "INSURANCE_CLEAR"@ {
            Some(IncomeType::InsuranceClear)
        } else if name == "REFERRAL_KICKBACK"@ {
            Some(IncomeType::ReferralKickback)
        } else if name == "COMMISSION_REBATE"@ {
            Some(IncomeType::CommissionRebate)
        } else if name == "API_REBATE"@ {
            Some(IncomeType::ApiRebate)
        } else if name == "CONTEST_REWARD"@ {
            Some(IncomeType::ContestReward)
        } else if name == "CROSS_COLLATERAL_TRANSFER"@ {
            Some(IncomeType::CrossCollateralTransfer)
        } else if name == "OPTIONS_PREMIUM_FEE"@ {
            Some(IncomeType::OptionsPremiumFee)
        } else if name == "OPTIONS_SETTLE_PROFIT"@ {
            Some(IncomeType::OptionsSettleProfit)
        } else if name == "INTERNAL_TRANSFER"@ {
            Some(IncomeType::InternalTransfer)
        } else if name == "AUTO_EXCHANGE"@ {
            Some(IncomeType::AutoExchange)
        } else if name == "DELIVERED_SETTELMENT"@ {
            Some(IncomeType::DeliveredSettelment)
        } else if name == "COIN_SWAP_DEPOSIT"@ {
            Some(IncomeType::CoinSwapDeposit)
        } else if name == "COIN_SWAP_WITHDRAW"@ {
            Some(IncomeType::CoinSwapWithdraw)
        } else if name == "POSITION_LIMIT_INCREASE_FEE"@ {
            Some(IncomeType::PositionLimitIncreaseFee)
        } else if name == "STRATEGY_UMFUTURES_TRANSFER"@ {
            Some(IncomeType::StrategyUmfuturesTransfer)
        } else if name == "FEE_RETURN"@ {
            Some(IncomeType::FeeReturn)
        } else if name == "BFUSD_REWARD"@ {
            Some(IncomeType::BfusdReward)
        } else {
            None
        }
    }

    pub fn parse(name: &str) -> (r: Option<Self>)
        ensures
            r == Self::spec_parse(name@),
    {
        if str_eq(name, "TRANSFER") {
            Some(IncomeType::Transfer)
        }         else if str_eq(name, "WELCOME_BONUS") {
            Some(IncomeType::WelcomeBonus)
        }         else if str_eq(name, "REALIZED_PNL") {
            Some(IncomeType::RealizedPnl)
        }         else if str_eq(name, "FUNDING_FEE") {
            Some(IncomeType::FundingFee)
        }         else if str_eq(name, "COMMISSION") {
            Some(IncomeType::Commission)
        }         else if str_eq(name, "INSURANCE_CLEAR") {
            Some(IncomeType::InsuranceClear)
        }         else if str_eq(name, "REFERRAL_KICKBACK") {
            Some(IncomeType::ReferralKickback)
        }         else if str_eq(name, "COMMISSION_REBATE") {
            Some(IncomeType::CommissionRebate)
        }         else if str_eq(name, "API_REBATE") {
            Some(IncomeType::ApiRebate)
        }         else if str_eq(name, "CONTEST_REWARD") {
            Some(IncomeType::ContestReward)
        }         else if str_eq(name, "CROSS_COLLATERAL_TRANSFER") {
            Some(IncomeType::CrossCollateralTransfer)
        }         else if str_eq(name, "OPTIONS_PREMIUM_FEE") {
            Some(IncomeType::OptionsPremiumFee)
        }         else if str_eq(name, "OPTIONS_SETTLE_PROFIT") {
            Some(IncomeType::OptionsSettleProfit)
        }         else if str_eq(name, "INTERNAL_TRANSFER") {
            Some(IncomeType::InternalTransfer)
        }         else if str_eq(name, "AUTO_EXCHANGE") {
            Some(IncomeType::AutoExchange)
        }         else if str_eq(name, "DELIVERED_SETTELMENT") {
            Some(IncomeType::DeliveredSettelment)
        }         else if str_eq(name, "COIN_SWAP_DEPOSIT") {
            Some(IncomeType::CoinSwapDeposit)
        }         else if str_eq(name, "COIN_SWAP_WITHDRAW") {
            Some(IncomeType::CoinSwapWithdraw)
        }         else if str_eq(name, "POSITION_LIMIT_INCREASE_FEE") {
            Some(IncomeType::PositionLimitIncreaseFee)
        }         else if str_eq(name, "STRATEGY_UMFUTURES_TRANSFER") {
            Some(IncomeType::StrategyUmfuturesTransfer)
        }         else if str_eq(name, "FEE_RETURN") {
            Some(IncomeType::FeeReturn)
        }         else if str_eq(name, "BFUSD_REWARD") {
            Some(IncomeType::BfusdReward)
        } else {
            None
        }
    }

    /// Every value is read back from its own name: no two values share one.
    pub proof fn lemma_name_is_read_back(value: Self)
        ensures
            Self::spec_parse(value.spec_name()) == Some(value),
    {
        reveal_strlit("TRANSFER");
        assert("TRANSFER"@.len() == 8 && "TRANSFER"@[2] == 'A');
        reveal_strlit("WELCOME_BONUS");
        assert("WELCOME_BONUS"@.len() == 13 && "WELCOME_BONUS"@[2] == 'L');
        reveal_strlit("REALIZED_PNL");
        assert("REALIZED_PNL"@.len() == 12 && "REALIZED_PNL"@[2] == 'A');
        reveal_strlit("FUNDING_FEE");
        assert("FUNDING_FEE"@.len() == 11 && "FUNDING_FEE"@[2] == 'N');
        reveal_strlit("COMMISSION");
        assert("COMMISSION"@.len() == 10 && "COMMISSION"@[2] == 'M');
        reveal_strlit("INSURANCE_CLEAR");
        assert("INSURANCE_CLEAR"@.len() == 15 && "INSURANCE_CLEAR"@[2] == 'S');
        reveal_strlit("REFERRAL_KICKBACK");
        assert("REFERRAL_KICKBACK"@.len() == 17 && "REFERRAL_KICKBACK"@[2] == 'F');
        reveal_strlit("COMMISSION_REBATE");
        assert("COMMISSION_REBATE"@.len() == 17 && "COMMISSION_REBATE"@[2] == 'M');
        reveal_strlit("API_REBATE");
        assert("API_REBATE"@.len() == 10 && "API_REBATE"@[2] == 'I');
        reveal_strlit("CONTEST_REWARD");
        assert("CONTEST_REWARD"@.len() == 14 && "CONTEST_REWARD"@[2] == 'N');
        reveal_strlit("CROSS_COLLATERAL_TRANSFER");
        assert("CROSS_COLLATERAL_TRANSFER"@.len() == 25 && "CROSS_COLLATERAL_TRANSFER"@[2] == 'O');
        reveal_strlit("OPTIONS_PREMIUM_FEE");
        assert("OPTIONS_PREMIUM_FEE"@.len() == 19 && "OPTIONS_PREMIUM_FEE"@[2] == 'T');
        reveal_strlit("OPTIONS_SETTLE_PROFIT");
        assert("OPTIONS_SETTLE_PROFIT"@.len() == 21 && "OPTIONS_SETTLE_PROFIT"@[2] == 'T');
        reveal_strlit("INTERNAL_TRANSFER");
        assert("INTERNAL_TRANSFER"@.len() == 17 && "INTERNAL_TRANSFER"@[2] == 'T');
        reveal_strlit("AUTO_EXCHANGE");
        assert("AUTO_EXCHANGE"@.len() == 13 && "AUTO_EXCHANGE"@[2] == 'T');
        reveal_strlit("DELIVERED_SETTELMENT");
        assert("DELIVERED_SETTELMENT"@.len() == 20 && "DELIVERED_SETTELMENT"@[2] == 'L');
        reveal_strlit("COIN_SWAP_DEPOSIT");
        assert("COIN_SWAP_DEPOSIT"@.len() == 17 && "COIN_SWAP_DEPOSIT"@[2] == 'I');
        reveal_strlit("COIN_SWAP_WITHDRAW");
        assert("COIN_SWAP_WITHDRAW"@.len() == 18 && "COIN_SWAP_WITHDRAW"@[2] == 'I');
        reveal_strlit("POSITION_LIMIT_INCREASE_FEE");
        assert("POSITION_LIMIT_INCREASE_FEE"@.len() == 27 && "POSITION_LIMIT_INCREASE_FEE"@[2] == 'S');
        reveal_strlit("STRATEGY_UMFUTURES_TRANSFER");
        assert("STRATEGY_UMFUTURES_TRANSFER"@.len() == 27 && "STRATEGY_UMFUTURES_TRANSFER"@[2] == 'R');
        reveal_strlit("FEE_RETURN");
        assert("FEE_RETURN"@.len() == 10 && "FEE_RETURN"@[2] == 'E');
        reveal_strlit("BFUSD_REWARD");
        assert("BFUSD_REWARD"@.len() == 12 && "BFUSD_REWARD"@[2] == 'U');
    }

    /// The value that the member `key` of a document names.
    pub open spec fn spec_parse_at(document: JsonValue, key: Seq<char>) -> Option<Self> {
        match document.text_at(key) {
            Some(name) => Self::spec_parse(name),
            None => None,
        }
    }

    pub fn parse_at(document: &Json, key: &str) -> (r: Option<Self>)
        ensures
            r == Self::spec_parse_at(document@, key@),
    {
        match document.text_at(key) {
            Some(name) => Self::parse(name.as_str()),
            None => None,
        }
    }
}

/// One income of the futures account.
#[derive(Debug, Clone, Default)]
pub struct IncomeHistory {
    pub symbol: Option<String>,
    pub income_type: IncomeType,
    pub income: String,
    pub asset: String,
    pub info: String,
    pub time: i64,
    pub tran_id: u64,
    pub trade_id: Option<String>,
}

impl FromJson for IncomeHistory {
    open spec fn has_shape(document: JsonValue) -> bool {
        &&& document.optional_text_at("symbol"@) is Some
        &&& IncomeType::spec_parse_at(document, "incomeType"@) is Some
        &&& document.text_at("income"@) is Some
        &&& document.text_at("asset"@) is Some
        &&& document.text_at("info"@) is Some
        &&& document.i64_at("time"@) is Some
        &&& document.u64_at("tranId"@) is Some
        &&& document.optional_text_at("tradeId"@) is Some
    }

    open spec fn describes(&self, document: JsonValue) -> bool {
        &&& Some(string_view(self.symbol)) == document.optional_text_at("symbol"@)
        &&& Some(self.income_type) == IncomeType::spec_parse_at(document, "incomeType"@)
        &&& Some(self.income@) == document.text_at("income"@)
        &&& Some(self.asset@) == document.text_at("asset"@)
        &&& Some(self.info@) == document.text_at("info"@)
        &&& Some(self.time) == document.i64_at("time"@)
        &&& Some(self.tran_id) == document.u64_at("tranId"@)
        &&& Some(string_view(self.trade_id)) == document.optional_text_at("tradeId"@)
    }

    fn from_json(document: &Json) -> (r: Option<Self>) {
        let symbol = document.optional_text_at("symbol")?;
        let income_type = IncomeType::parse_at(document, "incomeType")?;
        let income = document.text_at("income")?;
        let asset = document.text_at("asset")?;
        let info = document.text_at("info")?;
        let time = document.i64_at("time")?;
        let tran_id = document.u64_at("tranId")?;
        let trade_id = document.optional_text_at("tradeId")?;
        Some(IncomeHistory { symbol, income_type, income, asset, info, time, tran_id, trade_id })
    }
}

} // verus!
