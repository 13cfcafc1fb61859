//! The wallet.

use vstd::prelude::*;
use vstd::string::*;
use crate::decode::FromJson;
use crate::endpoints::{
    now_millis, with_base, BaseRequest, Endpoint, EndpointRequest, Method, SecurityType,
};
use crate::errors::BinanceApiError;
use crate::json::{string_view, Json, JsonValue};
use crate::text::{
    decimal_text, optional_bool_text, optional_decimal, optional_signed_decimal,
    optional_small_signed_decimal, push_optional_bool_pair, push_optional_i32_pair,
    push_optional_i64_pair, push_optional_pair, push_optional_u64_pair, push_pair, push_u64_pair,
    with_optional_pair, with_pair,
};

verus! {

/// The wallet.
#[derive(Debug, Clone, Copy, PartialEq, Eq, Structural)]
pub enum WalletEP {
    SystemStatus,
    CapitalConfigGetAll,
    AssetDetail,
    DepositAddress,
    WithdrawApply,
    DepositHisrec,
    WithdrawHistory,
}

impl WalletEP {
    /// The path of the operation.
    pub open spec fn spec_path(self) -> Seq<char> {
        match self {
            WalletEP::SystemStatus => "/sapi/v1/system/status"@,
            WalletEP::CapitalConfigGetAll => "/sapi/v1/capital/config/getall"@,
            WalletEP::AssetDetail => "/sapi/v1/asset/assetDetail"@,
            WalletEP::DepositAddress => "/sapi/v1/capital/deposit/address"@,
            WalletEP::WithdrawApply => "/sapi/v1/capital/withdraw/apply"@,
            WalletEP::DepositHisrec => "/sapi/v1/capital/deposit/hisrec"@,
            WalletEP::WithdrawHistory => "/sapi/v1/capital/withdraw/history"@,
        }
    }

    pub fn path(&self) -> (path: &'static str)
        ensures
            path@ == self.spec_path(),
    {
        match self {
            WalletEP::SystemStatus => "/sapi/v1/system/status",
            WalletEP::CapitalConfigGetAll => "/sapi/v1/capital/config/getall",
            WalletEP::AssetDetail => "/sapi/v1/asset/assetDetail",
            WalletEP::DepositAddress => "/sapi/v1/capital/deposit/address",
            WalletEP::WithdrawApply => "/sapi/v1/capital/withdraw/apply",
            WalletEP::DepositHisrec => "/sapi/v1/capital/deposit/hisrec",
            WalletEP::WithdrawHistory => "/sapi/v1/capital/withdraw/history",
        }
    }
}

impl Endpoint for WalletEP {
    open spec fn spec_is_implemented(&self) -> bool {
        true
    }

    open spec fn spec_action_params(&self) -> (Method, SecurityType, Seq<char>) {
        match self {
            WalletEP::SystemStatus => (Method::GET, SecurityType::Public, self.spec_path()),
            WalletEP::CapitalConfigGetAll => (Method::GET, SecurityType::UserData, self.spec_path()),
            WalletEP::AssetDetail => (Method::GET, SecurityType::UserData, self.spec_path()),
            WalletEP::DepositAddress => (Method::GET, SecurityType::UserData, self.spec_path()),
            WalletEP::WithdrawApply => (Method::POST, SecurityType::UserData, self.spec_path()),
            WalletEP::DepositHisrec => (Method::GET, SecurityType::UserData, self.spec_path()),
            WalletEP::WithdrawHistory => (Method::GET, SecurityType::UserData, self.spec_path()),
        }
    }

    fn is_implemented(&self) -> (r: bool) {
        true
    }

    fn action_params(&self) -> (r: (Method, SecurityType, String)) {
        let path = String::from_str(self.path());
        match self {
            WalletEP::SystemStatus => (Method::GET, SecurityType::Public, path),
            WalletEP::CapitalConfigGetAll => (Method::GET, SecurityType::UserData, path),
            WalletEP::AssetDetail => (Method::GET, SecurityType::UserData, path),
            WalletEP::DepositAddress => (Method::GET, SecurityType::UserData, path),
            WalletEP::WithdrawApply => (Method::POST, SecurityType::UserData, path),
            WalletEP::DepositHisrec => (Method::GET, SecurityType::UserData, path),
            WalletEP::WithdrawHistory => (Method::GET, SecurityType::UserData, path),
        }
    }
}

/// Whether the system is up. The request has no parameters.
#[derive(Debug)]
pub struct SystemStatusRequest;

impl EndpointRequest for SystemStatusRequest {
    type Response = SystemStatusResponse;

    open spec fn spec_query(&self) -> Seq<char> {
        Seq::empty()
    }

    open spec fn spec_is_valid(&self) -> bool {
        true
    }

    fn to_string(&self) -> (query: String) {
        String::new()
    }

    fn validate(&self) -> (r: Result<(), BinanceApiError>) {
        Ok(())
    }
}

/// The state of the system.
#[derive(Debug)]
pub struct SystemStatusResponse {
    pub status: i64,
    pub msg: String,
}

impl FromJson for SystemStatusResponse {
    open spec fn has_shape(document: JsonValue) -> bool {
        &&& document.i64_at("status"@) is Some
        &&& document.text_at("msg"@) is Some
    }

    open spec fn describes(&self, document: JsonValue) -> bool {
        &&& Some(self.status) == document.i64_at("status"@)
        &&& Some(self.msg@) == document.text_at("msg"@)
    }

    fn from_json(document: &Json) -> (r: Option<Self>) {
        let status = document.i64_at("status")?;
        let msg = document.text_at("msg")?;
        Some(SystemStatusResponse { status, msg })
    }
}

/// Every coin that the wallet knows.
#[derive(Debug)]
pub struct AllCoinsRequest(pub BaseRequest);

impl EndpointRequest for AllCoinsRequest {
    type Response = Json;

    open spec fn spec_query(&self) -> Seq<char> {
        with_base(Seq::empty(), self.0)
    }

    open spec fn spec_is_valid(&self) -> bool {
        true
    }

    fn to_string(&self) -> (query: String) {
        self.0.to_string()
    }

    fn validate(&self) -> (r: Result<(), BinanceApiError>) {
        Ok(())
    }
}

/// A withdrawal.
#[derive(Debug)]
pub struct WithdrawRequest {
    pub coin: String,
    pub address: String,
    /// A decimal number, as text.
    pub amount: String,
    pub withdraw_order_id: Option<String>,
    pub network: Option<String>,
    pub address_tag: Option<String>,
    pub transaction_fee_flag: Option<bool>,
    pub name: Option<String>,
    pub wallet_type: Option<i32>,
    pub recv_window: Option<u64>,
    pub timestamp: u64,
}

impl WithdrawRequest {
    /// The required parameters are given and every optional one is left out; the
    /// request is stamped with the given time.
    pub fn at(coin: String, address: String, amount: String, timestamp: u64) -> (r: Self)
        ensures
            r.coin == coin,
            r.address == address,
            r.amount == amount,
            r.withdraw_order_id is None,
            r.network is None,
            r.address_tag is None,
            r.transaction_fee_flag is None,
            r.name is None,
            r.wallet_type is None,
            r.recv_window is None,
            r.timestamp == timestamp,
    {
        WithdrawRequest {
            coin,
            address,
            amount,
            withdraw_order_id: None,
            network: None,
            address_tag: None,
            transaction_fee_flag: None,
            name: None,
            wallet_type: None,
            recv_window: None,
            timestamp,
        }
    }

    /// The required parameters are given; every optional one is left out, and
    /// the request is stamped with the current time.
    pub fn init(coin: String, address: String, amount: String) -> (r: Self)
        ensures
            r.coin == coin,
            r.address == address,
            r.amount == amount,
            r.withdraw_order_id is None,
            r.network is None,
            r.address_tag is None,
            r.transaction_fee_flag is None,
            r.name is None,
            r.wallet_type is None,
            r.recv_window is None,
    {
        Self::at(coin, address, amount, now_millis())
    }
}

impl EndpointRequest for WithdrawRequest {
    type Response = WithdrawResponse;

    open spec fn spec_query(&self) -> Seq<char> {
        let q = Seq::<char>::empty();
        let q = with_pair(q, "coin"@, self.coin@);
        let q = with_pair(q, "address"@, self.address@);
        let q = with_pair(q, "amount"@, self.amount@);
        let q = with_optional_pair(q, "withdrawOrderId"@, string_view(self.withdraw_order_id));
        let q = with_optional_pair(q, "network"@, string_view(self.network));
        let q = with_optional_pair(q, "addressTag"@, string_view(self.address_tag));
        let q = with_optional_pair(q, "transactionFeeFlag"@, optional_bool_text(self.transaction_fee_flag));
        let q = with_optional_pair(q, "name"@, string_view(self.name));
        let q = with_optional_pair(q, "walletType"@, optional_small_signed_decimal(self.wallet_type));
        let q = with_optional_pair(q, "recvWindow"@, optional_decimal(self.recv_window));
        let q = with_pair(q, "timestamp"@, decimal_text(self.timestamp as nat));
        q
    }

    open spec fn spec_is_valid(&self) -> bool {
        true
    }

    fn to_string(&self) -> (query: String) {
        let mut out = String::new();
        push_pair(&mut out, "coin", self.coin.as_str());
        push_pair(&mut out, "address", self.address.as_str());
        push_pair(&mut out, "amount", self.amount.as_str());
        push_optional_pair(&mut out, "withdrawOrderId", &self.withdraw_order_id);
        push_optional_pair(&mut out, "network", &self.network);
        push_optional_pair(&mut out, "addressTag", &self.address_tag);
        push_optional_bool_pair(&mut out, "transactionFeeFlag", self.transaction_fee_flag);
        push_optional_pair(&mut out, "name", &self.name);
        push_optional_i32_pair(&mut out, "walletType", self.wallet_type);
        push_optional_u64_pair(&mut out, "recvWindow", self.recv_window);
        push_u64_pair(&mut out, "timestamp", self.timestamp);
        out
    }

    fn validate(&self) -> (r: Result<(), BinanceApiError>) {
        Ok(())
    }
}

/// The identifier of a withdrawal.
#[derive(Debug, Clone)]
pub struct WithdrawResponse {
    pub id: String,
}

impl FromJson for WithdrawResponse {
    open spec fn has_shape(document: JsonValue) -> bool {
        &&& document.text_at("id"@) is Some
    }

    open spec fn describes(&self, document: JsonValue) -> bool {
        &&& Some(self.id@) == document.text_at("id"@)
    }

    fn from_json(document: &Json) -> (r: Option<Self>) {
        let id = document.text_at("id")?;
        Some(WithdrawResponse { id })
    }
}

/// The deposits of the account.
#[derive(Debug)]
pub struct DepositHisrecRequest {
    pub include_source: Option<bool>,
    pub coin: Option<String>,
    pub status: Option<i64>,
    pub start_time: Option<i64>,
    pub end_time: Option<i64>,
    pub offset: Option<i64>,
    pub limit: Option<i64>,
    pub recv_window: Option<i64>,
    pub timestamp: u64,
    pub tx_id: Option<String>,
}

impl DepositHisrecRequest {
    /// The required parameters are given and every optional one is left out; the
    /// request is stamped with the given time.
    pub fn at(timestamp: u64) -> (r: Self)
        ensures
            r.include_source is None,
            r.coin is None,
            r.status is None,
            r.start_time is None,
            r.end_time is None,
            r.offset is None,
            r.limit is None,
            r.recv_window is None,
            r.timestamp == timestamp,
            r.tx_id is None,
    {
        DepositHisrecRequest {
            include_source: None,
            coin: None,
            status: None,
            start_time: None,
            end_time: None,
            offset: None,
            limit: None,
            recv_window: None,
            timestamp,
            tx_id: None,
        }
    }

    /// The required parameters are given; every optional one is left out, and
    /// the request is stamped with the current time.
    pub fn init() -> (r: Self)
        ensures
            r.include_source is None,
            r.coin is None,
            r.status is None,
            r.start_time is None,
            r.end_time is None,
            r.offset is None,
            r.limit is None,
            r.recv_window is None,
            r.tx_id is None,
    {
        Self::at(now_millis())
    }
}

impl EndpointRequest for DepositHisrecRequest {
    type Response = Vec<DepositHisrecResponse>;

    open spec fn spec_query(&self) -> Seq<char> {
        let q = Seq::<char>::empty();
        let q = with_optional_pair(q, "includeSource"@, optional_bool_text(self.include_source));
        let q = with_optional_pair(q, "coin"@, string_view(self.coin));
        let q = with_optional_pair(q, "status"@, optional_signed_decimal(self.status));
        let q = with_optional_pair(q, "startTime"@, optional_signed_decimal(self.start_time));
        let q = with_optional_pair(q, "endTime"@, optional_signed_decimal(self.end_time));
        let q = with_optional_pair(q, "offset"@, optional_signed_decimal(self.offset));
        let q = with_optional_pair(q, "limit"@, optional_signed_decimal(self.limit));
        let q = with_optional_pair(q, "recvWindow"@, optional_signed_decimal(self.recv_window));
        let q = with_pair(q, "timestamp"@, decimal_text(self.timestamp as nat));
        let q = with_optional_pair(q, "txId"@, string_view(self.tx_id));
        q
    }

    open spec fn spec_is_valid(&self) -> bool {
        true
    }

    fn to_string(&self) -> (query: String) {
        let mut out = String::new();
        push_optional_bool_pair(&mut out, "includeSource", self.include_source);
        push_optional_pair(&mut out, "coin", &self.coin);
        push_optional_i64_pair(&mut out, "status", self.status);
        push_optional_i64_pair(&mut out, "startTime", self.start_time);
        push_optional_i64_pair(&mut out, "endTime", self.end_time);
        push_optional_i64_pair(&mut out, "offset", self.offset);
        push_optional_i64_pair(&mut out, "limit", self.limit);
        push_optional_i64_pair(&mut out, "recvWindow", self.recv_window);
        push_u64_pair(&mut out, "timestamp", self.timestamp);
        push_optional_pair(&mut out, "txId", &self.tx_id);
        out
    }

    fn validate(&self) -> (r: Result<(), BinanceApiError>) {
        Ok(())
    }
}

/// One deposit.
#[derive(Debug, Clone)]
pub struct DepositHisrecResponse {
    pub id: String,
    pub amount: String,
    pub coin: String,
    pub network: String,
    pub status: i64,
    pub address: String,
    pub address_tag: String,
    pub tx_id: String,
    pub insert_time: i64,
    pub transfer_type: i64,
    pub confirm_times: String,
    pub unlock_confirm: i64,
    pub wallet_type: i64,
}

impl FromJson for DepositHisrecResponse {
    open spec fn has_shape(document: JsonValue) -> bool {
        &&& document.text_at("id"@) is Some
        &&& document.text_at("amount"@) is Some
        &&& document.text_at("coin"@) is Some
        &&& document.text_at("network"@) is Some
        &&& document.i64_at("status"@) is Some
        &&& document.text_at("address"@) is Some
        &&& document.text_at("addressTag"@) is Some
        &&& document.text_at("txId"@) is Some
        &&& document.i64_at("insertTime"@) is Some
        &&& document.i64_at("transferType"@) is Some
        &&& document.text_at("confirmTimes"@) is Some
        &&& document.i64_at("unlockConfirm"@) is Some
        &&& document.i64_at("walletType"@) is Some
    }

    open spec fn describes(&self, document: JsonValue) -> bool {
        &&& Some(self.id@) == document.text_at("id"@)
        &&& Some(self.amount@) == document.text_at("amount"@)
        &&& Some(self.coin@) == document.text_at("coin"@)
        &&& Some(self.network@) == document.text_at("network"@)
        &&& Some(self.status) == document.i64_at("status"@)
        &&& Some(self.address@) == document.text_at("address"@)
        &&& Some(self.address_tag@) == document.text_at("addressTag"@)
        &&& Some(self.tx_id@) == document.text_at("txId"@)
        &&& Some(self.insert_time) == document.i64_at("insertTime"@)
        &&& Some(self.transfer_type) == document.i64_at("transferType"@)
        &&& Some(self.confirm_times@) == document.text_at("confirmTimes"@)
        &&& Some(self.unlock_confirm) == document.i64_at("unlockConfirm"@)
        &&& Some(self.wallet_type) == document.i64_at("walletType"@)
    }

    fn from_json(document: &Json) -> (r: Option<Self>) {
        let id = document.text_at("id")?;
        let amount = document.text_at("amount")?;
        let coin = document.text_at("coin")?;
        let network = document.text_at("network")?;
        let status = document.i64_at("status")?;
        let address = document.text_at("address")?;
        let address_tag = document.text_at("addressTag")?;
        let tx_id = document.text_at("txId")?;
        let insert_time = document.i64_at("insertTime")?;
        let transfer_type = document.i64_at("transferType")?;
        let confirm_times = document.text_at("confirmTimes")?;
        let unlock_confirm = document.i64_at("unlockConfirm")?;
        let wallet_type = document.i64_at("walletType")?;
        Some(
            DepositHisrecResponse {
                id,
                amount,
                coin,
                network,
                status,
                address,
                address_tag,
                tx_id,
                insert_time,
                transfer_type,
                confirm_times,
                unlock_confirm,
                wallet_type,
            },
        )
    }
}

/// The withdrawals of the account.
#[derive(Debug)]
pub struct WithdrawHistoryRequest {
    pub coin: Option<String>,
    pub withdraw_order_id: Option<String>,
    pub status: Option<i64>,
    pub offset: Option<i64>,
    pub limit: Option<i64>,
    pub start_time: Option<i64>,
    pub end_time: Option<i64>,
    pub recv_window: Option<i64>,
    pub timestamp: u64,
}

impl WithdrawHistoryRequest {
    /// The required parameters are given and every optional one is left out; the
    /// request is stamped with the given time.
    pub fn at(timestamp: u64) -> (r: Self)
        ensures
            r.coin is None,
            r.withdraw_order_id is None,
            r.status is None,
            r.offset is None,
            r.limit is None,
            r.start_time is None,
            r.end_time is None,
            r.recv_window is None,
            r.timestamp == timestamp,
    {
        WithdrawHistoryRequest {
            coin: None,
            withdraw_order_id: None,
            status: None,
            offset: None,
            limit: None,
            start_time: None,
            end_time: None,
            recv_window: None,
            timestamp,
        }
    }

    /// The required parameters are given; every optional one is left out, and
    /// the request is stamped with the current time.
    pub fn init() -> (r: Self)
        ensures
            r.coin is None,
            r.withdraw_order_id is None,
            r.status is None,
            r.offset is None,
            r.limit is None,
            r.start_time is None,
            r.end_time is None,
            r.recv_window is None,
    {
        Self::at(now_millis())
    }
}

impl EndpointRequest for WithdrawHistoryRequest {
    type Response = Vec<WithdrawHistoryResponse>;

    open spec fn spec_query(&self) -> Seq<char> {
        let q = Seq::<char>::empty();
        let q = with_optional_pair(q, "coin"@, string_view(self.coin));
        let q = with_optional_pair(q, "withdrawOrderId"@, string_view(self.withdraw_order_id));
        let q = with_optional_pair(q, "status"@, optional_signed_decimal(self.status));
        let q = with_optional_pair(q, "offset"@, optional_signed_decimal(self.offset));
        let q = with_optional_pair(q, "limit"@, optional_signed_decimal(self.limit));
        let q = with_optional_pair(q, "startTime"@, optional_signed_decimal(self.start_time));
        let q = with_optional_pair(q, "endTime"@, optional_signed_decimal(self.end_time));
        let q = with_optional_pair(q, "recvWindow"@, optional_signed_decimal(self.recv_window));
        let q = with_pair(q, "timestamp"@, decimal_text(self.timestamp as nat));
        q
    }

    open spec fn spec_is_valid(&self) -> bool {
        true
    }

    fn to_string(&self) -> (query: String) {
        let mut out = String::new();
        push_optional_pair(&mut out, "coin", &self.coin);
        push_optional_pair(&mut out, "withdrawOrderId", &self.withdraw_order_id);
        push_optional_i64_pair(&mut out, "status", self.status);
        push_optional_i64_pair(&mut out, "offset", self.offset);
        push_optional_i64_pair(&mut out, "limit", self.limit);
        push_optional_i64_pair(&mut out, "startTime", self.start_time);
        push_optional_i64_pair(&mut out, "endTime", self.end_time);
        push_optional_i64_pair(&mut out, "recvWindow", self.recv_window);
        push_u64_pair(&mut out, "timestamp", self.timestamp);
        out
    }

    fn validate(&self) -> (r: Result<(), BinanceApiError>) {
        Ok(())
    }
}

/// One withdrawal.
#[derive(Debug, Clone)]
pub struct WithdrawHistoryResponse {
    pub id: String,
    pub amount: String,
    pub transaction_fee: String,
    pub coin: String,
    pub status: i64,
    pub address: String,
    pub tx_id: String,
    pub apply_time: String,
    pub network: String,
    pub transfer_type: i64,
    pub withdraw_order_id: Option<String>,
    pub info: String,
    pub confirm_no: Option<i64>,
    pub wallet_type: i64,
    pub tx_key: String,
    pub complete_time: Option<String>,
}

impl FromJson for WithdrawHistoryResponse {
    open spec fn has_shape(document: JsonValue) -> bool {
        &&& document.text_at("id"@) is Some
        &&& document.text_at("amount"@) is Some
        &&& document.text_at("transactionFee"@) is Some
        &&& document.text_at("coin"@) is Some
        &&& document.i64_at("status"@) is Some
        &&& document.text_at("address"@) is Some
        &&& document.text_at("txId"@) is Some
        &&& document.text_at("applyTime"@) is Some
        &&& document.text_at("network"@) is Some
        &&& document.i64_at("transferType"@) is Some
        &&& document.optional_text_at("withdrawOrderId"@) is Some
        &&& document.text_at("info"@) is Some
        &&& document.optional_i64_at("confirmNo"@) is Some
        &&& document.i64_at("walletType"@) is Some
        &&& document.text_at("txKey"@) is Some
        &&& document.optional_text_at("completeTime"@) is Some
    }

    open spec fn describes(&self, document: JsonValue) -> bool {
        &&& Some(self.id@) == document.text_at("id"@)
        &&& Some(self.amount@) == document.text_at("amount"@)
        &&& Some(self.transaction_fee@) == document.text_at("transactionFee"@)
        &&& Some(self.coin@) == document.text_at("coin"@)
        &&& Some(self.status) == document.i64_at("status"@)
        &&& Some(self.address@) == document.text_at("address"@)
        &&& Some(self.tx_id@) == document.text_at("txId"@)
        &&& Some(self.apply_time@) == document.text_at("applyTime"@)
        &&& Some(self.network@) == document.text_at("network"@)
        &&& Some(self.transfer_type) == document.i64_at("transferType"@)
        &&& Some(string_view(self.withdraw_order_id)) == document.optional_text_at("withdrawOrderId"@)
        &&& Some(self.info@) == document.text_at("info"@)
        &&& Some(self.confirm_no) == document.optional_i64_at("confirmNo"@)
        &&& Some(self.wallet_type) == document.i64_at("walletType"@)
        &&& Some(self.tx_key@) == document.text_at("txKey"@)
        &&& Some(string_view(self.complete_time)) == document.optional_text_at("completeTime"@)
    }

    fn from_json(document: &Json) -> (r: Option<Self>) {
        let id = document.text_at("id")?;
        let amount = document.text_at("amount")?;
        let transaction_fee = document.text_at("transactionFee")?;
        let coin = document.text_at("coin")?;
        let status = document.i64_at("status")?;
        let address = document.text_at("address")?;
        let tx_id = document.text_at("txId")?;
        let apply_time = document.text_at("applyTime")?;
        let network = document.text_at("network")?;
        let transfer_type = document.i64_at("transferType")?;
        let withdraw_order_id = document.optional_text_at("withdrawOrderId")?;
        let info = document.text_at("info")?;
        let confirm_no = document.optional_i64_at("confirmNo")?;
        let wallet_type = document.i64_at("walletType")?;
        let tx_key = document.text_at("txKey")?;
        let complete_time = document.optional_text_at("completeTime")?;
        Some(
            WithdrawHistoryResponse {
                id,
                amount,
                transaction_fee,
                coin,
                status,
                address,
                tx_id,
                apply_time,
                network,
                transfer_type,
                withdraw_order_id,
                info,
                confirm_no,
                wallet_type,
                tx_key,
                complete_time,
            },
        )
    }
}

impl WithdrawHistoryResponse {
    /// Whether the withdrawal is completed: it has a time of completion and
    /// its status is 6.
    pub fn is_complete(&self) -> (r: bool)
        ensures
            r == (self.complete_time is Some && self.status == 6),
    {
        self.complete_time.is_some() && self.status == 6
    }
}

} // verus!
