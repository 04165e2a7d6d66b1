//! The endpoints of the read surface and the paths under which they are
//! served: eight below `/api/v2`, and the stubs below `/api/`. All of them
//! answer to `GET` and to nothing else; the surface is read-only.

use vstd::prelude::*;

verus! {

/// An endpoint of the read surface. Those below `/api/` are stubs that
/// answer with a sentence about the request.
#[derive(Clone, Copy, Debug, PartialEq, Eq, Structural)]
pub enum Route {
    Blocks,
    BlockById,
    Transactions,
    TransactionById,
    Stats,
    MainPageBlocks,
    MainPageTransactions,
    StatsChartsTransactions,
    EthGetBalance,
    Balance,
    BalanceMulti,
    PendingTxList,
    TxList,
    TxListInternal,
    TokenTx,
    TokenBalance,
    GetBlockReward,
    GetBlockCountdown,
    GetBlockNoByTime,
    EthBlockNumber,
    ListContracts,
    GetAbi,
    GetSourceCode,
    GetContractCreation,
    Verify,
    VerifyViaSourcify,
    VerifyVyperContract,
    VerifySourceCode,
    CheckVerifyStatus,
    VerifyProxyContract,
    CheckProxyVerification,
    GetLogs,
    TokenSupply,
    GetToken,
    GetTokenHolders,
    BridgedTokenList,
    GetTxInfo,
    GetTxReceiptStatus,
    GetStatus,
}

impl Route {
    /// The path of the endpoint; `{id}` stands for a block number or a
    /// transaction hash.
    pub open spec fn path_text(self) -> Seq<char> {
        match self {
            Route::Blocks => "/api/v2/blocks"@,
            Route::BlockById => "/api/v2/blocks/{id}"@,
            Route::Transactions => "/api/v2/transactions"@,
            Route::TransactionById => "/api/v2/transactions/{id}"@,
            Route::Stats => "/api/v2/stats"@,
            Route::MainPageBlocks => "/api/v2/main-page/blocks"@,
            Route::MainPageTransactions => "/api/v2/main-page/transactions"@,
            Route::StatsChartsTransactions => "/api/v2/stats/charts/transactions"@,
            Route::EthGetBalance => "/api/eth_get_balance"@,
            Route::Balance => "/api/balance"@,
            Route::BalanceMulti => "/api/balancemulti"@,
            Route::PendingTxList => "/api/pendingtxlist"@,
            Route::TxList => "/api/txlist"@,
            Route::TxListInternal => "/api/txlistinternal"@,
            Route::TokenTx => "/api/tokentx"@,
            Route::TokenBalance => "/api/tokenbalance"@,
            Route::GetBlockReward => "/api/getblockreward"@,
            Route::GetBlockCountdown => "/api/getblockcountdown"@,
            Route::GetBlockNoByTime => "/api/getblocknobytime"@,
            Route::EthBlockNumber => "/api/eth_block_number"@,
            Route::ListContracts => "/api/listcontracts"@,
            Route::GetAbi => "/api/getabi"@,
            Route::GetSourceCode => "/api/getsourcecode"@,
            Route::GetContractCreation => "/api/getcontractcreation"@,
            Route::Verify => "/api/verify"@,
            Route::VerifyViaSourcify => "/api/verify_via_sourcify"@,
            Route::VerifyVyperContract => "/api/verify_vyper_contract"@,
            Route::VerifySourceCode => "/api/verifysourcecode"@,
            Route::CheckVerifyStatus => "/api/checkverifystatus"@,
            Route::VerifyProxyContract => "/api/verifyproxycontract"@,
            Route::CheckProxyVerification => "/api/checkproxyverification"@,
            Route::GetLogs => "/api/get_logs"@,
            Route::TokenSupply => "/api/token_supply"@,
            Route::GetToken => "/api/get_token"@,
            Route::GetTokenHolders => "/api/get_token_holders"@,
            Route::BridgedTokenList => "/api/bridged_token_list"@,
            Route::GetTxInfo => "/api/get_tx_info"@,
            Route::GetTxReceiptStatus => "/api/get_tx_receipt_status"@,
            Route::GetStatus => "/api/get_status"@,
        }
    }

    /// The path of the endpoint.
    pub fn path(&self) -> (path: &'static str)
        ensures
            path@ == self.path_text(),
    {
        match self {
            Route::Blocks => "/api/v2/blocks",
            Route::BlockById => "/api/v2/blocks/{id}",
            Route::Transactions => "/api/v2/transactions",
            Route::TransactionById => "/api/v2/transactions/{id}",
            Route::Stats => "/api/v2/stats",
            Route::MainPageBlocks => "/api/v2/main-page/blocks",
            Route::MainPageTransactions => "/api/v2/main-page/transactions",
            Route::StatsChartsTransactions => "/api/v2/stats/charts/transactions",
            Route::EthGetBalance => "/api/eth_get_balance",
            Route::Balance => "/api/balance",
            Route::BalanceMulti => "/api/balancemulti",
            Route::PendingTxList => "/api/pendingtxlist",
            Route::TxList => "/api/txlist",
            Route::TxListInternal => "/api/txlistinternal",
            Route::TokenTx => "/api/tokentx",
            Route::TokenBalance => "/api/tokenbalance",
            Route::GetBlockReward => "/api/getblockreward",
            Route::GetBlockCountdown => "/api/getblockcountdown",
            Route::GetBlockNoByTime => "/api/getblocknobytime",
            Route::EthBlockNumber => "/api/eth_block_number",
            Route::ListContracts => "/api/listcontracts",
            Route::GetAbi => "/api/getabi",
            Route::GetSourceCode => "/api/getsourcecode",
            Route::GetContractCreation => "/api/getcontractcreation",
            Route::Verify => "/api/verify",
            Route::VerifyViaSourcify => "/api/verify_via_sourcify",
            Route::VerifyVyperContract => "/api/verify_vyper_contract",
            Route::VerifySourceCode => "/api/verifysourcecode",
            Route::CheckVerifyStatus => "/api/checkverifystatus",
            Route::VerifyProxyContract => "/api/verifyproxycontract",
            Route::CheckProxyVerification => "/api/checkproxyverification",
            Route::GetLogs => "/api/get_logs",
            Route::TokenSupply => "/api/token_supply",
            Route::GetToken => "/api/get_token",
            Route::GetTokenHolders => "/api/get_token_holders",
            Route::BridgedTokenList => "/api/bridged_token_list",
            Route::GetTxInfo => "/api/get_tx_info",
            Route::GetTxReceiptStatus => "/api/get_tx_receipt_status",
            Route::GetStatus => "/api/get_status",
        }
    }

    /// Whether the endpoint is a stub.
    pub open spec fn is_stub_route(self) -> bool {
        match self {
            Route::Blocks | Route::BlockById | Route::Transactions
            | Route::TransactionById | Route::Stats | Route::MainPageBlocks
            | Route::MainPageTransactions | Route::StatsChartsTransactions => false,
            _ => true,
        }
    }

    /// Whether the endpoint is a stub.
    pub fn is_stub(&self) -> (stub: bool)
        ensures
            stub == self.is_stub_route(),
    {
        match self {
            Route::Blocks | Route::BlockById | Route::Transactions
            | Route::TransactionById | Route::Stats | Route::MainPageBlocks
            | Route::MainPageTransactions | Route::StatsChartsTransactions => false,
            _ => true,
        }
    }
}

/// Every endpoint, in the order in which they are registered.
pub open spec fn all_routes() -> Seq<Route> {
    seq![
        Route::Blocks,
        Route::BlockById,
        Route::Transactions,
        Route::TransactionById,
        Route::Stats,
        Route::MainPageBlocks,
        Route::MainPageTransactions,
        Route::StatsChartsTransactions,
        Route::EthGetBalance,
        Route::Balance,
        Route::BalanceMulti,
        Route::PendingTxList,
        Route::TxList,
        Route::TxListInternal,
        Route::TokenTx,
        Route::TokenBalance,
        Route::GetBlockReward,
        Route::GetBlockCountdown,
        Route::GetBlockNoByTime,
        Route::EthBlockNumber,
        Route::ListContracts,
        Route::GetAbi,
        Route::GetSourceCode,
        Route::GetContractCreation,
        Route::Verify,
        Route::VerifyViaSourcify,
        Route::VerifyVyperContract,
        Route::VerifySourceCode,
        Route::CheckVerifyStatus,
        Route::VerifyProxyContract,
        Route::CheckProxyVerification,
        Route::GetLogs,
        Route::TokenSupply,
        Route::GetToken,
        Route::GetTokenHolders,
        Route::BridgedTokenList,
        Route::GetTxInfo,
        Route::GetTxReceiptStatus,
        Route::GetStatus,
    ]
}

/// Every endpoint of the surface.
pub fn configure() -> (routes: Vec<Route>)
    ensures
        routes@ == all_routes(),
{
    let mut routes: Vec<Route> = Vec::new();
    routes.push(Route::Blocks);
    routes.push(Route::BlockById);
    routes.push(Route::Transactions);
    routes.push(Route::TransactionById);
    routes.push(Route::Stats);
    routes.push(Route::MainPageBlocks);
    routes.push(Route::MainPageTransactions);
    routes.push(Route::StatsChartsTransactions);
    routes.push(Route::EthGetBalance);
    routes.push(Route::Balance);
    routes.push(Route::BalanceMulti);
    routes.push(Route::PendingTxList);
    routes.push(Route::TxList);
    routes.push(Route::TxListInternal);
    routes.push(Route::TokenTx);
    routes.push(Route::TokenBalance);
    routes.push(Route::GetBlockReward);
    routes.push(Route::GetBlockCountdown);
    routes.push(Route::GetBlockNoByTime);
    routes.push(Route::EthBlockNumber);
    routes.push(Route::ListContracts);
    routes.push(Route::GetAbi);
    routes.push(Route::GetSourceCode);
    routes.push(Route::GetContractCreation);
    routes.push(Route::Verify);
    routes.push(Route::VerifyViaSourcify);
    routes.push(Route::VerifyVyperContract);
    routes.push(Route::VerifySourceCode);
    routes.push(Route::CheckVerifyStatus);
    routes.push(Route::VerifyProxyContract);
    routes.push(Route::CheckProxyVerification);
    routes.push(Route::GetLogs);
    routes.push(Route::TokenSupply);
    routes.push(Route::GetToken);
    routes.push(Route::GetTokenHolders);
    routes.push(Route::BridgedTokenList);
    routes.push(Route::GetTxInfo);
    routes.push(Route::GetTxReceiptStatus);
    routes.push(Route::GetStatus);
    assert(routes@ =~= all_routes());
    routes
}

} // verus!
