//! The whitelisting minter speaks the messages of the plain minter.

pub use crate::minter::msg::{
    ExchangingInfoResponse, ExecuteMsg, InstantiateMsg, QueryMsg, QueryResponse, ReceiverResponse,
    Response, INSTANTIATE_TOKEN_REPLY_ID,
};
