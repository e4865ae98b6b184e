//! The bot's own identity: the request that asks for it and the reading of
//! the answer.

use vstd::prelude::*;
use crate::error::{ErrorView, FeishuError};
use crate::text::{i32_to_text, int_decimal, join, join3, optional_text};

verus! {

/// What the platform says about the bot.
#[derive(Debug)]
pub struct BotData {
    pub open_id: Option<String>,
}

/// The platform's answer to a bot info request. The bot's data stands at
/// the top level of the answer, beside the code.
#[derive(Debug)]
pub struct BotInfoResponse {
    pub code: i32,
    pub msg: String,
    pub bot: Option<BotData>,
}

/// The URL of the bot info API under a base URL.
pub fn bot_info_url(base_url: &str) -> (url: String)
    ensures
        url@ == base_url@ + "/open-apis/bot/v3/info"@,
{
    join(base_url, "/open-apis/bot/v3/info")
}

/// The value of the `Authorization` header for a token.
pub fn bearer_authorization(token: &str) -> (value: String)
    ensures
        value@ == "Bearer "@ + token@,
{
    join("Bearer ", token)
}

/// The detail of the error for an answer with a code other than 0.
pub open spec fn api_error_detail(code: i32, msg: Seq<char>) -> Seq<char> {
    "API error: code="@ + int_decimal(code as int) + ", msg="@ + msg
}

/// The open id that an answer reports, as plain values.
pub open spec fn reported_open_id(bot: Option<BotData>) -> Option<Seq<char>> {
    match bot {
        Some(data) => optional_text(data.open_id),
        None => None,
    }
}

/// Reads the bot's open id out of the platform's answer. A code other than
/// 0 is an error; an answer without bot data, or bot data without an open
/// id, is a bot without a known identity.
pub fn bot_open_id_from_response(response: BotInfoResponse) -> (open_id: Result<
    Option<String>,
    FeishuError,
>)
    ensures
        response.code == 0 ==> (open_id matches Ok(id) && optional_text(id) == reported_open_id(
            response.bot,
        )),
        response.code != 0 ==> (open_id matches Err(e) && e@ == ErrorView::BotInfoFetchFailed(
            api_error_detail(response.code, response.msg@),
        )),
{
    if response.code != 0 {
        let code = i32_to_text(response.code);
        let head = join3("API error: code=", code.as_str(), ", msg=");
        let detail = join(head.as_str(), response.msg.as_str());
        return Err(FeishuError::BotInfoFetchFailed(detail));
    }
    match response.bot {
        Some(data) => Ok(data.open_id),
        None => Ok(None),
    }
}

} // verus!
