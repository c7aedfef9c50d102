//! The protocol of the render service.
use crate::error::{AppError, AppResult, ErrorView};
use vstd::prelude::*;
use vstd::string::*;

verus! {

/// The client of the render service.
#[derive(Clone, Debug)]
pub struct RenderClient {
    pub base_url: String,
}

/// An error of the render service.
pub open spec fn remotion_failure(message: Seq<char>) -> ErrorView {
    ErrorView::External { service: "remotion"@, message }
}

impl RenderClient {
    pub fn new(base_url: String) -> (r: RenderClient)
        ensures
            r == (RenderClient { base_url }),
    {
        RenderClient { base_url }
    }

    /// Where jobs are sent.
    pub fn render(&self) -> (r: String)
        ensures
            r@ == self.base_url@ + "/renders"@,
    {
        let mut url = self.base_url.clone();
        url.append("/renders");
        url
    }

    /// The error for a request or a reply that did not get through.
    pub fn unreachable_service(reason: String) -> (r: AppError)
        ensures
            r@ == remotion_failure(reason@),
    {
        AppError::external("remotion", reason)
    }

    /// The body of a successful reply.
    pub fn checked_text(status: u16, status_text: &str, body: String) -> (r: AppResult<String>)
        ensures
            200 <= status < 300 ==> r is Ok && r->Ok_0 == body,
            !(200 <= status < 300) ==> r is Err && r->Err_0@ == remotion_failure(
                "HTTP "@ + status_text@ + ": "@ + body@,
            ),
    {
        if status < 200 || status >= 300 {
            let mut message = "HTTP ".to_owned();
            message.append(status_text);
            message.append(": ");
            message.append(body.as_str());
            return Err(AppError::external("remotion", message));
        }
        Ok(body)
    }
}

/// A job goes to the render service of the client; its reply is taken exactly where its status is in
/// the two hundreds, and else told, with its status, as an error of the service.
pub proof fn law_render_reply(
    client: RenderClient,
    url: String,
    status: u16,
    status_text: &str,
    body: String,
    r: AppResult<String>,
    reason: String,
    lost: AppError,
)
    requires
        call_ensures(RenderClient::render, (&client,), url),
        call_ensures(RenderClient::checked_text, (status, status_text, body), r),
        call_ensures(RenderClient::unreachable_service, (reason,), lost),
    ensures
        url@ == client.base_url@ + "/renders"@,
        r is Ok <==> status as int / 100 == 2,
        r is Ok ==> r->Ok_0 == body,
        r is Err ==> r->Err_0@ == (ErrorView::External {
            service: "remotion"@,
            message: "HTTP "@ + status_text@ + ": "@ + body@,
        }),
        lost@ == (ErrorView::External { service: "remotion"@, message: reason@ }),
{
}

/// A client of the render service keeps the address that it was made with.
pub proof fn law_client_of_an_address(base_url: String, client: RenderClient, url: String)
    requires
        call_ensures(RenderClient::new, (base_url,), client),
        call_ensures(RenderClient::render, (&client,), url),
    ensures
        url@ == base_url@ + "/renders"@,
{
}

} // verus!
