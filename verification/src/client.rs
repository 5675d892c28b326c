use vstd::prelude::*;
use crate::exchange::is_success_status;
use crate::message::SendResult;
use crate::text::dec_rep;
use crate::text::usize_to_string;

verus! {

/// The FCM HTTP v1 send endpoint of a project.
pub fn fcm_endpoint(project_id: &str) -> (r: String)
    ensures
        r@ == "https://fcm.googleapis.com/v1/projects/"@ + project_id@ + "/messages:send"@,
{
    let mut url = String::from_str("https://fcm.googleapis.com/v1/projects/");
    url.append(project_id);
    url.append("/messages:send");
    proof {
        assert(url@ =~= "https://fcm.googleapis.com/v1/projects/"@ + project_id@
            + "/messages:send"@);
    }
    url
}

/// The details reported for a delivered message: its id where the answer
/// carried one.
pub open spec fn fcm_success_details(parsed_name: Option<String>) -> Seq<char> {
    match parsed_name {
        Some(n) => "sent: message id "@ + n@,
        None => "sent"@,
    }
}

/// The details reported for a refused message: the status, and the error
/// message where the answer carried one, else the raw body.
pub open spec fn fcm_failure_details(
    status: u16,
    body: Seq<char>,
    parsed_error: Option<String>,
) -> Seq<char> {
    "send failed ("@ + dec_rep(status as nat) + "): "@ + (match parsed_error {
        Some(m) => m@,
        None => body,
    })
}

/// Classifies what the FCM endpoint answered. `parsed_name` is the message
/// id the caller decoded from a successful body; `parsed_error` the error
/// message decoded from a failed one; either is `None` where the body does
/// not decode.
pub fn interpret_fcm_reply(
    status: u16,
    body: String,
    parsed_name: Option<String>,
    parsed_error: Option<String>,
) -> (r: SendResult)
    ensures
        r.success == is_success_status(status),
        is_success_status(status) ==> r.details@ == fcm_success_details(parsed_name),
        !is_success_status(status) ==> r.details@ == fcm_failure_details(
            status,
            body@,
            parsed_error,
        ),
{
    if 200 <= status && status < 300 {
        match parsed_name {
            Some(n) => {
                let mut d = String::from_str("sent: message id ");
                d.append(n.as_str());
                proof {
                    assert(d@ =~= fcm_success_details(Some(n)));
                }
                SendResult::success(d)
            },
            None => SendResult::success(String::from_str("sent")),
        }
    } else {
        let mut d = String::from_str("send failed (");
        let st = usize_to_string(status as usize);
        d.append(st.as_str());
        d.append("): ");
        match &parsed_error {
            Some(m) => d.append(m.as_str()),
            None => d.append(body.as_str()),
        }
        proof {
            assert(d@ =~= fcm_failure_details(status, body@, parsed_error));
        }
        SendResult::failure(d)
    }
}

} // verus!
