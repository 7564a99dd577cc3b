use vstd::prelude::*;
use vstd::string::StringExecFns;

verus! {

/// How long a client waits for the answer to one request, in seconds.
pub const CLIENT_TIMEOUT_SECS: u64 = 5;

/// A frame received from a client's socket.
#[derive(Debug, Clone)]
pub enum ClientFrame {
    Text(String),
    Binary(Vec<u8>),
    Ping,
    Pong,
    Close,
}

/// What the socket handler does with one frame.
#[derive(Debug, Clone)]
pub enum FrameAction {
    /// Submit the text as a payload to sign.
    Submit(String),
    /// Answer with an error frame: the frame is of a kind that is not served.
    Reject,
    /// Nothing to do; wait for the next frame.
    Skip,
    /// The client has left; stop serving it.
    Disconnect,
}

/// How one request of a client ended.
#[derive(Debug, Clone)]
pub enum Outcome {
    /// The request was signed; the signed text.
    Signed(String),
    /// The request failed; a description of the failure.
    Failed(String),
    /// No answer came within the client's timeout.
    TimedOut,
    /// The engine dropped the request without settling it.
    Dropped,
    /// The engine no longer takes requests.
    Unavailable,
    /// The client sent a frame that is not served.
    Unsupported,
}

pub open spec fn spec_reply_text(o: Outcome) -> Seq<char> {
    match o {
        Outcome::Signed(s) => "ok: "@ + s@,
        Outcome::Failed(d) => "error: "@ + d@,
        Outcome::TimedOut => "error: timeout"@,
        Outcome::Dropped => "error: internal error"@,
        Outcome::Unavailable => "error: requester unavailable"@,
        Outcome::Unsupported => "error: unsupported frame"@,
    }
}

/// Decides what to do with a frame from a client: text is a payload to sign,
/// pings and pongs are skipped, a close ends the session, binary data is refused.
pub fn frame_action(frame: ClientFrame) -> (r: FrameAction)
    ensures
        match frame {
            ClientFrame::Text(t) => r == FrameAction::Submit(t),
            ClientFrame::Binary(_) => r == FrameAction::Reject,
            ClientFrame::Ping | ClientFrame::Pong => r == FrameAction::Skip,
            ClientFrame::Close => r == FrameAction::Disconnect,
        },
{
    match frame {
        ClientFrame::Text(t) => FrameAction::Submit(t),
        ClientFrame::Binary(_) => FrameAction::Reject,
        ClientFrame::Ping => FrameAction::Skip,
        ClientFrame::Pong => FrameAction::Skip,
        ClientFrame::Close => FrameAction::Disconnect,
    }
}

/// The text frame that tells a client how its request ended: `ok: ` and the
/// signed text, or `error: ` and what went wrong.
pub fn reply_text(outcome: &Outcome) -> (r: String)
    ensures
        r@ == spec_reply_text(*outcome),
{
    match outcome {
        Outcome::Signed(s) => "ok: ".to_owned().concat(s.as_str()),
        Outcome::Failed(d) => "error: ".to_owned().concat(d.as_str()),
        Outcome::TimedOut => "error: timeout".to_owned(),
        Outcome::Dropped => "error: internal error".to_owned(),
        Outcome::Unavailable => "error: requester unavailable".to_owned(),
        Outcome::Unsupported => "error: unsupported frame".to_owned(),
    }
}

} // verus!
