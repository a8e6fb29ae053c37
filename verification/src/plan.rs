//! From one inbound gateway event to the sends it calls for.
//!
//! The bot reacts to exactly one thing: a message whose text is, letter
//! for letter, the trigger command. That message earns a burst of five
//! sends to the channel it arrived on, each carrying a numbered caption
//! and the same fixed attachment. Every other event, the connection
//! notice included, earns no send at all.

use vstd::prelude::*;

verus! {

/// The text that triggers the burst; nothing else does, not even a
/// string that merely contains or extends it.
pub open spec fn trigger_text() -> Seq<char> {
    "!send_image"@
}

/// How many sends one trigger causes.
pub open spec fn burst_len() -> int {
    5
}

/// Path of the attachment that every send of a burst carries.
pub open spec fn attachment_path_text() -> Seq<char> {
    "./images/example_image.jpg"@
}

/// The decimal digit of an attempt number between 1 and 5.
pub open spec fn attempt_digit(n: int) -> char {
    if n == 1 {
        '1'
    } else if n == 2 {
        '2'
    } else if n == 3 {
        '3'
    } else if n == 4 {
        '4'
    } else {
        '5'
    }
}

/// Caption of the attempt numbered `n`, counting from 1: the fixed
/// prefix followed by the attempt's number.
pub open spec fn caption_text(n: int) -> Seq<char> {
    "Image spam #"@ + seq![attempt_digit(n)]
}

/// One inbound message as the library sees it: its text and the channel
/// it arrived on.
pub struct MessageEvent {
    pub content: String,
    pub channel_id: u64,
}

/// Mathematical image of a `MessageEvent`.
pub struct MessageEventView {
    pub content: Seq<char>,
    pub channel_id: u64,
}

impl View for MessageEvent {
    type V = MessageEventView;

    open spec fn view(&self) -> MessageEventView {
        MessageEventView { content: self.content@, channel_id: self.channel_id }
    }
}

/// Everything the gateway hands the bot: the notice that the connection
/// is up, with the name connected under, or one inbound message.
pub enum GatewayEvent {
    Connected { user_name: String },
    MessageArrived(MessageEvent),
}

/// Mathematical image of a `GatewayEvent`.
pub enum GatewayEventView {
    Connected { user_name: Seq<char> },
    MessageArrived(MessageEventView),
}

impl View for GatewayEvent {
    type V = GatewayEventView;

    open spec fn view(&self) -> GatewayEventView {
        match self {
            GatewayEvent::Connected { user_name } => (GatewayEventView::Connected {
                user_name: user_name@,
            }),
            GatewayEvent::MessageArrived(m) => GatewayEventView::MessageArrived(m@),
        }
    }
}

/// One outbound send: a caption and an attachment path, bound for one
/// channel.
#[derive(Clone, Debug)]
pub struct SendRequest {
    pub channel_id: u64,
    pub caption: String,
    pub attachment_path: String,
}

/// Mathematical image of a `SendRequest`.
pub struct SendRequestView {
    pub channel_id: u64,
    pub caption: Seq<char>,
    pub attachment_path: Seq<char>,
}

impl View for SendRequest {
    type V = SendRequestView;

    open spec fn view(&self) -> SendRequestView {
        SendRequestView {
            channel_id: self.channel_id,
            caption: self.caption@,
            attachment_path: self.attachment_path@,
        }
    }
}

/// The views of the requests of a plan, in the plan's order.
pub open spec fn plan_view(plan: Seq<SendRequest>) -> Seq<SendRequestView> {
    plan.map_values(|r: SendRequest| r@)
}

/// The request numbered `n` (from 1) of a burst aimed at `channel_id`.
pub open spec fn burst_request(channel_id: u64, n: int) -> SendRequestView {
    SendRequestView {
        channel_id: channel_id,
        caption: caption_text(n),
        attachment_path: attachment_path_text(),
    }
}

/// The full burst one trigger causes: the requests numbered 1 through
/// `burst_len()`, in ascending order, all aimed at the same channel.
pub open spec fn burst_plan(channel_id: u64) -> Seq<SendRequestView> {
    Seq::new(burst_len() as nat, |i: int| burst_request(channel_id, i + 1))
}

/// What the bot sends in reaction to one event: nothing, unless the
/// event is a message whose text is exactly the trigger; then the full
/// burst for that message's channel.
pub open spec fn response_plan(event: GatewayEventView) -> Seq<SendRequestView> {
    match event {
        GatewayEventView::Connected { .. } => Seq::empty(),
        GatewayEventView::MessageArrived(m) => if m.content == trigger_text() {
            burst_plan(m.channel_id)
        } else {
            Seq::empty()
        },
    }
}

/// Whether `content` is, letter for letter, the trigger command.
pub fn is_trigger(content: &String) -> (r: bool)
    ensures
        r == (content@ == trigger_text()),
{
    let trigger: String = "!send_image".to_string();
    *content == trigger
}

/// The caption of the attempt numbered `n`, counting from 1.
pub fn caption(n: usize) -> (r: String)
    requires
        1 <= n <= burst_len(),
    ensures
        r@ == caption_text(n as int),
{
    let r: String = if n == 1 {
        "Image spam #1".to_string()
    } else if n == 2 {
        "Image spam #2".to_string()
    } else if n == 3 {
        "Image spam #3".to_string()
    } else if n == 4 {
        "Image spam #4".to_string()
    } else {
        "Image spam #5".to_string()
    };
    proof {
        reveal_strlit("Image spam #");
        reveal_strlit("Image spam #1");
        reveal_strlit("Image spam #2");
        reveal_strlit("Image spam #3");
        reveal_strlit("Image spam #4");
        reveal_strlit("Image spam #5");
        assert(r@ =~= caption_text(n as int));
    }
    r
}

/// The attachment path that every send of a burst carries.
pub fn attachment_path() -> (r: String)
    ensures
        r@ == attachment_path_text(),
{
    "./images/example_image.jpg".to_string()
}

/// Build the burst of sends for one triggering message: `burst_len()`
/// requests to `channel_id`, captions numbered in ascending order.
pub fn plan_burst(channel_id: u64) -> (plan: Vec<SendRequest>)
    ensures
        plan_view(plan@) == burst_plan(channel_id),
{
    let mut plan: Vec<SendRequest> = Vec::new();
    let mut n: usize = 1;
    while n <= 5
        invariant
            1 <= n <= 6,
            plan@.len() == n - 1,
            forall|j: int| 0 <= j < plan@.len() ==> plan@[j]@ == burst_request(channel_id, j + 1),
        decreases 6 - n,
    {
        plan.push(
            SendRequest {
                channel_id: channel_id,
                caption: caption(n),
                attachment_path: attachment_path(),
            },
        );
        n += 1;
    }
    proof {
        assert(plan_view(plan@) =~= burst_plan(channel_id));
    }
    plan
}

/// Decide what one event earns: the empty plan for everything but a
/// message that is exactly the trigger, and the full burst for that.
/// The connection notice in particular earns no send.
pub fn plan_response(event: &GatewayEvent) -> (plan: Vec<SendRequest>)
    ensures
        plan_view(plan@) == response_plan(event@),
{
    match event {
        GatewayEvent::Connected { .. } => {
            let plan: Vec<SendRequest> = Vec::new();
            proof {
                assert(plan_view(plan@) =~= response_plan(event@));
            }
            plan
        },
        GatewayEvent::MessageArrived(m) => {
            if is_trigger(&m.content) {
                plan_burst(m.channel_id)
            } else {
                let plan: Vec<SendRequest> = Vec::new();
                proof {
                    assert(plan_view(plan@) =~= response_plan(event@));
                }
                plan
            }
        },
    }
}

} // verus!
