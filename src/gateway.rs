use vstd::prelude::*;

use crate::command_loop::{Command, CommandView, Reply};
use crate::device::{device_views, ExtronDevice};
use crate::protocol::{SelectError, SelectErrorView};

verus! {

/// Why a remote call failed.
#[derive(Debug)]
pub enum CallError {
    /// The command loop's queue or the reply channel broke, or the reply was
    /// not one for the call.
    Internal,
    /// The selection failed.
    Select(SelectError),
}

pub enum CallErrorView {
    Internal,
    Select(SelectErrorView),
}

impl View for CallError {
    type V = CallErrorView;

    open spec fn view(&self) -> CallErrorView {
        match self {
            CallError::Internal => CallErrorView::Internal,
            CallError::Select(e) => CallErrorView::Select(e@),
        }
    }
}

/// The command for a remote select call.
pub fn select_input_request(name: &str, input: &str) -> (r: Command)
    ensures
        r@ == (CommandView::SelectInput { device_name: name@, input_id: input@ }),
{
    Command::SelectInput { device_name: String::from_str(name), input_id: String::from_str(input) }
}

/// The result of a remote list call, from what came back on its reply
/// channel (nothing where the channel closed).
pub fn list_devices_result(reply: Option<Reply>) -> (r: Result<Vec<ExtronDevice>, CallError>)
    ensures
        match reply {
            Some(Reply::ListDevices(d)) => r is Ok && device_views(r->Ok_0@) == device_views(d@),
            _ => r is Err && r->Err_0 is Internal,
        },
{
    match reply {
        Some(Reply::ListDevices(d)) => Ok(d),
        _ => Err(CallError::Internal),
    }
}

/// The result of a remote rescan call, from what came back on its reply
/// channel.
pub fn rescan_result(reply: Option<Reply>) -> (r: Result<(), CallError>)
    ensures
        match reply {
            Some(Reply::RescanReply) => r is Ok,
            _ => r is Err && r->Err_0 is Internal,
        },
{
    match reply {
        Some(Reply::RescanReply) => Ok(()),
        _ => Err(CallError::Internal),
    }
}

/// The result of a remote select call, from what came back on its reply
/// channel: the selection's own outcome, or an internal error.
pub fn select_input_result(reply: Option<Reply>) -> (r: Result<(), CallError>)
    ensures
        match reply {
            Some(Reply::Select(Ok(()))) => r is Ok,
            Some(Reply::Select(Err(e))) => r is Err && r->Err_0@ == CallErrorView::Select(e@),
            _ => r is Err && r->Err_0 is Internal,
        },
{
    match reply {
        Some(Reply::Select(Ok(()))) => Ok(()),
        Some(Reply::Select(Err(e))) => Err(CallError::Select(e)),
        _ => Err(CallError::Internal),
    }
}

/// The result of a remote stop call, from what came back on its reply
/// channel.
pub fn stop_server_result(reply: Option<Reply>) -> (r: Result<(), CallError>)
    ensures
        match reply {
            Some(Reply::StopReply) => r is Ok,
            _ => r is Err && r->Err_0 is Internal,
        },
{
    match reply {
        Some(Reply::StopReply) => Ok(()),
        _ => Err(CallError::Internal),
    }
}

} // verus!
