//! The `type` field of the system messages and notifications that the core handles or sends.

use vstd::prelude::*;

verus! {

pub const BREAK: &'static str = "break";
pub const LAUNCH: &'static str = "launch";
pub const ALIAS: &'static str = "alias";
pub const RESET: &'static str = "reset";
pub const BEGIN_MONITOR: &'static str = "begin_monitor";
pub const CONTROL: &'static str = "control";
pub const SUBSCRIBE_EVENTS: &'static str = "subscribe_events";
pub const TIMER: &'static str = "timer";
pub const LOG: &'static str = "log";
pub const REGISTER: &'static str = "register";
pub const INIT: &'static str = "init";
pub const LAUNCH_FINISHED: &'static str = "launch_finished";
pub const EXITED: &'static str = "exited";
pub const MONITOR_EVENT: &'static str = "monitor_event";
pub const RESET_FINISHED: &'static str = "reset_finished";
pub const TIMER_EXPIRED: &'static str = "timer_expired";
pub const PUBLISH_EVENT: &'static str = "publish_event";

} // verus!
