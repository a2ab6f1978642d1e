//! The command dispatcher: authorizes a message by its sender, maps the
//! recognized command texts to actions, and turns an action into the exact
//! timed pulse sequence and optional confirmation reply.

use vstd::prelude::*;
use crate::types::Message;

verus! {

/// Logical level of the output line. The line is active-low: `Low` asserts
/// the emulated button press.
#[derive(PartialEq, Eq, Structural, Clone, Copy, Debug)]
pub enum PinLevel {
    Low,
    High,
}

/// One step of a pulse sequence: drive the line to `level`, then hold it
/// for `hold_ms` milliseconds; `None` means the level is left standing
/// with no further wait.
#[derive(PartialEq, Eq, Structural, Clone, Copy, Debug)]
pub struct PulseStep {
    pub level: PinLevel,
    pub hold_ms: Option<u32>,
}

/// The action a message text maps to.
#[derive(PartialEq, Eq, Structural, Clone, Copy, Debug)]
pub enum Action {
    PowerOn,
    PowerOff,
    Reboot,
    Ignore,
}

/// Exact, case-sensitive command mapping; any unrecognized text is
/// ignored.
pub open spec fn action_of_text(t: Seq<char>) -> Action {
    if t == "/poweron"@ {
        Action::PowerOn
    } else if t == "/poweroff"@ {
        Action::PowerOff
    } else if t == "/reboot"@ {
        Action::Reboot
    } else {
        Action::Ignore
    }
}

/// Maps a message text to its action, by exact match.
pub fn parse_action(text: &String) -> (a: Action)
    ensures
        a == action_of_text(text@),
{
    if *text == "/poweron".to_owned() {
        Action::PowerOn
    } else if *text == "/poweroff".to_owned() {
        Action::PowerOff
    } else if *text == "/reboot".to_owned() {
        Action::Reboot
    } else {
        Action::Ignore
    }
}

/// The pulse timeline of each action. Power-on and power-off produce the
/// same single pulse on purpose: the device cannot observe the host's
/// power state, so both emulate one short press. Reboot holds the press
/// long enough to force the host off, releases, then presses once more to
/// start it.
pub open spec fn pulses_for(a: Action) -> Seq<PulseStep> {
    match a {
        Action::PowerOn => seq![
            PulseStep { level: PinLevel::Low, hold_ms: Some(1000u32) },
            PulseStep { level: PinLevel::High, hold_ms: None },
        ],
        Action::PowerOff => seq![
            PulseStep { level: PinLevel::Low, hold_ms: Some(1000u32) },
            PulseStep { level: PinLevel::High, hold_ms: None },
        ],
        Action::Reboot => seq![
            PulseStep { level: PinLevel::Low, hold_ms: Some(5000u32) },
            PulseStep { level: PinLevel::High, hold_ms: Some(3000u32) },
            PulseStep { level: PinLevel::Low, hold_ms: Some(1000u32) },
            PulseStep { level: PinLevel::High, hold_ms: None },
        ],
        Action::Ignore => Seq::empty(),
    }
}

/// Law: power-on and power-off drive the identical pulse, a deliberate
/// simplification kept as-is.
pub proof fn lemma_power_on_off_same_pulse()
    ensures
        pulses_for(Action::PowerOn) == pulses_for(Action::PowerOff),
{
}

/// Builds the pulse sequence of an action, exactly as `pulses_for` states
/// it: no extra, missing or reordered step.
pub fn pulse_sequence(a: Action) -> (r: Vec<PulseStep>)
    ensures
        r@ == pulses_for(a),
{
    let mut r: Vec<PulseStep> = Vec::new();
    match a {
        Action::PowerOn | Action::PowerOff => {
            r.push(PulseStep { level: PinLevel::Low, hold_ms: Some(1000u32) });
            r.push(PulseStep { level: PinLevel::High, hold_ms: None });
        },
        Action::Reboot => {
            r.push(PulseStep { level: PinLevel::Low, hold_ms: Some(5000u32) });
            r.push(PulseStep { level: PinLevel::High, hold_ms: Some(3000u32) });
            r.push(PulseStep { level: PinLevel::Low, hold_ms: Some(1000u32) });
            r.push(PulseStep { level: PinLevel::High, hold_ms: None });
        },
        Action::Ignore => {},
    }
    assert(r@ =~= pulses_for(a));
    r
}

/// The confirmation reply sent after an executed action; ignored actions
/// send none.
pub open spec fn reply_for(a: Action) -> Option<Seq<char>> {
    match a {
        Action::PowerOn => Some("Power on"@),
        Action::PowerOff => Some("Power off"@),
        Action::Reboot => Some("Rebooting"@),
        Action::Ignore => None,
    }
}

/// The action a message is entitled to: senders other than the owner are
/// always ignored, whatever the text; a missing text is ignored too.
pub open spec fn planned_action(owner_id: i64, msg: Message) -> Action {
    if msg.chat_id != owner_id {
        Action::Ignore
    } else {
        match msg.text {
            Some(t) => action_of_text(t@),
            None => Action::Ignore,
        }
    }
}

/// What the dispatcher decided for one message: the action, its pulse
/// timeline, and the confirmation reply to attempt afterwards.
pub struct DispatchPlan {
    pub action: Action,
    pub pulses: Vec<PulseStep>,
    pub reply: Option<String>,
}

/// Decides one message: authorization by sender identifier, exact command
/// match, pulse timeline and reply. A message from any sender other than
/// the owner yields no pulse and no reply, for every text.
pub fn plan(owner_id: i64, msg: &Message) -> (r: DispatchPlan)
    ensures
        r.action == planned_action(owner_id, *msg),
        r.pulses@ == pulses_for(r.action),
        (match r.reply {
            Some(s) => reply_for(r.action) == Some(s@),
            None => reply_for(r.action) is None,
        }),
        msg.chat_id != owner_id ==> r.action == Action::Ignore && r.pulses@
            == Seq::<PulseStep>::empty() && r.reply is None,
{
    let action = if msg.chat_id != owner_id {
        Action::Ignore
    } else {
        match &msg.text {
            Some(t) => parse_action(t),
            None => Action::Ignore,
        }
    };
    let pulses = pulse_sequence(action);
    let reply: Option<String> = match action {
        Action::PowerOn => Some("Power on".to_owned()),
        Action::PowerOff => Some("Power off".to_owned()),
        Action::Reboot => Some("Rebooting".to_owned()),
        Action::Ignore => None,
    };
    DispatchPlan { action, pulses, reply }
}

} // verus!
