use vstd::prelude::*;

use crate::control::ControlCommand;
use crate::error::ClipdError;
use crate::fmt::unicode::{lemma_formatter_idempotent, matched_rules};
use crate::fmt::{FormatFeature, UnicodeFormatter};
use crate::state::ServiceState;
use crate::suppress::{last_emitted_view, spec_needs_format};

verus! {

/// The state a control command moves the worker to.
pub open spec fn spec_apply_command(state: ServiceState, cmd: ControlCommand) -> ServiceState {
    match cmd {
        ControlCommand::Pause => ServiceState::Paused,
        ControlCommand::Resume => ServiceState::Running,
        ControlCommand::Exit => ServiceState::Stopped,
    }
}

/// The session-bound clipboard worker: its lifecycle state, the normalization
/// pass it applies, and the record of its last write, which keeps it from
/// reacting to its own output.
#[derive(Debug)]
pub struct ClipboardWorker {
    pub state: ServiceState,
    pub formatter: UnicodeFormatter,
    pub last_emitted: Option<String>,
}

/// Whether a clipboard event is skipped without formatting: the worker is not
/// running, the clipboard is still owned by the worker itself, or the text is
/// exactly what the worker last wrote.
pub open spec fn spec_skips_event(
    w: ClipboardWorker,
    owner_is_self: bool,
    text: Seq<char>,
) -> bool {
    w.state != ServiceState::Running || owner_is_self || !spec_needs_format(
        last_emitted_view(w.last_emitted),
        text,
    )
}

impl ClipboardWorker {
    /// A fresh worker: start pending, nothing emitted yet.
    pub fn new(feature: FormatFeature) -> (r: ClipboardWorker)
        ensures
            r.state == ServiceState::StartPending,
            r.formatter == (UnicodeFormatter { feature, ends_with_zero: false }),
            r.last_emitted is None,
    {
        ClipboardWorker {
            state: ServiceState::StartPending,
            formatter: UnicodeFormatter { feature, ends_with_zero: false },
            last_emitted: None,
        }
    }

    /// Marks the worker as running; called once its event loop is up.
    pub fn start(&mut self)
        ensures
            final(self).state == ServiceState::Running,
            final(self).formatter == old(self).formatter,
            final(self).last_emitted == old(self).last_emitted,
    {
        self.state = ServiceState::Running;
    }

    /// Applies a decoded control command: pause, resume or stop the worker.
    /// Local UI commands take the same path as remote ones.
    pub fn apply_command(&mut self, cmd: ControlCommand)
        ensures
            final(self).state == spec_apply_command(old(self).state, cmd),
            final(self).formatter == old(self).formatter,
            final(self).last_emitted == old(self).last_emitted,
    {
        match cmd {
            ControlCommand::Pause => {
                self.state = ServiceState::Paused;
            },
            ControlCommand::Resume => {
                self.state = ServiceState::Running;
            },
            ControlCommand::Exit => {
                self.state = ServiceState::Stopped;
            },
        }
    }

    /// Handles one byte received over the control channel. A known byte moves
    /// the worker to the commanded state and reports whether the listener
    /// must exit; an unknown byte changes nothing and is reported as a decode
    /// error.
    pub fn handle_control_byte(&mut self, byte: u8) -> (r: Result<bool, ClipdError>)
        ensures
            ControlCommand::spec_decode(byte) matches Ok(cmd) ==> r is Ok && final(self).state
                == spec_apply_command(old(self).state, cmd) && (r->Ok_0 <==> cmd
                == ControlCommand::Exit),
            ControlCommand::spec_decode(byte) is Err ==> r == Result::<bool, ClipdError>::Err(
                ClipdError::UnknownCommandByte(byte),
            ) && *final(self) == *old(self),
            final(self).formatter == old(self).formatter,
            final(self).last_emitted == old(self).last_emitted,
    {
        let cmd = match ControlCommand::decode(byte) {
            Ok(cmd) => cmd,
            Err(e) => {
                return Err(e);
            },
        };
        self.apply_command(cmd);
        Ok(match cmd {
            ControlCommand::Exit => true,
            _ => false,
        })
    }

    /// Handles one clipboard change. Skips the cycle when the worker is not
    /// running, when the clipboard owner is the worker itself, or when the
    /// text is exactly the last write. Otherwise normalizes the text,
    /// remembers the output, and returns the text to write back when a rule
    /// fired.
    pub fn on_clipboard_event(&mut self, owner_is_self: bool, text: &String) -> (r: Result<
        Option<String>,
        ClipdError,
    >)
        ensures
            spec_skips_event(*old(self), owner_is_self, text@) ==> (r matches Ok(w) && w is None
                && *final(self) == *old(self)),
            !spec_skips_event(*old(self), owner_is_self, text@)
                && old(self).formatter.feature.spec_is_empty() ==> r == Result::<
                Option<String>,
                ClipdError,
            >::Err(ClipdError::EmptyFeatureSet) && *final(self) == *old(self),
            !spec_skips_event(*old(self), owner_is_self, text@)
                && !old(self).formatter.feature.spec_is_empty() ==> {
                &&& final(self).state == old(self).state
                &&& final(self).formatter == old(self).formatter
                &&& last_emitted_view(final(self).last_emitted) == Some(
                    old(self).formatter.spec_output(text@),
                )
                &&& !matched_rules(old(self).formatter.feature, text@).spec_is_empty() ==> (
                r matches Ok(w) && w matches Some(s) && s@ == old(self).formatter.spec_output(
                    text@,
                ))
                &&& matched_rules(old(self).formatter.feature, text@).spec_is_empty() ==> (
                r matches Ok(w) && w is None)
            },
    {
        if !matches!(self.state, ServiceState::Running) {
            return Ok(None);
        }
        if owner_is_self {
            return Ok(None);
        }
        let skip = match &self.last_emitted {
            Some(s) => s.eq(text),
            None => false,
        };
        if skip {
            return Ok(None);
        }
        let res = match self.formatter.fmt(text) {
            Ok(res) => res,
            Err(e) => {
                return Err(e);
            },
        };
        self.last_emitted = Some(res.data.clone());
        if res.has_changed() {
            Ok(Some(res.data))
        } else {
            Ok(None)
        }
    }
}

/// The control protocol drives the worker state: a pause byte takes a running
/// worker to `Paused`, a resume byte takes it back to `Running`, and a byte
/// outside the protocol decodes to an error, on which the worker state stays
/// unchanged.
pub proof fn lemma_control_protocol(byte: u8)
    ensures
        ControlCommand::spec_decode(0x50) == Ok::<ControlCommand, ClipdError>(
            ControlCommand::Pause,
        ),
        ControlCommand::spec_decode(0x52) == Ok::<ControlCommand, ClipdError>(
            ControlCommand::Resume,
        ),
        spec_apply_command(ServiceState::Running, ControlCommand::Pause) == ServiceState::Paused,
        spec_apply_command(ServiceState::Paused, ControlCommand::Resume) == ServiceState::Running,
        byte != 0x50 && byte != 0x52 && byte != 0x44 ==> ControlCommand::spec_decode(byte)
            == Err::<ControlCommand, ClipdError>(ClipdError::UnknownCommandByte(byte)),
{
}

/// What the worker writes back is already normalized: a pass over its own
/// output fires no rule. So even if the suppression record were lost and the
/// worker formatted its own write again, it would not write a second time,
/// and the loop cannot feed itself forever.
pub proof fn lemma_written_text_is_normalized(w: ClipboardWorker, text: Seq<char>)
    ensures
        matched_rules(w.formatter.feature, w.formatter.spec_output(text)).spec_is_empty(),
{
    lemma_formatter_idempotent(w.formatter, text);
}

/// Feedback suppression at the worker level: after a cycle in which the
/// worker wrote text back, a following read that returns exactly the written
/// text is skipped.
pub proof fn lemma_worker_feedback_suppression(
    before: ClipboardWorker,
    after: ClipboardWorker,
    text: Seq<char>,
    written: Seq<char>,
)
    requires
        !spec_skips_event(before, false, text),
        !before.formatter.feature.spec_is_empty(),
        // what `on_clipboard_event` guarantees of the worker after the cycle:
        after.state == before.state,
        after.formatter == before.formatter,
        last_emitted_view(after.last_emitted) == Some(before.formatter.spec_output(text)),
        written == before.formatter.spec_output(text),
    ensures
        spec_skips_event(after, false, written),
{
}

} // verus!
